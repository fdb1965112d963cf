//! The `set-wallpaper` and `set-screensaver` verbs: checking the input
//! video, naming the new asset, and the manifest entry that registers it.
use vstd::prelude::*;
use vstd::utf8::*;

use crate::commands::remove::{asset_file, asset_path};
use crate::manifest::{has_short_id, is_new_entry, Manifest, ManifestEntry};
use crate::path_resolver::{opt_view, ResolvedPaths};
use crate::paths::{extension, extension_of, file_name, file_name_of};
use crate::text::str_eq;

verus! {

broadcast use vstd::utf8::encode_utf8_valid_utf8;

/// What `str::to_lowercase` gives for the characters `s` (the Unicode
/// lower-case mapping).
pub uninterp spec fn lowercase(s: Seq<char>) -> Seq<char>;

/// The ASCII lower case of a character: `A` to `Z` become `a` to `z`.
pub open spec fn ascii_lower_char(c: char) -> char {
    if 'A' <= c <= 'Z' {
        ((c as u32) + 32) as char
    } else {
        c
    }
}

/// The ASCII lower case of a text.
pub open spec fn ascii_lower(s: Seq<char>) -> Seq<char> {
    s.map_values(|c: char| ascii_lower_char(c))
}

/// Calls `str::to_lowercase`; claims that the result is the named
/// lower-case mapping of the argument, and that on ASCII text it maps each
/// upper-case letter to its lower case and keeps every other character
/// (the Unicode lower-case mapping restricted to ASCII).
#[verifier::external_body]
fn to_lowercase(s: &str) -> (r: String)
    ensures
        r@ == lowercase(s@),
        is_ascii_chars(s@) ==> r@ == ascii_lower(s@),
{
    s.to_lowercase()
}

/// A lower-case hexadecimal digit.
pub open spec fn is_lower_hex(c: char) -> bool {
    ('0' <= c <= '9') || ('a' <= c <= 'f')
}

/// A random (version 4) UUID written in the hyphenated lower-case form:
/// 36 characters, hyphens at 8, 13, 18 and 23, hex digits elsewhere, the
/// version digit `4` at 14 and one of `8 9 a b` at 19.
pub open spec fn is_asset_id(s: Seq<char>) -> bool {
    &&& s.len() == 36
    &&& forall|i: int|
        0 <= i < 36 ==> if i == 8 || i == 13 || i == 18 || i == 23 {
            #[trigger] s[i] == '-'
        } else {
            is_lower_hex(s[i])
        }
    &&& s[14] == '4'
    &&& (s[19] == '8' || s[19] == '9' || s[19] == 'a' || s[19] == 'b')
}

/// Calls `uuid::Uuid::new_v4` and formats the result with `to_string`;
/// claims that the text is a hyphenated lower-case version-4 UUID, which is
/// how that crate writes them. Which UUID comes back is left open (it is random).
#[verifier::external_body]
fn new_asset_id() -> (id: String)
    ensures
        is_asset_id(id@),
{
    uuid::Uuid::new_v4().to_string()
}

/// An ASCII id of at least eight characters can be cut after its eighth byte.
pub proof fn lemma_ascii_char_boundary(chars: Seq<char>, i: int)
    requires
        is_ascii_chars(chars),
        0 <= i <= chars.len(),
    ensures
        is_char_boundary(encode_utf8(chars), i),
    decreases chars.len(),
{
    if i > 0 {
        let bytes = encode_utf8(chars);
        let rest = chars.drop_first();
        is_ascii_chars_encode_utf8(chars);
        encode_utf8_first_scalar(chars);
        assert(is_ascii_chars(rest)) by {
            assert forall|k: int| 0 <= k < rest.len() implies '\0' <= #[trigger] rest[k]
                <= '\u{7f}' by {
                assert(rest[k] == chars[k + 1]);
            }
        }
        assert('\0' <= chars[0] <= '\u{7f}');
        assert(has_width_1_encoding(chars[0] as u32));
        assert(length_of_first_scalar(bytes) == 1);
        assert(pop_first_scalar(bytes) =~= encode_utf8(rest)) by {
            assert(bytes == encode_scalar(chars[0] as u32) + encode_utf8(rest));
        }
        lemma_ascii_char_boundary(rest, i - 1);
    }
}

/// A UUID id can be cut after its eighth byte.
pub proof fn lemma_asset_id_has_short_id(id: Seq<char>)
    requires
        is_asset_id(id),
    ensures
        has_short_id(id),
{
    assert(is_ascii_chars(id)) by {
        assert forall|k: int| 0 <= k < id.len() implies '\0' <= #[trigger] id[k] <= '\u{7f}' by {
            if k == 8 || k == 13 || k == 18 || k == 23 {
                assert(id[k] == '-');
            } else {
                assert(is_lower_hex(id[k]));
            }
        }
    }
    lemma_ascii_char_boundary(id, 8);
}

/// The kinds of video that can be set.
#[derive(Debug, Clone, Copy, PartialEq, Eq)]
pub enum VideoKind {
    /// An MP4 video, transcoded to MOV first.
    Mp4,
    /// A MOV video, copied as it is.
    Mov,
}

/// Why an input video was refused.
#[derive(Debug, Clone, PartialEq, Eq)]
pub enum SetError {
    /// The file name has no extension.
    NoExtension,
    /// The extension (lower-cased) is neither `mp4` nor `mov`.
    UnsupportedType(String),
}

/// A set error as a value of the specification.
pub enum SetErrorModel {
    NoExtension,
    UnsupportedType(Seq<char>),
}

impl View for SetError {
    type V = SetErrorModel;

    open spec fn view(&self) -> SetErrorModel {
        match self {
            SetError::NoExtension => SetErrorModel::NoExtension,
            SetError::UnsupportedType(e) => SetErrorModel::UnsupportedType(e@),
        }
    }
}

/// The text shown for a set error.
pub open spec fn set_error_text(e: SetErrorModel) -> Seq<char> {
    match e {
        SetErrorModel::NoExtension => "File has no extension"@,
        SetErrorModel::UnsupportedType(ext) => "Unsupported file type: "@ + ext
            + ". Use .mp4 or .mov"@,
    }
}

impl SetError {
    /// The message that tells the user what went wrong.
    pub fn message(&self) -> (r: String)
        ensures
            r@ == set_error_text(self@),
    {
        match self {
            SetError::NoExtension => String::from_str("File has no extension"),
            SetError::UnsupportedType(ext) => {
                let mut r = String::from_str("Unsupported file type: ");
                r.append(ext.as_str());
                r.append(". Use .mp4 or .mov");
                r
            },
        }
    }
}

/// The kind of video that a lower-cased extension names.
pub open spec fn kind_for(lowered: Seq<char>) -> Result<VideoKind, SetErrorModel> {
    if lowered == "mp4"@ {
        Ok(VideoKind::Mp4)
    } else if lowered == "mov"@ {
        Ok(VideoKind::Mov)
    } else {
        Err(SetErrorModel::UnsupportedType(lowered))
    }
}

/// The kind of video that a file's extension names, where it has one.
pub open spec fn kind_of_extension(ext: Option<Seq<char>>) -> Result<VideoKind, SetErrorModel> {
    match ext {
        None => Err(SetErrorModel::NoExtension),
        Some(e) => kind_for(lowercase(e)),
    }
}

/// The kind of video that the path `file` names by its extension.
pub open spec fn kind_of_file(file: Seq<char>) -> Result<VideoKind, SetErrorModel> {
    kind_of_extension(extension(file))
}

/// A kind result as a value of the specification.
pub open spec fn kind_model(r: Result<VideoKind, SetError>) -> Result<VideoKind, SetErrorModel> {
    match r {
        Ok(k) => Ok(k),
        Err(e) => Err(e@),
    }
}

/// The kind of video that a lower-cased extension names.
pub fn classify_extension(lowered: String) -> (r: Result<VideoKind, SetError>)
    ensures
        kind_model(r) == kind_for(lowered@),
{
    if str_eq(lowered.as_str(), "mp4") {
        Ok(VideoKind::Mp4)
    } else if str_eq(lowered.as_str(), "mov") {
        Ok(VideoKind::Mov)
    } else {
        Err(SetError::UnsupportedType(lowered))
    }
}

/// The kind of video that a file's extension names, in any case; a file
/// without an extension (or whose extension is not text) is refused.
pub fn extension_kind(ext: Option<&str>) -> (r: Result<VideoKind, SetError>)
    ensures
        kind_model(r) == kind_of_extension(opt_view(ext)),
        ext matches Some(e) ==> (is_ascii_chars(e@) ==> kind_model(r) == kind_for(
            ascii_lower(e@),
        )),
{
    match ext {
        None => Err(SetError::NoExtension),
        Some(e) => classify_extension(to_lowercase(e)),
    }
}

/// The kind of the video at `file`, judged by its extension in any case.
pub fn video_kind(file: &str) -> (r: Result<VideoKind, SetError>)
    ensures
        kind_model(r) == kind_of_file(file@),
        extension(file@) matches Some(e) ==> (is_ascii_chars(e) ==> kind_model(r) == kind_for(
            ascii_lower(e),
        )),
{
    match extension_of(file) {
        None => extension_kind(None),
        Some(ext) => extension_kind(Some(ext.as_str())),
    }
}

/// Everything needed to install one video as a new asset.
#[derive(Debug, Clone, PartialEq, Eq)]
pub struct SetPlan {
    /// The id of the new asset.
    pub id: String,
    /// The name shown for it: the input's file name.
    pub name: String,
    /// Whether the input is transcoded (MP4) or copied (MOV).
    pub kind: VideoKind,
    /// Where the video goes.
    pub video_path: String,
    /// Where the thumbnail goes.
    pub thumbnail_path: String,
    /// The thumbnail's file name, as the manifest refers to it.
    pub thumbnail_name: String,
    /// The video's `file://` URL, as the manifest refers to it.
    pub video_url: String,
    /// The System Settings panel opened at the end: the wallpaper panel for
    /// a wallpaper, the screen saver panel for a screensaver.
    pub settings_panel: String,
    /// The line printed when the video is in place.
    pub success_message: String,
}

/// The name shown for an input: its file name, or `video` where it has
/// none (or none that is text).
pub open spec fn shown_name(name: Option<Seq<char>>) -> Seq<char> {
    match name {
        Some(n) => n,
        None => "video"@,
    }
}

/// The plan for installing `file` of kind `kind` as the asset `id`.
pub open spec fn is_plan(
    p: SetPlan,
    resolved: ResolvedPaths,
    file: Seq<char>,
    kind: VideoKind,
    id: Seq<char>,
    is_wallpaper: bool,
) -> bool {
    is_named_plan(p, resolved, shown_name(file_name(file)), kind, id, is_wallpaper)
}

/// The plan for installing a video shown as `name`, of kind `kind`, as the
/// asset `id`.
pub open spec fn is_named_plan(
    p: SetPlan,
    resolved: ResolvedPaths,
    name: Seq<char>,
    kind: VideoKind,
    id: Seq<char>,
    is_wallpaper: bool,
) -> bool {
    &&& p.id@ == id
    &&& p.name@ == name
    &&& p.kind == kind
    &&& p.video_path@ == asset_path(resolved.videos_dir@, id, ".mov"@)
    &&& p.thumbnail_path@ == asset_path(resolved.thumbnails_dir@, id, ".png"@)
    &&& p.thumbnail_name@ == id + ".png"@
    &&& p.video_url@ == "file://"@ + p.video_path@
    &&& p.settings_panel@ == settings_panel_for(is_wallpaper)
    &&& p.success_message@ == success_message_for(is_wallpaper)
}

/// The System Settings panel that the verb opens at the end.
pub open spec fn settings_panel_for(is_wallpaper: bool) -> Seq<char> {
    if is_wallpaper {
        "x-apple.systempreferences:com.apple.preference.desktopscreeneffect"@
    } else {
        "x-apple.systempreferences:com.apple.preference.desktopscreeneffect?ScreenSaver"@
    }
}

/// The line that the verb prints when the video is in place.
pub open spec fn success_message_for(is_wallpaper: bool) -> Seq<char> {
    if is_wallpaper {
        "Live wallpaper set successfully!"@
    } else {
        "Screensaver set successfully!"@
    }
}

/// The plan for installing `file`, of kind `kind`, as the asset `id`.
pub fn plan_set(
    resolved: &ResolvedPaths,
    file: &str,
    kind: VideoKind,
    id: &str,
    is_wallpaper: bool,
) -> (p: SetPlan)
    ensures
        is_plan(p, *resolved, file@, kind, id@, is_wallpaper),
{
    match file_name_of(file) {
        Some(n) => plan_named(resolved, n.as_str(), kind, id, is_wallpaper),
        None => plan_named(resolved, "video", kind, id, is_wallpaper),
    }
}

/// The plan for installing a video shown as `name`, of kind `kind`, as the
/// asset `id`.
pub fn plan_named(
    resolved: &ResolvedPaths,
    name: &str,
    kind: VideoKind,
    id: &str,
    is_wallpaper: bool,
) -> (p: SetPlan)
    ensures
        is_named_plan(p, *resolved, name@, kind, id@, is_wallpaper),
{
    let name = String::from_str(name);
    let video_path = asset_file(resolved.videos_dir.as_str(), id, ".mov");
    let thumbnail_path = asset_file(resolved.thumbnails_dir.as_str(), id, ".png");
    let mut thumbnail_name = String::from_str(id);
    thumbnail_name.append(".png");
    let mut video_url = String::from_str("file://");
    video_url.append(video_path.as_str());
    SetPlan {
        id: String::from_str(id),
        name,
        kind,
        video_path,
        thumbnail_path,
        thumbnail_name,
        video_url,
        settings_panel: if is_wallpaper {
            String::from_str("x-apple.systempreferences:com.apple.preference.desktopscreeneffect")
        } else {
            String::from_str(
                "x-apple.systempreferences:com.apple.preference.desktopscreeneffect?ScreenSaver",
            )
        },
        success_message: if is_wallpaper {
            String::from_str("Live wallpaper set successfully!")
        } else {
            String::from_str("Screensaver set successfully!")
        },
    }
}

/// Checks the input video at `file` and plans its installation under a
/// fresh random id.
pub fn execute_set(resolved: &ResolvedPaths, file: &str, is_wallpaper: bool) -> (r: Result<
    SetPlan,
    SetError,
>)
    ensures
        match r {
            Ok(p) => kind_of_file(file@) == Ok::<VideoKind, SetErrorModel>(p.kind) && is_asset_id(
                p.id@,
            ) && is_plan(p, *resolved, file@, p.kind, p.id@, is_wallpaper),
            Err(e) => kind_of_file(file@) == Err::<VideoKind, SetErrorModel>(e@),
        },
{
    let name = file_name_of(file);
    let ext = extension_of(file);
    let name_text = match &name {
        Some(n) => Some(n.as_str()),
        None => None,
    };
    let ext_text = match &ext {
        Some(e) => Some(e.as_str()),
        None => None,
    };
    execute_set_parts(resolved, name_text, ext_text, is_wallpaper)
}

/// Checks an input video by its file name and extension, each given where
/// the input's path has one that is text, and plans its installation under
/// a fresh random id.
pub fn execute_set_parts(
    resolved: &ResolvedPaths,
    name: Option<&str>,
    ext: Option<&str>,
    is_wallpaper: bool,
) -> (r: Result<SetPlan, SetError>)
    ensures
        match r {
            Ok(p) => kind_of_extension(opt_view(ext)) == Ok::<VideoKind, SetErrorModel>(p.kind)
                && is_asset_id(p.id@) && is_named_plan(
                p,
                *resolved,
                shown_name(opt_view(name)),
                p.kind,
                p.id@,
                is_wallpaper,
            ),
            Err(e) => kind_of_extension(opt_view(ext)) == Err::<VideoKind, SetErrorModel>(e@),
        },
{
    let kind = match extension_kind(ext) {
        Ok(k) => k,
        Err(e) => {
            return Err(e);
        },
    };
    let id = new_asset_id();
    match name {
        Some(n) => Ok(plan_named(resolved, n, kind, id.as_str(), is_wallpaper)),
        None => Ok(plan_named(resolved, "video", kind, id.as_str(), is_wallpaper)),
    }
}

impl SetPlan {
    /// The manifest entry that registers the planned asset.
    pub fn entry(&self) -> (e: ManifestEntry)
        requires
            has_short_id(self.id@),
        ensures
            is_new_entry(e, self.id@, self.name@, self.video_url@, self.thumbnail_name@),
    {
        Manifest::create_entry(
            self.id.as_str(),
            self.name.as_str(),
            self.video_url.as_str(),
            self.thumbnail_name.as_str(),
        )
    }

    /// Adds the planned asset to the manifest, after its other entries.
    pub fn register(&self, manifest: &mut Manifest)
        requires
            has_short_id(self.id@),
        ensures
            final(manifest).entries@.len() == old(manifest).entries@.len() + 1,
            final(manifest).entries@.drop_last() == old(manifest).entries@,
            is_new_entry(
                final(manifest).entries@.last(),
                self.id@,
                self.name@,
                self.video_url@,
                self.thumbnail_name@,
            ),
    {
        let e = self.entry();
        manifest.add_entry(e);
        assert(manifest.entries@.drop_last() =~= old(manifest).entries@);
    }
}

/// Every planned id can be used for the shot id of its manifest entry.
pub proof fn law_planned_ids_fit_entries(p: SetPlan)
    requires
        is_asset_id(p.id@),
    ensures
        has_short_id(p.id@),
{
    lemma_asset_id_has_short_id(p.id@);
}

/// Only MP4 and MOV videos are accepted: a lower-cased extension names the
/// MP4 kind exactly when it is `mp4`, the MOV kind exactly when it is
/// `mov`, and any other is refused as unsupported, with the extension.
pub proof fn law_only_mp4_and_mov(lowered: Seq<char>)
    ensures
        kind_for(lowered) == Ok::<VideoKind, SetErrorModel>(VideoKind::Mp4) <==> lowered == "mp4"@,
        kind_for(lowered) == Ok::<VideoKind, SetErrorModel>(VideoKind::Mov) <==> lowered == "mov"@,
        kind_for(lowered) is Ok <==> (lowered == "mp4"@ || lowered == "mov"@),
        !(lowered == "mp4"@ || lowered == "mov"@) ==> kind_for(lowered) == Err::<
            VideoKind,
            SetErrorModel,
        >(SetErrorModel::UnsupportedType(lowered)),
{
    reveal_strlit("mp4");
    reveal_strlit("mov");
    assert("mp4"@ != "mov"@) by {
        assert("mp4"@[2] != "mov"@[2]);
    }
}

/// An input is accepted only with an extension that lower-cases to `mp4`
/// or `mov`; without an extension it is refused as having none.
pub proof fn law_accepted_extensions(ext: Option<Seq<char>>)
    ensures
        kind_of_extension(ext) is Ok <==> (ext matches Some(e) && (lowercase(e) == "mp4"@
            || lowercase(e) == "mov"@)),
        ext is None ==> kind_of_extension(ext) == Err::<VideoKind, SetErrorModel>(
            SetErrorModel::NoExtension,
        ),
{
    if let Some(e) = ext {
        law_only_mp4_and_mov(lowercase(e));
    }
}

} // verus!
