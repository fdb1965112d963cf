//! The aerial manifest (`entries.json`) as values: its entries, the entries
//! this tool adds, and the edits that add and remove them.
use vstd::prelude::*;
use vstd::string::StringSliceAdditionalSpecFns;
use vstd::utf8::*;

use crate::paths::{file_name, lemma_last_index, replace_extension, stem_end, with_extension};
use crate::text::{decimal_digits, decimal_text, lemma_decimal_digits_injective, str_eq};

verus! {

broadcast use vstd::utf8::encode_utf8_valid_utf8, vstd::utf8::encode_utf8_decode_utf8;

/// One asset of the manifest, with the fields the system reads.
#[derive(Debug, Clone, PartialEq, Eq)]
pub struct ManifestEntry {
    /// `accessibilityLabel`: the name shown for the asset.
    pub accessibility_label: String,
    pub categories: Vec<String>,
    pub id: String,
    /// `includeInShuffle`
    pub include_in_shuffle: bool,
    /// `localizedNameKey`
    pub localized_name_key: String,
    /// `pointsOfInterest`, held as the JSON text of its value.
    pub points_of_interest: String,
    /// `preferredOrder`
    pub preferred_order: i32,
    /// `previewImage`: the file name of the thumbnail.
    pub preview_image: String,
    /// `shotID`
    pub shot_id: String,
    /// `showInTopLevel`
    pub show_in_top_level: bool,
    pub subcategories: Vec<String>,
    /// `url-4K-SDR-240FPS`: where the video is.
    pub url: String,
    /// Who added the asset; this tool marks its own entries `livewall`.
    pub source: Option<String>,
}

/// The whole manifest: its entries in file order.
#[derive(Debug, Clone, PartialEq, Eq)]
pub struct Manifest {
    pub entries: Vec<ManifestEntry>,
}

/// The mark that this tool puts in the `source` of the entries it adds.
pub open spec fn livewall_mark() -> Seq<char> {
    "livewall"@
}

/// An entry that this tool added.
pub open spec fn is_livewall(e: ManifestEntry) -> bool {
    e.source matches Some(s) && s@ == livewall_mark()
}

/// The entries added by this tool, in manifest order.
pub open spec fn livewall_entries(entries: Seq<ManifestEntry>) -> Seq<ManifestEntry> {
    entries.filter(|e: ManifestEntry| is_livewall(e))
}

/// An entry whose id differs from `id`.
pub open spec fn keeps(id: Seq<char>) -> spec_fn(ManifestEntry) -> bool {
    |e: ManifestEntry| e.id@ != id
}

/// Some entry has the id `id`.
pub open spec fn has_id(entries: Seq<ManifestEntry>, id: Seq<char>) -> bool {
    exists|i: int| 0 <= i < entries.len() && #[trigger] entries[i].id@ == id
}

/// The id can be cut after its eighth byte without splitting a character.
pub open spec fn has_short_id(id: Seq<char>) -> bool {
    is_char_boundary(encode_utf8(id), 8)
}

/// The characters of the first eight bytes of `id`.
pub open spec fn short_id(id: Seq<char>) -> Seq<char> {
    decode_utf8(encode_utf8(id).subrange(0, 8))
}

/// A manifest entry for a video added by this tool.
pub open spec fn is_new_entry(
    e: ManifestEntry,
    id: Seq<char>,
    name: Seq<char>,
    video_url: Seq<char>,
    thumbnail: Seq<char>,
) -> bool {
    &&& e.accessibility_label@ == name
    &&& e.categories@.len() == 0
    &&& e.id@ == id
    &&& e.include_in_shuffle
    &&& e.localized_name_key@ == "LIVEWALL_"@ + id
    &&& e.points_of_interest@ == "{}"@
    &&& e.preferred_order == 99999
    &&& e.preview_image@ == thumbnail
    &&& e.shot_id@ == "LW_"@ + short_id(id)
    &&& e.show_in_top_level
    &&& e.subcategories@.len() == 0
    &&& e.url@ == video_url
    &&& is_livewall(e)
}

/// The position of the first entry that this tool added with the id `id`.
pub open spec fn first_livewall_with_id(entries: Seq<ManifestEntry>, id: Seq<char>, i: int) -> Option<
    int,
>
    decreases entries.len() - i,
{
    if i < 0 || i >= entries.len() {
        None
    } else if entries[i].id@ == id && is_livewall(entries[i]) {
        Some(i)
    } else {
        first_livewall_with_id(entries, id, i + 1)
    }
}

impl Manifest {
    /// Where the previous manifest is kept before a save made at `stamp`
    /// (milliseconds since the epoch): the manifest path with the extension
    /// `<stamp>.bak`, so that every save keeps its own backup.
    pub fn backup_path(path: &str, stamp: u64) -> (r: String)
        ensures
            r@ == with_extension(path@, backup_extension(stamp)),
    {
        let mut ext = decimal_text(stamp);
        ext.append(".bak");
        replace_extension(path, ext.as_str())
    }

    /// Where a new manifest is written before it replaces the old one: the
    /// manifest path with the extension `tmp`.
    pub fn staging_path(path: &str) -> (r: String)
        ensures
            r@ == with_extension(path@, "tmp"@),
    {
        replace_extension(path, "tmp")
    }

    /// Appends an entry at the end of the manifest.
    pub fn add_entry(&mut self, entry: ManifestEntry)
        ensures
            final(self).entries@ == old(self).entries@.push(entry),
    {
        self.entries.push(entry);
    }

    /// Removes every entry with the id `id`, keeping the others in order;
    /// tells whether any was removed.
    pub fn remove_entry(&mut self, id: &str) -> (removed: bool)
        ensures
            final(self).entries@ == old(self).entries@.filter(keeps(id@)),
            removed == has_id(old(self).entries@, id@),
    {
        let ghost orig = self.entries@;
        let initial_len = self.entries.len();
        let mut i: usize = 0;
        let ghost mut k: int = 0;
        proof {
            assert(orig.take(0).filter(keeps(id@)) =~= Seq::<ManifestEntry>::empty()) by {
                reveal(Seq::filter);
            }
            assert(self.entries@ =~= orig.take(0).filter(keeps(id@)) + orig.skip(0));
        }
        while i < self.entries.len()
            invariant
                0 <= k <= orig.len(),
                self.entries@ == orig.take(k).filter(keeps(id@)) + orig.skip(k),
                i == orig.take(k).filter(keeps(id@)).len(),
                initial_len == orig.len(),
                has_id(orig.take(k), id@) == (i < k),
                i <= k,
            decreases orig.len() - k,
        {
            let ghost kept = orig.take(k).filter(keeps(id@));
            assert(k < orig.len()) by {
                if k >= orig.len() {
                    assert(orig.skip(k).len() == 0);
                }
            }
            assert(self.entries@[i as int] == orig[k]) by {
                assert(orig.skip(k)[0] == orig[k]);
            }
            assert(orig.take(k + 1).drop_last() =~= orig.take(k));
            assert(orig.take(k + 1).last() == orig[k]);
            assert(orig.skip(k).drop_first() =~= orig.skip(k + 1));
            let same = str_eq(self.entries[i].id.as_str(), id);
            proof {
                reveal(Seq::filter);
                if has_id(orig.take(k), id@) {
                    let w = choose|w: int| 0 <= w < k && #[trigger] orig.take(k)[w].id@ == id@;
                    assert(orig.take(k + 1)[w] == orig.take(k)[w]);
                }
                if same {
                    assert(orig.take(k + 1)[k].id@ == id@);
                } else if has_id(orig.take(k + 1), id@) {
                    let w = choose|w: int| 0 <= w < k + 1 && #[trigger] orig.take(k + 1)[w].id@ == id@;
                    assert(orig.take(k)[w] == orig.take(k + 1)[w]);
                }
            }
            if same {
                self.entries.remove(i);
                proof {
                    assert(orig.take(k + 1).filter(keeps(id@)) == kept);
                    assert(self.entries@ =~= orig.take(k + 1).filter(keeps(id@)) + orig.skip(
                        k + 1,
                    ));
                }
            } else {
                proof {
                    assert(orig.take(k + 1).filter(keeps(id@)) == kept.push(orig[k]));
                    assert(self.entries@ =~= orig.take(k + 1).filter(keeps(id@)) + orig.skip(
                        k + 1,
                    ));
                }
                i += 1;
            }
            proof {
                k = k + 1;
            }
        }
        proof {
            if k < orig.len() {
                assert(orig.skip(k).len() > 0);
            }
            assert(orig.take(k) =~= orig);
            assert(orig.skip(k) =~= Seq::<ManifestEntry>::empty());
            assert(self.entries@ =~= orig.filter(keeps(id@)));
        }
        self.entries.len() < initial_len
    }

    /// A new entry for a video that this tool adds; the shot id is made from
    /// the first eight bytes of `id`.
    pub fn create_entry(id: &str, name: &str, video_url: &str, thumbnail: &str) -> (e:
        ManifestEntry)
        requires
            has_short_id(id@),
        ensures
            is_new_entry(e, id@, name@, video_url@, thumbnail@),
    {
        let (head, _) = id.split_at(8);
        let mut localized = String::from_str("LIVEWALL_");
        localized.append(id);
        let mut shot = String::from_str("LW_");
        shot.append(head);
        assert(head@ == short_id(id@)) by {
            assert(head.spec_bytes() == encode_utf8(head@));
        }
        ManifestEntry {
            accessibility_label: String::from_str(name),
            categories: Vec::new(),
            id: String::from_str(id),
            include_in_shuffle: true,
            localized_name_key: localized,
            points_of_interest: String::from_str("{}"),
            preferred_order: 99999,
            preview_image: String::from_str(thumbnail),
            shot_id: shot,
            show_in_top_level: true,
            subcategories: Vec::new(),
            url: String::from_str(video_url),
            source: Some(String::from_str("livewall")),
        }
    }

    /// The first entry that this tool added with the id `id`, if any.
    pub fn find_livewall_entry(&self, id: &str) -> (r: Option<usize>)
        ensures
            r == (match first_livewall_with_id(self.entries@, id@, 0) {
                Some(i) => Some(i as usize),
                None => None::<usize>,
            }),
    {
        let mut i: usize = 0;
        while i < self.entries.len()
            invariant
                i <= self.entries.len(),
                first_livewall_with_id(self.entries@, id@, 0) == first_livewall_with_id(
                    self.entries@,
                    id@,
                    i as int,
                ),
            decreases self.entries.len() - i,
        {
            let e = &self.entries[i];
            if str_eq(e.id.as_str(), id) && is_livewall_entry(e) {
                return Some(i);
            }
            i += 1;
        }
        None
    }
}

/// Whether the entry is one this tool added.
pub fn is_livewall_entry(e: &ManifestEntry) -> (r: bool)
    ensures
        r == is_livewall(*e),
{
    match &e.source {
        Some(s) => str_eq(s.as_str(), "livewall"),
        None => false,
    }
}

/// Removing by the id of an entry that was just added, where no other entry
/// had that id, gives back the manifest as it was.
pub proof fn law_remove_undoes_add(entries: Seq<ManifestEntry>, added: ManifestEntry)
    requires
        !has_id(entries, added.id@),
    ensures
        entries.push(added).filter(keeps(added.id@)) == entries,
{
    lemma_filter_keeps_all(entries, added.id@);
    reveal(Seq::filter);
    assert(entries.push(added).drop_last() =~= entries);
}

/// Filtering out an id that no entry has changes nothing.
pub proof fn lemma_filter_keeps_all(entries: Seq<ManifestEntry>, id: Seq<char>)
    requires
        !has_id(entries, id),
    ensures
        entries.filter(keeps(id)) == entries,
    decreases entries.len(),
{
    reveal(Seq::filter);
    if entries.len() > 0 {
        let rest = entries.drop_last();
        assert forall|i: int| 0 <= i < rest.len() implies #[trigger] rest[i].id@ != id by {
            assert(rest[i] == entries[i]);
        }
        lemma_filter_keeps_all(rest, id);
        assert(entries.last() == entries[entries.len() - 1]);
        assert(entries.filter(keeps(id)) =~= rest.push(entries.last()));
        assert(rest.push(entries.last()) =~= entries);
    }
}

/// After removing an id, no entry has it, and every entry with another id
/// is still there.
pub proof fn law_remove_is_complete(entries: Seq<ManifestEntry>, id: Seq<char>)
    ensures
        !has_id(entries.filter(keeps(id)), id),
        forall|e: ManifestEntry| entries.contains(e) && e.id@ != id ==> #[trigger] entries.filter(
            keeps(id),
        ).contains(e),
{
    broadcast use vstd::seq_lib::group_filter_ensures;

    assert forall|e: ManifestEntry| entries.contains(e) && e.id@ != id implies #[trigger] entries.filter(
        keeps(id),
    ).contains(e) by {
        let i = choose|i: int| 0 <= i < entries.len() && entries[i] == e;
        entries.lemma_filter_contains(keeps(id), i);
    }
    if has_id(entries.filter(keeps(id)), id) {
        let i = choose|i: int|
            0 <= i < entries.filter(keeps(id)).len() && #[trigger] entries.filter(keeps(id))[i].id@
                == id;
        assert(keeps(id)(entries.filter(keeps(id))[i]));
    }
}

/// An entry this tool creates and adds is listed among the tool's entries,
/// after the ones that were there.
pub proof fn law_added_entry_is_listed(entries: Seq<ManifestEntry>, added: ManifestEntry)
    requires
        is_livewall(added),
    ensures
        livewall_entries(entries.push(added)) == livewall_entries(entries).push(added),
{
    reveal(Seq::filter);
    assert(entries.push(added).drop_last() =~= entries);
}

/// The extension of the backup made at `stamp`.
pub open spec fn backup_extension(stamp: u64) -> Seq<char> {
    decimal_digits(stamp as nat) + ".bak"@
}

/// Saves made at different times keep their backups under different names,
/// so no backup replaces another.
pub proof fn law_backups_are_distinct(path: Seq<char>, first: u64, second: u64)
    requires
        file_name(path) is Some,
        first != second,
    ensures
        with_extension(path, backup_extension(first)) != with_extension(
            path,
            backup_extension(second),
        ),
{
    reveal_strlit(".bak");
    let t = stem_end(path)->0;
    let a = with_extension(path, backup_extension(first));
    let b = with_extension(path, backup_extension(second));
    crate::text::lemma_decimal_digits_len(first as nat);
    crate::text::lemma_decimal_digits_len(second as nat);
    if a == b {
        assert(stem_end(path) is Some);
        let ea = backup_extension(first);
        let eb = backup_extension(second);
        assert(a == path.take(t) + (seq!['.'] + ea));
        assert(b == path.take(t) + (seq!['.'] + eb));
        assert(path.take(t).len() == t) by {
            lemma_stem_end_bounds(path);
        }
        assert(ea =~= a.subrange(t + 1, a.len() as int));
        assert(eb =~= b.subrange(t + 1, b.len() as int));
        assert(decimal_digits(first as nat) =~= ea.subrange(0, ea.len() - 4));
        assert(decimal_digits(second as nat) =~= eb.subrange(0, eb.len() - 4));
        lemma_decimal_digits_injective(first as nat, second as nat);
    }
}

/// Where the stem ends lies within the path.
pub proof fn lemma_stem_end_bounds(path: Seq<char>)
    requires
        stem_end(path) is Some,
    ensures
        0 <= stem_end(path)->0 <= path.len(),
{
    crate::paths::lemma_file_name_bounds(path);
    let (s, e) = crate::paths::file_name_bounds(path)->0;
    lemma_last_index(path.subrange(s, e), '.');
}

} // verus!
