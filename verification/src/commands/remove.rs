//! The `remove` verb: taking one of this tool's wallpapers out of the manifest.
use vstd::prelude::*;

use crate::manifest::{first_livewall_with_id, has_id, keeps, Manifest, ManifestEntry};
use crate::path_resolver::ResolvedPaths;
use crate::paths::{join_path, joined};

verus! {

/// What `remove` did to the manifest.
#[derive(Debug, Clone, PartialEq, Eq)]
pub enum RemoveOutcome {
    /// No entry added by this tool has the id; the manifest is unchanged.
    NotFound,
    /// The entries with the id were removed; the name of the wallpaper, and
    /// the video and thumbnail files that belong to it.
    Removed { label: String, video_path: String, thumbnail_path: String },
}

/// `<id><suffix>` joined onto `dir`.
pub open spec fn asset_path(dir: Seq<char>, id: Seq<char>, suffix: Seq<char>) -> Seq<char> {
    joined(dir, id + suffix)
}

/// `<id><suffix>` joined onto `dir`.
pub fn asset_file(dir: &str, id: &str, suffix: &str) -> (r: String)
    ensures
        r@ == asset_path(dir@, id@, suffix@),
{
    let mut name = String::from_str(id);
    name.append(suffix);
    join_path(dir, name.as_str())
}

/// Removes the wallpaper `id` when this tool added it: every entry with that
/// id leaves the manifest, and the files of the wallpaper are named for
/// deletion. Otherwise nothing changes.
pub fn execute_remove(manifest: &mut Manifest, resolved: &ResolvedPaths, id: &str) -> (r:
    RemoveOutcome)
    ensures
        match first_livewall_with_id(old(manifest).entries@, id@, 0) {
            None => r == RemoveOutcome::NotFound && final(manifest).entries@ == old(
                manifest,
            ).entries@,
            Some(k) => r matches RemoveOutcome::Removed { label, video_path, thumbnail_path }
                && label@ == old(manifest).entries@[k].accessibility_label@ && video_path@
                == asset_path(resolved.videos_dir@, id@, ".mov"@) && thumbnail_path@ == asset_path(
                resolved.thumbnails_dir@,
                id@,
                ".png"@,
            ) && final(manifest).entries@ == old(manifest).entries@.filter(keeps(id@)),
        },
{
    match manifest.find_livewall_entry(id) {
        None => RemoveOutcome::NotFound,
        Some(k) => {
            proof {
                assert(first_livewall_with_id(manifest.entries@, id@, 0) is Some);
                lemma_found_entry(manifest.entries@, id@, 0);
                let i = first_livewall_with_id(manifest.entries@, id@, 0)->0;
                assert(0 <= i < manifest.entries.len());
                assert(k == i as usize);
            }
            let label = manifest.entries[k].accessibility_label.clone();
            manifest.remove_entry(id);
            RemoveOutcome::Removed {
                label,
                video_path: asset_file(resolved.videos_dir.as_str(), id, ".mov"),
                thumbnail_path: asset_file(resolved.thumbnails_dir.as_str(), id, ".png"),
            }
        },
    }
}

/// The entry that `remove` finds is one of this tool's entries with that id.
pub proof fn lemma_found_entry(entries: Seq<ManifestEntry>, id: Seq<char>, i: int)
    requires
        0 <= i,
        first_livewall_with_id(entries, id, i) is Some,
    ensures
        ({
            let k = first_livewall_with_id(entries, id, i)->0;
            i <= k < entries.len() && entries[k].id@ == id && crate::manifest::is_livewall(
                entries[k],
            )
        }),
    decreases entries.len() - i,
{
    if i < entries.len() && !(entries[i].id@ == id && crate::manifest::is_livewall(entries[i])) {
        lemma_found_entry(entries, id, i + 1);
    }
}

/// After `remove` has removed a wallpaper, no entry with its id is left.
pub proof fn law_removed_wallpaper_is_gone(entries: Seq<ManifestEntry>, id: Seq<char>)
    requires
        first_livewall_with_id(entries, id, 0) is Some,
    ensures
        has_id(entries, id),
        !has_id(entries.filter(keeps(id)), id),
        entries.filter(keeps(id)).len() < entries.len(),
{
    lemma_found_entry(entries, id, 0);
    let k = first_livewall_with_id(entries, id, 0)->0;
    assert(entries[k].id@ == id);
    crate::manifest::law_remove_is_complete(entries, id);
    lemma_filter_shrinks(entries, id, k);
}

/// Filtering out an id that some entry has leaves fewer entries.
pub proof fn lemma_filter_shrinks(entries: Seq<ManifestEntry>, id: Seq<char>, k: int)
    requires
        0 <= k < entries.len(),
        entries[k].id@ == id,
    ensures
        entries.filter(keeps(id)).len() < entries.len(),
    decreases entries.len(),
{
    reveal(Seq::filter);
    let rest = entries.drop_last();
    rest.lemma_filter_len(keeps(id));
    if k < entries.len() - 1 {
        assert(rest[k] == entries[k]);
        lemma_filter_shrinks(rest, id, k);
    }
}

} // verus!
