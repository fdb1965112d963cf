//! The `list` verb: the table of wallpapers this tool added.
use vstd::prelude::*;

use crate::manifest::{is_livewall, is_livewall_entry, livewall_entries, Manifest, ManifestEntry};
use crate::text::{dash_line, pad_right, padded, repeated};

verus! {

/// One row of the table: id, name and thumbnail file in columns of 40, 30
/// and 20 characters, as `{:<40} {:<30} {:<20}` lays them out.
pub open spec fn table_row(id: Seq<char>, name: Seq<char>, file: Seq<char>) -> Seq<char> {
    padded(id, 40) + " "@ + padded(name, 30) + " "@ + padded(file, 20)
}

/// The row of an entry.
pub open spec fn entry_row(e: ManifestEntry) -> Seq<char> {
    table_row(e.id@, e.accessibility_label@, e.preview_image@)
}

/// The lines that `list` prints for a manifest: a notice when this tool has
/// added nothing, else a header, a rule of 90 dashes and one row per entry
/// added by this tool, in manifest order.
pub open spec fn list_lines(entries: Seq<ManifestEntry>) -> Seq<Seq<char>> {
    let own = livewall_entries(entries);
    if own.len() == 0 {
        seq!["No custom live wallpapers found."@]
    } else {
        seq![table_row("ID"@, "Name"@, "File"@), repeated('-', 90)] + own.map_values(
            |e: ManifestEntry| entry_row(e),
        )
    }
}

fn row_of(id: &str, name: &str, file: &str) -> (r: String)
    ensures
        r@ == table_row(id@, name@, file@),
{
    let mut r = pad_right(id, 40);
    r.append(" ");
    let b = pad_right(name, 30);
    r.append(b.as_str());
    r.append(" ");
    let c = pad_right(file, 20);
    r.append(c.as_str());
    r
}

/// The lines to print for `list`.
pub fn execute_list(manifest: &Manifest) -> (lines: Vec<String>)
    ensures
        lines@.len() == list_lines(manifest.entries@).len(),
        forall|i: int| 0 <= i < lines@.len() ==> #[trigger] lines@[i]@ == list_lines(
            manifest.entries@,
        )[i],
{
    let ghost entries = manifest.entries@;
    let mut rows: Vec<String> = Vec::new();
    let mut i: usize = 0;
    proof {
        reveal(Seq::filter);
        assert(entries.take(0) =~= Seq::<ManifestEntry>::empty());
    }
    while i < manifest.entries.len()
        invariant
            entries == manifest.entries@,
            i <= entries.len(),
            rows@.len() == livewall_entries(entries.take(i as int)).len(),
            forall|k: int|
                0 <= k < rows@.len() ==> #[trigger] rows@[k]@ == entry_row(
                    livewall_entries(entries.take(i as int))[k],
                ),
        decreases entries.len() - i,
    {
        let e = &manifest.entries[i];
        let ghost before = livewall_entries(entries.take(i as int));
        proof {
            reveal(Seq::filter);
            assert(entries.take(i + 1).drop_last() =~= entries.take(i as int));
            assert(entries.take(i + 1).last() == entries[i as int]);
        }
        if is_livewall_entry(e) {
            let row = row_of(e.id.as_str(), e.accessibility_label.as_str(), e.preview_image.as_str());
            rows.push(row);
            assert(livewall_entries(entries.take(i + 1)) == before.push(entries[i as int]));
        } else {
            assert(livewall_entries(entries.take(i + 1)) == before);
        }
        i += 1;
    }
    assert(entries.take(i as int) =~= entries);
    let mut lines: Vec<String> = Vec::new();
    if rows.len() == 0 {
        lines.push(String::from_str("No custom live wallpapers found."));
        assert(lines@[0]@ == list_lines(entries)[0]);
    } else {
        lines.push(row_of("ID", "Name", "File"));
        lines.push(dash_line(90));
        let ghost head = lines@;
        let ghost body = rows@;
        lines.append(&mut rows);
        assert forall|k: int| 0 <= k < lines@.len() implies #[trigger] lines@[k]@ == list_lines(
            entries,
        )[k] by {
            if k >= 2 {
                assert(lines@[k] == body[k - 2]) by {
                    assert(lines@ == head + body);
                }
            }
        }
    }
    lines
}

/// The table lists exactly the entries this tool added: adding one of its
/// entries to a manifest adds one row for it at the end.
pub proof fn law_list_shows_added_entry(entries: Seq<ManifestEntry>, added: ManifestEntry)
    requires
        is_livewall(added),
    ensures
        list_lines(entries.push(added)).last() == entry_row(added),
        list_lines(entries.push(added)).len() == if livewall_entries(entries).len() == 0 {
            3
        } else {
            list_lines(entries).len() + 1
        },
{
    crate::manifest::law_added_entry_is_listed(entries, added);
}

/// The table lists the entries marked as added by this tool, and only
/// those: every listed entry has the source `livewall`, every entry with that
/// source is listed, and a manifest without one (such as Apple's own entries,
/// which have no source) gives only the notice.
pub proof fn law_list_only_own_entries(entries: Seq<ManifestEntry>)
    ensures
        forall|i: int|
            0 <= i < livewall_entries(entries).len() ==> ((#[trigger] livewall_entries(
                entries,
            )[i]).source matches Some(s) && s@ == "livewall"@),
        forall|i: int|
            0 <= i < entries.len() && (entries[i].source matches Some(s) && s@ == "livewall"@)
                ==> #[trigger] livewall_entries(entries).contains(entries[i]),
        (forall|i: int|
            0 <= i < entries.len() ==> !(#[trigger] entries[i].source matches Some(s) && s@
                == "livewall"@)) ==> list_lines(entries) == seq![
            "No custom live wallpapers found."@,
        ],
        forall|i: int|
            0 <= i < list_lines(entries).len() - 2 && livewall_entries(entries).len() > 0
                ==> #[trigger] list_lines(entries)[i + 2] == entry_row(livewall_entries(entries)[i]),
    decreases entries.len(),
{
    let pred = |e: ManifestEntry| is_livewall(e);
    assert forall|i: int| 0 <= i < livewall_entries(entries).len() implies ((
    #[trigger] livewall_entries(entries)[i]).source matches Some(s) && s@ == "livewall"@) by {
        entries.lemma_filter_pred(pred, i);
    }
    assert forall|i: int|
        0 <= i < entries.len() && (entries[i].source matches Some(s) && s@ == "livewall"@)
            implies #[trigger] livewall_entries(entries).contains(entries[i]) by {
        entries.lemma_filter_contains(pred, i);
    }
    if forall|i: int|
        0 <= i < entries.len() ==> !(#[trigger] entries[i].source matches Some(s) && s@
            == "livewall"@) {
        if entries.len() > 0 {
            let rest = entries.drop_last();
            law_list_only_own_entries(rest);
            assert forall|i: int| 0 <= i < rest.len() implies !(#[trigger] rest[i].source matches Some(
                s,
            ) && s@ == "livewall"@) by {
                assert(rest[i] == entries[i]);
            }
            reveal(Seq::filter);
            assert(!is_livewall(entries[entries.len() - 1]));
            assert(livewall_entries(entries) == livewall_entries(rest));
        } else {
            reveal(Seq::filter);
            assert(livewall_entries(entries).len() == 0);
        }
    }
}

} // verus!
