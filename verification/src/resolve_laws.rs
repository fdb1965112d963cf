//! What holds of every store that resolving can give: the version gate, the
//! layout of the store, its processes, and when it asks for elevation.
use vstd::prelude::*;

use crate::path_resolver::{
    agent_for, all_stores, container_store, container_stores, first_present, flat_container_store, first_store, found_store,
    legacy_user_store, library_prefix, lsof_stores, major_version, manifest_rel_for,
    paths_from, priority_stores, renderer_for, resolve_outcome, search_stores, store_at,
    system_store, tahoe_user_store, texts, under_library, version_for, is_refused, CandidateModel,
    Discovery, PathsModel, ResolveErrorModel, VersionModel,
};
use crate::paths::{file_name, file_name_bounds, joined, last_index, lemma_file_name_bounds, lemma_last_index, parent_dir, strip_trailing_seps};
use crate::text::trimmed;

verus! {

/// A single path component: not empty, without `/`, and neither `.` nor `..`.
pub open spec fn normal_component(n: Seq<char>) -> bool {
    &&& n.len() > 0
    &&& forall|k: int| 0 <= k < n.len() ==> n[k] != '/'
    &&& n != seq!['.']
    &&& n != seq!['.', '.']
}

/// Videos, thumbnails and manifest of a store as release `v` lays them out:
/// either the videos and thumbnails folders side by side below one
/// directory, with the manifest below it where `v` keeps it; or one folder
/// that holds the videos, the thumbnails and `entries.json` itself.
pub open spec fn laid_out_paths(
    videos: Seq<char>,
    thumbnails: Seq<char>,
    manifest: Seq<char>,
    v: VersionModel,
) -> bool {
    ||| exists|base: Seq<char>, videos_rel: Seq<char>|
        #![trigger joined(base, videos_rel)]
        normal_component(videos_rel) && videos == joined(base, videos_rel) && thumbnails == joined(
            base,
            "thumbnails"@,
        ) && manifest == joined(base, manifest_rel_for(v))
    ||| thumbnails == videos && manifest == joined(videos, "entries.json"@)
}

/// The store is laid out for release `v` and served by its processes.
pub open spec fn laid_out(c: CandidateModel, v: VersionModel) -> bool {
    &&& c.renderer_process == renderer_for(v)
    &&& c.agent_process == agent_for(v)
    &&& laid_out_paths(c.videos_dir, c.thumbnails_dir, c.manifest_path, v)
}

/// `base` as the directory part of a path joined onto it.
pub open spec fn dir_part(base: Seq<char>) -> Seq<char> {
    if base.len() == 0 || base.last() == '/' {
        base
    } else {
        base + seq!['/']
    }
}

/// Text appended without `c` leaves the last `c` where it was.
proof fn lemma_last_index_append(a: Seq<char>, n: Seq<char>, c: char)
    requires
        forall|k: int| 0 <= k < n.len() ==> n[k] != c,
    ensures
        last_index(a + n, c) == last_index(a, c),
    decreases n.len(),
{
    if n.len() > 0 {
        assert((a + n).last() == n.last());
        assert((a + n).drop_last() =~= a + n.drop_last());
        lemma_last_index_append(a, n.drop_last(), c);
    } else {
        assert(a + n =~= a);
    }
}

/// Joining a single component onto `base` gives a path whose parent depends
/// on `base` alone.
pub proof fn lemma_parent_of_joined(base: Seq<char>, n: Seq<char>)
    requires
        normal_component(n),
    ensures
        parent_dir(joined(base, n)) == Some(strip_trailing_seps(dir_part(base))),
{
    let a = dir_part(base);
    let q = joined(base, n);
    assert(q =~= a + n);
    lemma_last_index_append(a, n, '/');
    let j = last_index(q, '/');
    if a.len() > 0 {
        assert(a.last() == '/');
        assert(last_index(a, '/') == a.len() - 1);
    } else {
        assert(last_index(a, '/') == -1);
    }
    assert(j == a.len() - 1);
    assert(q.subrange(j + 1, q.len() as int) =~= n);
    assert(file_name_bounds(q) == Some((j + 1, q.len() as int)));
    assert(q.take(j + 1) =~= a);
}

/// A file name is a single component.
pub proof fn lemma_file_name_normal(p: Seq<char>)
    ensures
        file_name(p) matches Some(n) ==> normal_component(n),
    decreases p.len(),
{
    lemma_last_index(p, '/');
    lemma_file_name_bounds(p);
    let j = last_index(p, '/');
    let seg = p.subrange(j + 1, p.len() as int);
    if seg.len() == 0 || seg == seq!['.'] {
        if j >= 0 {
            let t = p.take(j);
            lemma_file_name_normal(t);
            lemma_file_name_bounds(t);
            if let Some((s, e)) = file_name_bounds(t) {
                assert(p.subrange(s, e) =~= t.subrange(s, e));
            }
        }
    } else if seg != seq!['.', '.'] {
        assert forall|k: int| 0 <= k < seg.len() implies seg[k] != '/' by {
            assert(seg[k] == p[j + 1 + k]);
        }
    }
}

/// Paths laid out for a release have their videos and thumbnails in the
/// same parent directory.
pub proof fn lemma_laid_out_shares_parent(
    videos: Seq<char>,
    thumbnails: Seq<char>,
    manifest: Seq<char>,
    v: VersionModel,
)
    requires
        laid_out_paths(videos, thumbnails, manifest, v),
    ensures
        parent_dir(videos) == parent_dir(thumbnails),
{
    if thumbnails != videos || manifest != joined(videos, "entries.json"@) {
        let (base, videos_rel) = choose|base: Seq<char>, videos_rel: Seq<char>|
            #![trigger joined(base, videos_rel)]
            normal_component(videos_rel) && videos == joined(base, videos_rel) && thumbnails
                == joined(base, "thumbnails"@) && manifest == joined(base, manifest_rel_for(v));
        lemma_parent_of_joined(base, videos_rel);
        lemma_thumbnails_normal();
        lemma_parent_of_joined(base, "thumbnails"@);
    }
}

proof fn lemma_thumbnails_normal()
    ensures
        normal_component("thumbnails"@),
        normal_component("videos"@),
        normal_component("4KSDR240FPS"@),
{
    reveal_strlit("thumbnails");
    reveal_strlit("videos");
    reveal_strlit("4KSDR240FPS");
    assert("thumbnails"@ != seq!['.']) by {
        assert("thumbnails"@.len() != 1);
    }
    assert("thumbnails"@ != seq!['.', '.']) by {
        assert("thumbnails"@.len() != 2);
    }
    assert("videos"@ != seq!['.']) by {
        assert("videos"@.len() != 1);
    }
    assert("videos"@ != seq!['.', '.']) by {
        assert("videos"@.len() != 2);
    }
    assert("4KSDR240FPS"@ != seq!['.']) by {
        assert("4KSDR240FPS"@.len() != 1);
    }
    assert("4KSDR240FPS"@ != seq!['.', '.']) by {
        assert("4KSDR240FPS"@.len() != 2);
    }
}

/// The store asks for elevation exactly when its manifest lies below `/Library`.
pub open spec fn elevation_matches(c: CandidateModel) -> bool {
    c.requires_elevation == under_library(c.manifest_path)
}

/// A home directory that is neither the root nor below `/Library`.
pub open spec fn ordinary_home(home: Option<Seq<char>>) -> bool {
    home matches Some(h) ==> h != seq!['/'] && !under_library(h)
}

/// Paths that are all relative (none starts with `/`).
pub open spec fn all_relative(rels: Seq<Seq<char>>) -> bool {
    forall|k: int| 0 <= k < rels.len() ==> !(rels[k].len() > 0 && rels[k][0] == '/')
}

/// The first set flag is in range and set; when there is none, no flag in
/// the range is set.
pub proof fn lemma_first_present(present: Seq<bool>, i: int, n: int)
    requires
        0 <= i,
    ensures
        first_present(present, i, n) matches Some(j) ==> i <= j < n && j < present.len()
            && present[j],
        first_present(present, i, n) is None ==> forall|j: int|
            i <= j < n && j < present.len() ==> !present[j],
    decreases n - i,
{
    if i < n && i < present.len() && !present[i] {
        lemma_first_present(present, i + 1, n);
    }
}

proof fn lemma_store_at_laid_out(
    base: Seq<char>,
    videos_rel: Seq<char>,
    v: VersionModel,
    elevated: bool,
)
    requires
        normal_component(videos_rel),
    ensures
        laid_out(store_at(base, videos_rel, manifest_rel_for(v), v, elevated), v),
{
    let c = store_at(base, videos_rel, manifest_rel_for(v), v, elevated);
    assert(c.videos_dir == joined(base, videos_rel) && c.thumbnails_dir == joined(
        base,
        "thumbnails"@,
    ) && c.manifest_path == joined(base, manifest_rel_for(v)));
}

/// Joining a relative path onto a long path that is not below `/Library`
/// stays out of it.
proof fn lemma_long_join(base: Seq<char>, rel: Seq<char>)
    requires
        base.len() >= 9,
        !under_library(base),
        !(rel.len() > 0 && rel[0] == '/'),
    ensures
        joined(base, rel).len() >= 9,
        !under_library(joined(base, rel)),
{
    let r = joined(base, rel);
    assert(r.take(9) =~= base.take(9));
}

/// Joining a long relative path that starts with a letter onto a home that
/// is neither the root nor below `/Library` stays out of `/Library`.
proof fn lemma_home_join(home: Seq<char>, rel: Seq<char>)
    requires
        home != seq!['/'],
        !under_library(home),
        rel.len() >= 9,
        rel[0] != '/',
    ensures
        joined(home, rel).len() >= 9,
        !under_library(joined(home, rel)),
{
    let r = joined(home, rel);
    let p = library_prefix();
    if home.len() >= 9 {
        lemma_long_join(home, rel);
    } else if home.len() == 0 {
        assert(r == rel);
        assert(r.take(9)[0] != p[0]);
    } else if home.last() == '/' {
        assert(r =~= home + rel);
        if r.take(9) == p {
            let k = home.len() - 1;
            assert(r.take(9)[k] == home[k]);
            assert(k == 0);
            assert(home =~= seq!['/']);
        }
    } else {
        assert(r =~= home + seq!['/'] + rel);
        if r.take(9) == p {
            let k = home.len() as int;
            assert(r.take(9)[k] == '/');
            assert(k == 8);
            assert forall|m: int| 0 <= m < 8 implies home[m] == p.take(8)[m] by {
                assert(r.take(9)[m] == home[m]);
            }
            assert(home =~= p.take(8));
        }
    }
}

proof fn lemma_found_store(v: VersionModel, dir: Seq<char>)
    ensures
        found_store(v, dir) matches Some(c) ==> laid_out(c, v) && elevation_matches(c),
{
    if let Some(c) = found_store(v, dir) {
        let base = crate::paths::parent_dir(dir)->Some_0;
        let name = crate::paths::file_name(dir)->Some_0;
        lemma_file_name_normal(dir);
        lemma_store_at_laid_out(
            base,
            name,
            v,
            under_library(joined(base, manifest_rel_for(v))),
        );
    }
}

proof fn lemma_lsof_stores(v: VersionModel, lines: Seq<Seq<char>>)
    ensures
        forall|k: int|
            0 <= k < lsof_stores(v, lines).len() ==> laid_out(lsof_stores(v, lines)[k], v)
                && elevation_matches(lsof_stores(v, lines)[k]),
{
    if let Some(f) = crate::path_resolver::first_movie(lines, 0) {
        if let Some(d) = crate::paths::parent_dir(f) {
            lemma_found_store(v, d);
        }
    }
}

proof fn lemma_search_stores(v: VersionModel, dirs: Seq<Seq<char>>)
    ensures
        forall|k: int|
            0 <= k < search_stores(v, dirs).len() ==> laid_out(search_stores(v, dirs)[k], v)
                && elevation_matches(search_stores(v, dirs)[k]),
    decreases dirs.len(),
{
    if dirs.len() > 0 {
        let rest = search_stores(v, dirs.drop_last());
        lemma_search_stores(v, dirs.drop_last());
        lemma_found_store(v, dirs.last());
        if let Some(c) = found_store(v, dirs.last()) {
            assert(search_stores(v, dirs) == rest.push(c));
            assert forall|k: int| 0 <= k < rest.len() + 1 implies laid_out(rest.push(c)[k], v)
                && elevation_matches(rest.push(c)[k]) by {
                if k < rest.len() {
                    assert(rest.push(c)[k] == rest[k]);
                }
            }
        }
    }
}

proof fn lemma_container_stores(h: Seq<char>, rels: Seq<Seq<char>>)
    ensures
        forall|k: int|
            0 <= k < container_stores(h, rels).len() ==> laid_out(
                container_stores(h, rels)[k],
                VersionModel::Tahoe,
            ),
        ordinary_home(Some(h)) && all_relative(rels) ==> forall|k: int|
            0 <= k < container_stores(h, rels).len() ==> elevation_matches(
                container_stores(h, rels)[k],
            ),
    decreases rels.len(),
{
    if rels.len() > 0 {
        let t = VersionModel::Tahoe;
        let front = rels.drop_last();
        let rel = rels.last();
        let rest = container_stores(h, front);
        let nested = container_store(h, rel);
        let flat = flat_container_store(h, rel);
        let s = container_stores(h, rels);
        let agent_rel = "Library/Containers/com.apple.wallpaper.agent"@;
        lemma_container_stores(h, front);
        lemma_thumbnails_normal();
        lemma_store_at_laid_out(joined(joined(h, agent_rel), rel), "videos"@, t, false);
        assert(laid_out(flat, t));
        assert(s == rest + seq![nested, flat]);
        assert forall|k: int| 0 <= k < s.len() implies laid_out(s[k], t) by {
            if k < rest.len() {
                assert(s[k] == rest[k]);
            } else if k == rest.len() {
                assert(s[k] == nested);
            } else {
                assert(s[k] == flat);
            }
        }
        if ordinary_home(Some(h)) && all_relative(rels) {
            assert(all_relative(front)) by {
                assert forall|k: int| 0 <= k < front.len() implies !(front[k].len() > 0
                    && front[k][0] == '/') by {
                    assert(front[k] == rels[k]);
                }
            }
            assert(!(rel.len() > 0 && rel[0] == '/')) by {
                assert(rel == rels[rels.len() - 1]);
            }
            reveal_strlit("Library/Containers/com.apple.wallpaper.agent");
            reveal_strlit("manifest/entries.json");
            reveal_strlit("entries.json");
            lemma_home_join(h, agent_rel);
            lemma_long_join(joined(h, agent_rel), rel);
            let base = joined(joined(h, agent_rel), rel);
            lemma_long_join(base, "manifest/entries.json"@);
            lemma_long_join(base, "entries.json"@);
            assert forall|k: int| 0 <= k < s.len() implies elevation_matches(s[k]) by {
                if k < rest.len() {
                    assert(s[k] == rest[k]);
                } else if k == rest.len() {
                    assert(s[k] == nested);
                } else {
                    assert(s[k] == flat);
                }
            }
        }
    }
}

proof fn lemma_priority_stores(v: VersionModel, home: Option<Seq<char>>, rels: Seq<Seq<char>>)
    ensures
        forall|k: int|
            0 <= k < priority_stores(v, home, rels).len() ==> laid_out(
                priority_stores(v, home, rels)[k],
                v,
            ),
        ordinary_home(home) && all_relative(rels) ==> forall|k: int|
            0 <= k < priority_stores(v, home, rels).len() ==> elevation_matches(
                priority_stores(v, home, rels)[k],
            ),
{
    let s = priority_stores(v, home, rels);
    let user_rel = "Library/Application Support/com.apple.wallpaper/aerials"@;
    let legacy_rel = "Library/Application Support/com.apple.idleassetsd/Customer"@;
    let system_base = "/Library/Application Support/com.apple.idleassetsd/Customer"@;
    reveal_strlit("Library/Application Support/com.apple.wallpaper/aerials");
    reveal_strlit("Library/Application Support/com.apple.idleassetsd/Customer");
    reveal_strlit("/Library/Application Support/com.apple.idleassetsd/Customer");
    reveal_strlit("manifest/entries.json");
    reveal_strlit("entries.json");
    lemma_thumbnails_normal();
    if let Some(h) = home {
        match v {
            VersionModel::Tahoe => {
                let cs = container_stores(h, rels);
                lemma_container_stores(h, rels);
                lemma_store_at_laid_out(joined(h, user_rel), "videos"@, v, false);
                assert forall|k: int| 0 <= k < s.len() implies laid_out(s[k], v) by {
                    if k > 0 {
                        assert(s[k] == cs[k - 1]);
                    }
                }
                if ordinary_home(home) && all_relative(rels) {
                    lemma_home_join(h, user_rel);
                    lemma_long_join(joined(h, user_rel), "manifest/entries.json"@);
                    assert forall|k: int| 0 <= k < s.len() implies elevation_matches(s[k]) by {
                        if k > 0 {
                            assert(s[k] == cs[k - 1]);
                        }
                    }
                }
            },
            VersionModel::Sonoma | VersionModel::Sequoia => {
                lemma_store_at_laid_out(system_base, "4KSDR240FPS"@, v, true);
                lemma_store_at_laid_out(joined(h, legacy_rel), "4KSDR240FPS"@, v, false);
                if ordinary_home(home) {
                    let m = joined(system_base, "entries.json"@);
                    assert(m =~= system_base + seq!['/'] + "entries.json"@);
                    assert(m.take(9) =~= library_prefix());
                    lemma_home_join(h, legacy_rel);
                    lemma_long_join(joined(h, legacy_rel), "entries.json"@);
                }
            },
            VersionModel::Unsupported(_) => {},
        }
    }
}

/// Every store that resolving may probe is laid out for the release, and,
/// for an ordinary home and relative container folders, asks for elevation
/// exactly when its manifest lies below `/Library`.
proof fn lemma_all_stores(v: VersionModel, home: Option<Seq<char>>, d: Discovery)
    ensures
        forall|k: int|
            0 <= k < all_stores(v, home, d).len() ==> laid_out(all_stores(v, home, d)[k], v),
        ordinary_home(home) && all_relative(texts(d.agent_containers@)) ==> forall|k: int|
            0 <= k < all_stores(v, home, d).len() ==> elevation_matches(all_stores(v, home, d)[k]),
{
    let a = lsof_stores(v, texts(d.open_files@));
    let b = priority_stores(v, home, texts(d.agent_containers@));
    let c = search_stores(v, texts(d.movie_dirs@));
    lemma_lsof_stores(v, texts(d.open_files@));
    lemma_priority_stores(v, home, texts(d.agent_containers@));
    lemma_search_stores(v, texts(d.movie_dirs@));
    assert forall|k: int| 0 <= k < all_stores(v, home, d).len() implies laid_out(
        all_stores(v, home, d)[k],
        v,
    ) by {
        if k < a.len() {
            assert(all_stores(v, home, d)[k] == a[k]);
        } else if k < a.len() + b.len() {
            assert(all_stores(v, home, d)[k] == b[k - a.len()]);
        } else {
            assert(all_stores(v, home, d)[k] == c[k - a.len() - b.len()]);
        }
    }
    if ordinary_home(home) && all_relative(texts(d.agent_containers@)) {
        assert forall|k: int| 0 <= k < all_stores(v, home, d).len() implies elevation_matches(
            all_stores(v, home, d)[k],
        ) by {
            if k < a.len() {
                assert(all_stores(v, home, d)[k] == a[k]);
            } else if k < a.len() + b.len() {
                assert(all_stores(v, home, d)[k] == b[k - a.len()]);
            } else {
                assert(all_stores(v, home, d)[k] == c[k - a.len() - b.len()]);
            }
        }
    }
}

/// The version gate: a report whose major version is 13 (Ventura) or
/// lower, or that names no number, is refused with its version text, and
/// only such a report is; every later release goes on to discovery.
pub proof fn law_version_gate(
    report: Seq<char>,
    home: Option<Seq<char>>,
    d: Discovery,
    present: Seq<bool>,
)
    ensures
        (resolve_outcome(report, home, d, present) matches Err(
            ResolveErrorModel::Unsupported(_),
        )) <==> major_version(report) <= 13,
        major_version(report) <= 13 ==> resolve_outcome(report, home, d, present) == Err::<
            PathsModel,
            ResolveErrorModel,
        >(ResolveErrorModel::Unsupported(trimmed(report))),
{
}

/// Resolving succeeds when, and only when, the release is not refused and
/// the manifest of some store to probe exists. What it gives is then the first
/// such store, as the report's release names it: served by that release's
/// processes, laid out as that release lays out a store, with its videos and
/// thumbnails in the same parent directory.
pub proof fn law_resolved_store(
    report: Seq<char>,
    home: Option<Seq<char>>,
    d: Discovery,
    present: Seq<bool>,
)
    ensures
        resolve_outcome(report, home, d, present) is Ok <==> major_version(report) > 13 && exists|
            i: int,
        |
            0 <= i < all_stores(version_for(report), home, d).len() && i < present.len()
                && present[i],
        resolve_outcome(report, home, d, present) matches Ok(p) ==> {
            &&& p.macos_version == version_for(report)
            &&& p.renderer_process == renderer_for(p.macos_version)
            &&& p.agent_process == agent_for(p.macos_version)
            &&& exists|i: int|
                0 <= i < all_stores(version_for(report), home, d).len() && i < present.len()
                    && present[i] && p == paths_from(
                    all_stores(version_for(report), home, d)[i],
                    p.macos_version,
                )
            &&& laid_out_paths(p.videos_dir, p.thumbnails_dir, p.manifest_path, p.macos_version)
            &&& parent_dir(p.videos_dir) == parent_dir(p.thumbnails_dir)
        },
{
    let v = version_for(report);
    let s = all_stores(v, home, d);
    lemma_first_present(present, 0, s.len() as int);
    lemma_all_stores(v, home, d);
    if let Some(i) = first_present(present, 0, s.len() as int) {
        assert(laid_out(s[i], v));
        lemma_laid_out_shares_parent(s[i].videos_dir, s[i].thumbnails_dir, s[i].manifest_path, v);
    }
}

/// The resolved paths of a named release (Sonoma, Sequoia or Tahoe), for a
/// home that is neither the root nor below `/Library` and container folders
/// given relative to the agent's container: the release is named in them,
/// the manifest is one that was found to exist, the videos and thumbnails
/// share their parent directory, elevation is asked exactly when the
/// manifest lies below `/Library`, and the processes are Tahoe's
/// (`WallpaperAerialsExtension`, `WallpaperAgent`) on Tahoe and otherwise
/// Sonoma's and Sequoia's (`WallpaperAerialExtension`, `idleassetsd`).
pub proof fn law_resolved_paths(
    report: Seq<char>,
    home: Option<Seq<char>>,
    d: Discovery,
    present: Seq<bool>,
)
    requires
        ordinary_home(home),
        all_relative(texts(d.agent_containers@)),
        major_version(report) <= 13 || !(version_for(report) is Unsupported),
    ensures
        resolve_outcome(report, home, d, present) matches Ok(p) ==> {
            &&& !(p.macos_version is Unsupported)
            &&& exists|i: int|
                0 <= i < all_stores(version_for(report), home, d).len() && i < present.len()
                    && present[i] && all_stores(version_for(report), home, d)[i].manifest_path
                    == p.manifest_path
            &&& parent_dir(p.videos_dir) == parent_dir(p.thumbnails_dir)
            &&& p.requires_elevation == under_library(p.manifest_path)
            &&& if p.macos_version is Tahoe {
                p.renderer_process == "WallpaperAerialsExtension"@ && p.agent_process
                    == "WallpaperAgent"@
            } else {
                p.renderer_process == "WallpaperAerialExtension"@ && p.agent_process
                    == "idleassetsd"@
            }
        },
{
    law_resolved_store(report, home, d, present);
    law_elevation_by_location(report, home, d, present);
}

/// For a home that is neither the root nor below `/Library`, and container
/// folders given relative to the agent's container, the resolved store asks
/// for elevation exactly when its manifest lies below `/Library`.
pub proof fn law_elevation_by_location(
    report: Seq<char>,
    home: Option<Seq<char>>,
    d: Discovery,
    present: Seq<bool>,
)
    requires
        ordinary_home(home),
        all_relative(texts(d.agent_containers@)),
    ensures
        resolve_outcome(report, home, d, present) matches Ok(p) ==> p.requires_elevation
            == under_library(p.manifest_path),
{
    let v = version_for(report);
    let s = all_stores(v, home, d);
    lemma_first_present(present, 0, s.len() as int);
    lemma_all_stores(v, home, d);
    if let Some(i) = first_present(present, 0, s.len() as int) {
        assert(elevation_matches(s[i]));
    }
}

/// The stores are probed strategy by strategy: first the store of the video
/// that the running renderer has open, then the known stores of the release
/// in their order of priority, then the stores of the searched folders.
pub proof fn law_strategies_in_order(v: VersionModel, home: Option<Seq<char>>, d: Discovery)
    ensures
        ({
            let l = lsof_stores(v, texts(d.open_files@));
            let p = priority_stores(v, home, texts(d.agent_containers@));
            let s = search_stores(v, texts(d.movie_dirs@));
            let all = all_stores(v, home, d);
            &&& all.len() == l.len() + p.len() + s.len()
            &&& forall|i: int| 0 <= i < l.len() ==> #[trigger] all[i] == l[i]
            &&& forall|i: int| 0 <= i < p.len() ==> #[trigger] all[l.len() + i] == p[i]
            &&& forall|i: int|
                0 <= i < s.len() ==> #[trigger] all[l.len() + p.len() + i] == s[i]
        }),
{
}

/// When the running renderer has a video open whose folder holds a store,
/// and that store's manifest exists, resolving gives that store, before any
/// known or searched one.
pub proof fn law_renderer_store_wins(
    report: Seq<char>,
    home: Option<Seq<char>>,
    d: Discovery,
    present: Seq<bool>,
    movie: Seq<char>,
    dir: Seq<char>,
)
    requires
        !is_refused(report),
        crate::path_resolver::first_movie(texts(d.open_files@), 0) == Some(movie),
        parent_dir(movie) == Some(dir),
        found_store(version_for(report), dir) is Some,
        present.len() > 0,
        present[0],
    ensures
        resolve_outcome(report, home, d, present) == Ok::<PathsModel, ResolveErrorModel>(
            paths_from(found_store(version_for(report), dir)->Some_0, version_for(report)),
        ),
{
    let v = version_for(report);
    let all = all_stores(v, home, d);
    law_strategies_in_order(v, home, d);
    assert(lsof_stores(v, texts(d.open_files@)) == seq![found_store(v, dir)->Some_0]);
    assert(all[0] == found_store(v, dir)->Some_0);
    assert(first_present(present, 0, all.len() as int) == Some(0int));
}

} // verus!
