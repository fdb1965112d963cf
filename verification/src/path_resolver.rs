//! Finding where the system keeps its aerial wallpapers: the version gate,
//! the storage candidates of each macOS release, and the choice among them.
use vstd::prelude::*;

use crate::paths::{file_name, join_path, joined, parent_dir, split_dir};
use crate::text::{str_eq, before_first, chars_of, first_piece, parse_u32, parse_u32_decimal, trim, trimmed};

verus! {

/// The macOS releases that have the aerial wallpaper system, and any other.
#[derive(Debug, Clone, PartialEq, Eq)]
pub enum MacOSVersion {
    Sonoma,
    Sequoia,
    Tahoe,
    /// Any other release, with the version text that the system reported:
    /// one before Sonoma (refused), or a later one not known by name.
    Unsupported(String),
}

/// A macOS release as a value of the specification.
pub enum VersionModel {
    Sonoma,
    Sequoia,
    Tahoe,
    Unsupported(Seq<char>),
}

impl View for MacOSVersion {
    type V = VersionModel;

    open spec fn view(&self) -> VersionModel {
        match self {
            MacOSVersion::Sonoma => VersionModel::Sonoma,
            MacOSVersion::Sequoia => VersionModel::Sequoia,
            MacOSVersion::Tahoe => VersionModel::Tahoe,
            MacOSVersion::Unsupported(s) => VersionModel::Unsupported(s@),
        }
    }
}

impl MacOSVersion {
    /// An equal copy of this version.
    pub fn duplicate(&self) -> (r: MacOSVersion)
        ensures
            r@ == self@,
    {
        match self {
            MacOSVersion::Sonoma => MacOSVersion::Sonoma,
            MacOSVersion::Sequoia => MacOSVersion::Sequoia,
            MacOSVersion::Tahoe => MacOSVersion::Tahoe,
            MacOSVersion::Unsupported(s) => MacOSVersion::Unsupported(s.clone()),
        }
    }
}

/// The major number of a `sw_vers -productVersion` report: the number
/// before the first dot of the trimmed text, or 0 where that is no number.
pub open spec fn major_version(report: Seq<char>) -> u32 {
    match parse_u32(before_first(trimmed(report), '.')) {
        Some(n) => n,
        None => 0,
    }
}

/// The release that a `sw_vers -productVersion` report names: 14 is Sonoma,
/// 15 Sequoia, 26 Tahoe; any other has no name here and keeps the trimmed text.
pub open spec fn version_for(report: Seq<char>) -> VersionModel {
    let major = major_version(report);
    if major == 14 {
        VersionModel::Sonoma
    } else if major == 15 {
        VersionModel::Sequoia
    } else if major == 26 {
        VersionModel::Tahoe
    } else {
        VersionModel::Unsupported(trimmed(report))
    }
}

/// One place where the wallpaper store may be, with the processes that serve it.
#[derive(Debug, Clone, PartialEq, Eq)]
pub struct StorageCandidate {
    pub videos_dir: String,
    pub manifest_path: String,
    pub thumbnails_dir: String,
    pub renderer_process: String,
    pub agent_process: String,
    pub requires_elevation: bool,
}

/// A storage candidate as a value of the specification.
pub struct CandidateModel {
    pub videos_dir: Seq<char>,
    pub manifest_path: Seq<char>,
    pub thumbnails_dir: Seq<char>,
    pub renderer_process: Seq<char>,
    pub agent_process: Seq<char>,
    pub requires_elevation: bool,
}

impl View for StorageCandidate {
    type V = CandidateModel;

    open spec fn view(&self) -> CandidateModel {
        CandidateModel {
            videos_dir: self.videos_dir@,
            manifest_path: self.manifest_path@,
            thumbnails_dir: self.thumbnails_dir@,
            renderer_process: self.renderer_process@,
            agent_process: self.agent_process@,
            requires_elevation: self.requires_elevation,
        }
    }
}

/// Everything the other commands need to know about the wallpaper store.
#[derive(Debug, Clone, PartialEq, Eq)]
pub struct ResolvedPaths {
    pub videos_dir: String,
    pub manifest_path: String,
    pub thumbnails_dir: String,
    pub renderer_process: String,
    pub agent_process: String,
    pub requires_elevation: bool,
    pub macos_version: MacOSVersion,
}

/// Resolved paths as a value of the specification.
pub struct PathsModel {
    pub videos_dir: Seq<char>,
    pub manifest_path: Seq<char>,
    pub thumbnails_dir: Seq<char>,
    pub renderer_process: Seq<char>,
    pub agent_process: Seq<char>,
    pub requires_elevation: bool,
    pub macos_version: VersionModel,
}

impl View for ResolvedPaths {
    type V = PathsModel;

    open spec fn view(&self) -> PathsModel {
        PathsModel {
            videos_dir: self.videos_dir@,
            manifest_path: self.manifest_path@,
            thumbnails_dir: self.thumbnails_dir@,
            renderer_process: self.renderer_process@,
            agent_process: self.agent_process@,
            requires_elevation: self.requires_elevation,
            macos_version: self.macos_version@,
        }
    }
}

/// Why the wallpaper store could not be resolved.
#[derive(Debug, Clone, PartialEq, Eq)]
pub enum ResolveError {
    /// The release predates the aerial wallpaper system; holds its version text.
    Unsupported(String),
    /// No strategy found the store.
    NotFound,
    /// The running renderer has no wallpaper video open, or none whose store exists.
    NoOpenVideo,
    /// No directory with UUID-named videos holds a store.
    NoStoredVideos,
    /// `HOME` is not set.
    HomeNotSet,
    /// No Tahoe store exists.
    TahoePathsNotFound,
    /// No Sonoma or Sequoia store exists.
    SonomaPathsNotFound,
    /// The release has no known store.
    UnsupportedOs,
}

/// A resolve error as a value of the specification.
pub enum ResolveErrorModel {
    Unsupported(Seq<char>),
    NotFound,
    NoOpenVideo,
    NoStoredVideos,
    HomeNotSet,
    TahoePathsNotFound,
    SonomaPathsNotFound,
    UnsupportedOs,
}

impl View for ResolveError {
    type V = ResolveErrorModel;

    open spec fn view(&self) -> ResolveErrorModel {
        match self {
            ResolveError::Unsupported(s) => ResolveErrorModel::Unsupported(s@),
            ResolveError::NotFound => ResolveErrorModel::NotFound,
            ResolveError::NoOpenVideo => ResolveErrorModel::NoOpenVideo,
            ResolveError::NoStoredVideos => ResolveErrorModel::NoStoredVideos,
            ResolveError::HomeNotSet => ResolveErrorModel::HomeNotSet,
            ResolveError::TahoePathsNotFound => ResolveErrorModel::TahoePathsNotFound,
            ResolveError::SonomaPathsNotFound => ResolveErrorModel::SonomaPathsNotFound,
            ResolveError::UnsupportedOs => ResolveErrorModel::UnsupportedOs,
        }
    }
}

/// The text shown for a resolve error.
pub open spec fn resolve_error_text(e: ResolveErrorModel) -> Seq<char> {
    match e {
        ResolveErrorModel::Unsupported(v) => "LiveWall requires macOS Sonoma (14) or later.\nVideo wallpapers were introduced in macOS Sonoma.\nYour Mac is running macOS "@
            + v + ". Please upgrade to use LiveWall."@,
        ResolveErrorModel::NotFound => "LiveWall could not locate wallpaper storage on this system.\nTo see where your Mac keeps it, run: ls ~/Library/Application\\ Support/com.apple*\nPlease report the output at https://github.com/Maaagggi/livewall/issues/new"@,
        ResolveErrorModel::NoOpenVideo => "The running wallpaper renderer has no video open"@,
        ResolveErrorModel::NoStoredVideos => "No UUID-named wallpaper videos were found"@,
        ResolveErrorModel::HomeNotSet => "HOME environment variable not set"@,
        ResolveErrorModel::TahoePathsNotFound => "Tahoe paths not found"@,
        ResolveErrorModel::SonomaPathsNotFound => "Sonoma/Sequoia paths not found"@,
        ResolveErrorModel::UnsupportedOs => "Unsupported OS"@,
    }
}

impl ResolveError {
    /// The message that tells the user what went wrong.
    pub fn message(&self) -> (r: String)
        ensures
            r@ == resolve_error_text(self@),
    {
        match self {
            ResolveError::Unsupported(v) => {
                let mut r = String::from_str(
                    "LiveWall requires macOS Sonoma (14) or later.\nVideo wallpapers were introduced in macOS Sonoma.\nYour Mac is running macOS ",
                );
                r.append(v.as_str());
                r.append(". Please upgrade to use LiveWall.");
                r
            },
            ResolveError::NotFound => String::from_str(
                "LiveWall could not locate wallpaper storage on this system.\nTo see where your Mac keeps it, run: ls ~/Library/Application\\ Support/com.apple*\nPlease report the output at https://github.com/Maaagggi/livewall/issues/new",
            ),
            ResolveError::NoOpenVideo => String::from_str(
                "The running wallpaper renderer has no video open",
            ),
            ResolveError::NoStoredVideos => String::from_str(
                "No UUID-named wallpaper videos were found",
            ),
            ResolveError::HomeNotSet => String::from_str("HOME environment variable not set"),
            ResolveError::TahoePathsNotFound => String::from_str("Tahoe paths not found"),
            ResolveError::SonomaPathsNotFound => String::from_str("Sonoma/Sequoia paths not found"),
            ResolveError::UnsupportedOs => String::from_str("Unsupported OS"),
        }
    }
}

/// Releases before Sonoma (major 13 and below, or no number at all) have no
/// aerial wallpaper system and are refused.
pub open spec fn is_refused(report: Seq<char>) -> bool {
    major_version(report) <= 13
}

/// A release that keeps its wallpapers the Tahoe way: Tahoe, or a later
/// release that has no name here (those before Sonoma are refused first).
pub open spec fn tahoe_like(v: VersionModel) -> bool {
    !(v is Sonoma) && !(v is Sequoia)
}

/// The process that renders the wallpaper video.
pub open spec fn renderer_for(v: VersionModel) -> Seq<char> {
    if tahoe_like(v) {
        "WallpaperAerialsExtension"@
    } else {
        "WallpaperAerialExtension"@
    }
}

/// The process that manages the wallpaper assets.
pub open spec fn agent_for(v: VersionModel) -> Seq<char> {
    if tahoe_like(v) {
        "WallpaperAgent"@
    } else {
        "idleassetsd"@
    }
}

/// Where the manifest sits below the store's directory.
pub open spec fn manifest_rel_for(v: VersionModel) -> Seq<char> {
    if tahoe_like(v) {
        "manifest/entries.json"@
    } else {
        "entries.json"@
    }
}

/// A store in the directory `base`: videos in `videos_rel`, the manifest at
/// `manifest_rel`, thumbnails in `thumbnails`, served by the processes of `v`.
pub open spec fn store_at(
    base: Seq<char>,
    videos_rel: Seq<char>,
    manifest_rel: Seq<char>,
    v: VersionModel,
    elevated: bool,
) -> CandidateModel {
    CandidateModel {
        videos_dir: joined(base, videos_rel),
        manifest_path: joined(base, manifest_rel),
        thumbnails_dir: joined(base, "thumbnails"@),
        renderer_process: renderer_for(v),
        agent_process: agent_for(v),
        requires_elevation: elevated,
    }
}

/// The text `/Library/`.
pub open spec fn library_prefix() -> Seq<char> {
    seq!['/', 'L', 'i', 'b', 'r', 'a', 'r', 'y', '/']
}

/// The path is the system `/Library` folder or lies below it.
pub open spec fn under_library(p: Seq<char>) -> bool {
    (p.len() >= 9 && p.take(9) == library_prefix()) || p == library_prefix().take(8)
}

/// The per-user Tahoe store under `home`.
pub open spec fn tahoe_user_store(home: Seq<char>) -> CandidateModel {
    store_at(
        joined(home, "Library/Application Support/com.apple.wallpaper/aerials"@),
        "videos"@,
        "manifest/entries.json"@,
        VersionModel::Tahoe,
        false,
    )
}

/// A Tahoe store inside the wallpaper agent's container under `home`, at
/// `rel` below the container.
pub open spec fn container_store(home: Seq<char>, rel: Seq<char>) -> CandidateModel {
    store_at(
        joined(joined(home, "Library/Containers/com.apple.wallpaper.agent"@), rel),
        "videos"@,
        "manifest/entries.json"@,
        VersionModel::Tahoe,
        false,
    )
}

/// A Tahoe store kept flat in an aerials folder inside the wallpaper agent's
/// container under `home`, at `rel` below the container: the videos and
/// thumbnails in the folder itself, `entries.json` directly in it.
pub open spec fn flat_container_store(home: Seq<char>, rel: Seq<char>) -> CandidateModel {
    let base = joined(joined(home, "Library/Containers/com.apple.wallpaper.agent"@), rel);
    CandidateModel {
        videos_dir: base,
        manifest_path: joined(base, "entries.json"@),
        thumbnails_dir: base,
        renderer_process: renderer_for(VersionModel::Tahoe),
        agent_process: agent_for(VersionModel::Tahoe),
        requires_elevation: false,
    }
}

/// The stores of the aerials folders `rels` inside the agent's container, in
/// order: for each folder, its store laid out as the user's own, then the
/// flat one.
pub open spec fn container_stores(home: Seq<char>, rels: Seq<Seq<char>>) -> Seq<CandidateModel>
    decreases rels.len(),
{
    if rels.len() == 0 {
        Seq::empty()
    } else {
        container_stores(home, rels.drop_last()) + seq![
            container_store(home, rels.last()),
            flat_container_store(home, rels.last()),
        ]
    }
}

/// The system-wide Sonoma and Sequoia store, which needs elevation.
pub open spec fn system_store(v: VersionModel) -> CandidateModel {
    store_at(
        "/Library/Application Support/com.apple.idleassetsd/Customer"@,
        "4KSDR240FPS"@,
        "entries.json"@,
        v,
        true,
    )
}

/// The per-user Sonoma and Sequoia store under `home`.
pub open spec fn legacy_user_store(home: Seq<char>, v: VersionModel) -> CandidateModel {
    store_at(
        joined(home, "Library/Application Support/com.apple.idleassetsd/Customer"@),
        "4KSDR240FPS"@,
        "entries.json"@,
        v,
        false,
    )
}

/// The store whose videos are in the directory `dir`: the directory above
/// it holds the manifest and the thumbnails as release `v` lays them out;
/// it needs elevation when its manifest lies below `/Library`.
pub open spec fn found_store(v: VersionModel, dir: Seq<char>) -> Option<CandidateModel> {
    match (parent_dir(dir), file_name(dir)) {
        (Some(base), Some(name)) => Some(
            store_at(
                base,
                name,
                manifest_rel_for(v),
                v,
                under_library(joined(base, manifest_rel_for(v))),
            ),
        ),
        _ => None,
    }
}

/// An `lsof -Fn` line that names a `.mov` file.
pub open spec fn is_movie_line(line: Seq<char>) -> bool {
    line.len() >= 5 && line[0] == 'n' && line.subrange(line.len() - 4, line.len() as int)
        == seq!['.', 'm', 'o', 'v']
}

/// The first `.mov` file among the `lsof -Fn` lines from position `i` on.
pub open spec fn first_movie(lines: Seq<Seq<char>>, i: int) -> Option<Seq<char>>
    decreases lines.len() - i,
{
    if i < 0 || i >= lines.len() {
        None
    } else if is_movie_line(lines[i]) {
        Some(lines[i].drop_first())
    } else {
        first_movie(lines, i + 1)
    }
}

/// Strategy 1: the store of the first video that the running renderer has
/// open, as `lsof -Fn` lists its files.
pub open spec fn lsof_stores(v: VersionModel, lines: Seq<Seq<char>>) -> Seq<CandidateModel> {
    match first_movie(lines, 0) {
        Some(f) => match parent_dir(f) {
            Some(d) => match found_store(v, d) {
                Some(c) => seq![c],
                None => Seq::empty(),
            },
            None => Seq::empty(),
        },
        None => Seq::empty(),
    }
}

/// Strategy 2: the known stores of the release, in order of priority; on
/// Tahoe the stores of the aerials folders inside the agent's container (at
/// `containers` below it) come after the user's own.
pub open spec fn priority_stores(
    v: VersionModel,
    home: Option<Seq<char>>,
    containers: Seq<Seq<char>>,
) -> Seq<CandidateModel> {
    match home {
        None => Seq::empty(),
        Some(h) => match v {
            VersionModel::Tahoe => seq![tahoe_user_store(h)] + container_stores(h, containers),
            VersionModel::Sonoma => seq![system_store(v), legacy_user_store(h, v)],
            VersionModel::Sequoia => seq![system_store(v), legacy_user_store(h, v)],
            VersionModel::Unsupported(_) => Seq::empty(),
        },
    }
}

/// Strategy 3: the stores of the directories found holding UUID-named videos.
pub open spec fn search_stores(v: VersionModel, dirs: Seq<Seq<char>>) -> Seq<CandidateModel>
    decreases dirs.len(),
{
    if dirs.len() == 0 {
        Seq::empty()
    } else {
        let rest = search_stores(v, dirs.drop_last());
        match found_store(v, dirs.last()) {
            Some(c) => rest.push(c),
            None => rest,
        }
    }
}

/// What the system was found to show about where its store is.
#[derive(Debug, Clone, PartialEq, Eq)]
pub struct Discovery {
    /// The `lsof -Fn` lines of the running renderer (empty when none runs).
    pub open_files: Vec<String>,
    /// The aerials extension folders found inside the wallpaper agent's
    /// container, relative to `~/Library/Containers/com.apple.wallpaper.agent`.
    pub agent_containers: Vec<String>,
    /// Directories that hold UUID-named `.mov` files.
    pub movie_dirs: Vec<String>,
}

/// The texts of a list of strings.
pub open spec fn texts(v: Seq<String>) -> Seq<Seq<char>> {
    v.map_values(|s: String| s@)
}

/// Every store to probe, in order: the renderer's, the known ones, the
/// searched ones.
pub open spec fn all_stores(v: VersionModel, home: Option<Seq<char>>, d: Discovery) -> Seq<
    CandidateModel,
> {
    lsof_stores(v, texts(d.open_files@)) + priority_stores(v, home, texts(d.agent_containers@))
        + search_stores(v, texts(d.movie_dirs@))
}

/// The first index below `n` (and within `present`) whose flag is set.
pub open spec fn first_present(present: Seq<bool>, i: int, n: int) -> Option<int>
    decreases n - i,
{
    if i >= n || i >= present.len() || i < 0 {
        None
    } else if present[i] {
        Some(i)
    } else {
        first_present(present, i + 1, n)
    }
}

/// The resolved paths that a found store gives.
pub open spec fn paths_from(c: CandidateModel, version: VersionModel) -> PathsModel {
    PathsModel {
        videos_dir: c.videos_dir,
        manifest_path: c.manifest_path,
        thumbnails_dir: c.thumbnails_dir,
        renderer_process: c.renderer_process,
        agent_process: c.agent_process,
        requires_elevation: c.requires_elevation,
        macos_version: version,
    }
}

/// The first of `stores` whose manifest exists (`present[i]` for the `i`-th).
pub open spec fn first_store(stores: Seq<CandidateModel>, present: Seq<bool>, v: VersionModel) -> Option<
    PathsModel,
> {
    match first_present(present, 0, stores.len() as int) {
        Some(i) => Some(paths_from(stores[i], v)),
        None => None,
    }
}

/// What strategy 1 gives.
pub open spec fn lsof_outcome(v: VersionModel, lines: Seq<Seq<char>>, present: Seq<bool>) -> Result<
    PathsModel,
    ResolveErrorModel,
> {
    match first_store(lsof_stores(v, lines), present, v) {
        Some(p) => Ok(p),
        None => Err(ResolveErrorModel::NoOpenVideo),
    }
}

/// What strategy 2 gives.
pub open spec fn priority_outcome(
    v: VersionModel,
    home: Option<Seq<char>>,
    containers: Seq<Seq<char>>,
    present: Seq<bool>,
) -> Result<PathsModel, ResolveErrorModel> {
    match home {
        None => Err(ResolveErrorModel::HomeNotSet),
        Some(h) => match v {
            VersionModel::Unsupported(_) => Err(ResolveErrorModel::UnsupportedOs),
            _ => match first_store(priority_stores(v, home, containers), present, v) {
                Some(p) => Ok(p),
                None => if v is Tahoe {
                    Err(ResolveErrorModel::TahoePathsNotFound)
                } else {
                    Err(ResolveErrorModel::SonomaPathsNotFound)
                },
            },
        },
    }
}

/// What strategy 3 gives.
pub open spec fn search_outcome(v: VersionModel, dirs: Seq<Seq<char>>, present: Seq<bool>) -> Result<
    PathsModel,
    ResolveErrorModel,
> {
    match first_store(search_stores(v, dirs), present, v) {
        Some(p) => Ok(p),
        None => Err(ResolveErrorModel::NoStoredVideos),
    }
}

/// What resolving gives: releases before Sonoma are refused with their
/// version text; otherwise the first store, over all strategies in order,
/// whose manifest exists (`present[i]` for the `i`-th of `all_stores`);
/// when there is none, the store is reported as not found.
pub open spec fn resolve_outcome(
    report: Seq<char>,
    home: Option<Seq<char>>,
    d: Discovery,
    present: Seq<bool>,
) -> Result<PathsModel, ResolveErrorModel> {
    let v = version_for(report);
    if is_refused(report) {
        Err(ResolveErrorModel::Unsupported(trimmed(report)))
    } else {
        match first_store(all_stores(v, home, d), present, v) {
            Some(p) => Ok(p),
            None => Err(ResolveErrorModel::NotFound),
        }
    }
}

/// A result of resolving, as a value of the specification.
pub open spec fn outcome_model(r: Result<ResolvedPaths, ResolveError>) -> Result<
    PathsModel,
    ResolveErrorModel,
> {
    match r {
        Ok(p) => Ok(p@),
        Err(e) => Err(e@),
    }
}

/// An optional string as an optional character sequence.
pub open spec fn opt_view(s: Option<&str>) -> Option<Seq<char>> {
    match s {
        Some(x) => Some(x@),
        None => None,
    }
}

/// The views of a list of candidates.
pub open spec fn cand_views(v: Seq<StorageCandidate>) -> Seq<CandidateModel> {
    v.map_values(|c: StorageCandidate| c@)
}

/// Resolves the wallpaper store of this machine.
pub struct PathResolver;

impl PathResolver {
    /// Resolves the store from what the system reports: `version_report` is
    /// the output of `sw_vers -productVersion`, `home` the value of `HOME`,
    /// `discovery` what was found on the system, and `present[i]` whether
    /// the manifest of the `i`-th entry of `candidates` exists.
    pub fn resolve(
        version_report: &str,
        home: Option<&str>,
        discovery: &Discovery,
        present: &Vec<bool>,
    ) -> (r: Result<ResolvedPaths, ResolveError>)
        ensures
            outcome_model(r) == resolve_outcome(version_report@, opt_view(home), *discovery, present@),
    {
        let version = Self::get_macos_version(version_report);
        if Self::is_refused(version_report) {
            return match version {
                MacOSVersion::Unsupported(v) => Err(ResolveError::Unsupported(v)),
                _ => Err(ResolveError::NotFound),
            };
        }
        let cands = Self::candidates(&version, home, discovery);
        match pick_first(&cands, present, &version) {
            Some(p) => Ok(p),
            None => Err(ResolveError::NotFound),
        }
    }

    /// Whether the report names a release before Sonoma, which is refused.
    pub fn is_refused(report: &str) -> (r: bool)
        ensures
            r == is_refused(report@),
    {
        let version_text = trim(report);
        let major_text = first_piece(version_text.as_str(), '.');
        let major = match parse_u32_decimal(major_text.as_str()) {
            Some(n) => n,
            None => 0,
        };
        major <= 13
    }

    /// The release named by a `sw_vers -productVersion` report.
    pub fn get_macos_version(report: &str) -> (r: MacOSVersion)
        ensures
            r@ == version_for(report@),
    {
        let version_text = trim(report);
        let major_text = first_piece(version_text.as_str(), '.');
        let major = match parse_u32_decimal(major_text.as_str()) {
            Some(n) => n,
            None => 0,
        };
        if major == 14 {
            MacOSVersion::Sonoma
        } else if major == 15 {
            MacOSVersion::Sequoia
        } else if major == 26 {
            MacOSVersion::Tahoe
        } else {
            MacOSVersion::Unsupported(version_text)
        }
    }

    /// The processes that may render the wallpaper, in the order in which
    /// they are looked for before asking `lsof`.
    pub fn renderer_processes() -> (r: Vec<String>)
        ensures
            texts(r@) == seq![
                "WallpaperAerialsExtension"@,
                "WallpaperAerialExtension"@,
                "idleassetsd"@,
            ],
    {
        let mut r: Vec<String> = Vec::new();
        r.push(String::from_str("WallpaperAerialsExtension"));
        r.push(String::from_str("WallpaperAerialExtension"));
        r.push(String::from_str("idleassetsd"));
        assert(texts(r@) =~= seq![
            "WallpaperAerialsExtension"@,
            "WallpaperAerialExtension"@,
            "idleassetsd"@,
        ]);
        r
    }

    /// Strategy 1: the store of the video that the running renderer has
    /// open, given its `lsof -Fn` lines; `present[i]` tells whether the
    /// manifest of the `i`-th of `lsof_candidates` exists.
    pub fn strategy_lsof(version: &MacOSVersion, open_files: &Vec<String>, present: &Vec<bool>) -> (r:
        Result<ResolvedPaths, ResolveError>)
        ensures
            outcome_model(r) == lsof_outcome(version@, texts(open_files@), present@),
    {
        let cands = Self::lsof_candidates(version, open_files);
        match pick_first(&cands, present, version) {
            Some(p) => Ok(p),
            None => Err(ResolveError::NoOpenVideo),
        }
    }

    /// Strategy 2: probes the known stores in order of priority;
    /// `present[i]` tells whether the manifest of the `i`-th of
    /// `priority_candidates` exists.
    pub fn strategy_priority_paths(
        version: &MacOSVersion,
        home: Option<&str>,
        agent_containers: &Vec<String>,
        present: &Vec<bool>,
    ) -> (r: Result<ResolvedPaths, ResolveError>)
        ensures
            outcome_model(r) == priority_outcome(
                version@,
                opt_view(home),
                texts(agent_containers@),
                present@,
            ),
    {
        if home.is_none() {
            return Err(ResolveError::HomeNotSet);
        }
        match version {
            MacOSVersion::Unsupported(_) => Err(ResolveError::UnsupportedOs),
            _ => {
                let cands = Self::priority_candidates(version, home, agent_containers);
                match pick_first(&cands, present, version) {
                    Some(p) => Ok(p),
                    None => match version {
                        MacOSVersion::Tahoe => Err(ResolveError::TahoePathsNotFound),
                        _ => Err(ResolveError::SonomaPathsNotFound),
                    },
                }
            },
        }
    }

    /// Strategy 3: the stores of the directories that hold UUID-named
    /// videos; `present[i]` tells whether the manifest of the `i`-th of
    /// `search_candidates` exists.
    pub fn strategy_search(version: &MacOSVersion, movie_dirs: &Vec<String>, present: &Vec<bool>) -> (r:
        Result<ResolvedPaths, ResolveError>)
        ensures
            outcome_model(r) == search_outcome(version@, texts(movie_dirs@), present@),
    {
        let cands = Self::search_candidates(version, movie_dirs);
        match pick_first(&cands, present, version) {
            Some(p) => Ok(p),
            None => Err(ResolveError::NoStoredVideos),
        }
    }

    /// All stores to probe, in order (see `resolve`).
    pub fn candidates(version: &MacOSVersion, home: Option<&str>, discovery: &Discovery) -> (r: Vec<
        StorageCandidate,
    >)
        ensures
            cand_views(r@) == all_stores(version@, opt_view(home), *discovery),
    {
        let mut r = Self::lsof_candidates(version, &discovery.open_files);
        let mut b = Self::priority_candidates(version, home, &discovery.agent_containers);
        let mut c = Self::search_candidates(version, &discovery.movie_dirs);
        let ghost (ra, rb, rc) = (r@, b@, c@);
        r.append(&mut b);
        r.append(&mut c);
        assert(cand_views(ra + rb + rc) =~= cand_views(ra) + cand_views(rb) + cand_views(rc));
        r
    }

    /// The store of the renderer's open video (strategy 1), if any.
    pub fn lsof_candidates(version: &MacOSVersion, open_files: &Vec<String>) -> (r: Vec<StorageCandidate>)
        ensures
            cand_views(r@) == lsof_stores(version@, texts(open_files@)),
    {
        let mut r: Vec<StorageCandidate> = Vec::new();
        let ghost lines = texts(open_files@);
        let mut i: usize = 0;
        while i < open_files.len()
            invariant
                i <= open_files.len(),
                lines == texts(open_files@),
                r@.len() == 0,
                first_movie(lines, 0) == first_movie(lines, i as int),
            decreases open_files.len() - i,
        {
            if is_movie_line_text(open_files[i].as_str()) {
                let f = drop_first_char(open_files[i].as_str());
                assert(first_movie(lines, 0) == Some(f@));
                if let Some((d, _)) = split_dir(f.as_str()) {
                    if let Some(c) = found_candidate(version, d.as_str()) {
                        r.push(c);
                    }
                }
                assert(cand_views(r@) =~= lsof_stores(version@, lines));
                return r;
            }
            i += 1;
        }
        assert(cand_views(r@) =~= lsof_stores(version@, lines));
        r
    }

    /// The known stores of a release under `home`, in order of priority
    /// (strategy 2).
    pub fn priority_candidates(
        version: &MacOSVersion,
        home: Option<&str>,
        agent_containers: &Vec<String>,
    ) -> (r: Vec<StorageCandidate>)
        ensures
            cand_views(r@) == priority_stores(version@, opt_view(home), texts(agent_containers@)),
    {
        let mut r: Vec<StorageCandidate> = Vec::new();
        let h = match home {
            Some(h) => h,
            None => {
                assert(cand_views(r@) =~= Seq::<CandidateModel>::empty());
                return r;
            },
        };
        match version {
            MacOSVersion::Tahoe => {
                r.push(tahoe_candidate(h));
                let ghost conts = texts(agent_containers@);
                let mut i: usize = 0;
                assert(cand_views(r@) =~= seq![tahoe_user_store(h@)] + container_stores(
                    h@,
                    conts.take(0),
                ));
                while i < agent_containers.len()
                    invariant
                        i <= agent_containers.len(),
                        conts == texts(agent_containers@),
                        cand_views(r@) == seq![tahoe_user_store(h@)] + container_stores(
                            h@,
                            conts.take(i as int),
                        ),
                    decreases agent_containers.len() - i,
                {
                    let rel = agent_containers[i].as_str();
                    let c = container_candidate(h, rel);
                    let f = flat_container_candidate(h, rel);
                    let ghost before = r@;
                    r.push(c);
                    r.push(f);
                    assert(conts.take(i + 1).drop_last() =~= conts.take(i as int));
                    assert(conts.take(i + 1).last() == conts[i as int]);
                    assert(cand_views(r@) =~= cand_views(before).push(c@).push(f@));
                    assert(cand_views(r@) =~= seq![tahoe_user_store(h@)] + container_stores(
                        h@,
                        conts.take(i + 1),
                    ));
                    i += 1;
                }
                assert(conts.take(i as int) =~= conts);
            },
            MacOSVersion::Sonoma | MacOSVersion::Sequoia => {
                r.push(system_candidate(version));
                r.push(legacy_user_candidate(h, version));
                assert(cand_views(r@) =~= priority_stores(
                    version@,
                    opt_view(home),
                    texts(agent_containers@),
                ));
            },
            MacOSVersion::Unsupported(_) => {
                assert(cand_views(r@) =~= Seq::<CandidateModel>::empty());
            },
        }
        r
    }

    /// The stores of the directories that hold UUID-named videos (strategy 3).
    pub fn search_candidates(version: &MacOSVersion, movie_dirs: &Vec<String>) -> (r: Vec<
        StorageCandidate,
    >)
        ensures
            cand_views(r@) == search_stores(version@, texts(movie_dirs@)),
    {
        let mut r: Vec<StorageCandidate> = Vec::new();
        let ghost dirs = texts(movie_dirs@);
        let mut i: usize = 0;
        assert(cand_views(r@) =~= search_stores(version@, dirs.take(0)));
        while i < movie_dirs.len()
            invariant
                i <= movie_dirs.len(),
                dirs == texts(movie_dirs@),
                cand_views(r@) == search_stores(version@, dirs.take(i as int)),
            decreases movie_dirs.len() - i,
        {
            assert(dirs.take(i + 1).drop_last() =~= dirs.take(i as int));
            assert(dirs.take(i + 1).last() == movie_dirs@[i as int]@);
            match found_candidate(version, movie_dirs[i].as_str()) {
                Some(c) => {
                    let ghost before = r@;
                    r.push(c);
                    assert(cand_views(r@) =~= cand_views(before).push(c@));
                },
                None => {},
            }
            i += 1;
        }
        assert(dirs.take(i as int) =~= dirs);
        r
    }

    /// Whether a folder inside the wallpaper agent's container is the aerials
    /// extension's own, which may hold a Tahoe store.
    pub fn is_aerials_container(name: &str) -> (r: bool)
        ensures
            r == (name@ == "extension-com.apple.wallpaper.extension.aerials"@),
    {
        str_eq(name, "extension-com.apple.wallpaper.extension.aerials")
    }

    /// The pid on the first line of `pgrep` output, if it names one.
    pub fn first_pid(pgrep_output: &str) -> (r: Option<u32>)
        ensures
            r == parse_u32(trimmed(before_first(pgrep_output@, '\n'))),
    {
        let line = first_piece(pgrep_output, '\n');
        let t = trim(line.as_str());
        parse_u32_decimal(t.as_str())
    }

    /// A file name of the form `XXXXXXXX-XXXX-XXXX-XXXX-XXXXXXXXXXXX.mov`,
    /// with hexadecimal digits in either case, as the system names its
    /// cached wallpaper videos.
    pub fn is_uuid_movie(name: &str) -> (r: bool)
        ensures
            r == is_uuid_movie_name(name@),
    {
        let v = chars_of(name);
        if v.len() != 40 {
            return false;
        }
        let mut i: usize = 0;
        while i < 36
            invariant
                v@ == name@,
                v.len() == 40,
                i <= 36,
                forall|k: int| 0 <= k < i ==> uuid_char_ok(name@, k),
            decreases 36 - i,
        {
            let c = v[i];
            let ok = if i == 8 || i == 13 || i == 18 || i == 23 {
                c == '-'
            } else {
                ('0' <= c && c <= '9') || ('a' <= c && c <= 'f') || ('A' <= c && c <= 'F')
            };
            if !ok {
                assert(!uuid_char_ok(name@, i as int));
                return false;
            }
            i += 1;
        }
        let tail = v[36] == '.' && v[37] == 'm' && v[38] == 'o' && v[39] == 'v';
        proof {
            if tail {
                assert(name@.subrange(36, 40) =~= seq!['.', 'm', 'o', 'v']);
            } else {
                assert(name@.subrange(36, 40) != seq!['.', 'm', 'o', 'v']) by {
                    if name@.subrange(36, 40) == seq!['.', 'm', 'o', 'v'] {
                        assert(name@.subrange(36, 40)[0] == name@[36]);
                        assert(name@.subrange(36, 40)[1] == name@[37]);
                        assert(name@.subrange(36, 40)[2] == name@[38]);
                        assert(name@.subrange(36, 40)[3] == name@[39]);
                    }
                }
            }
        }
        tail
    }
}

/// Position `k` of a UUID file name holds what it should.
pub open spec fn uuid_char_ok(s: Seq<char>, k: int) -> bool {
    if k == 8 || k == 13 || k == 18 || k == 23 {
        s[k] == '-'
    } else {
        ('0' <= s[k] <= '9') || ('a' <= s[k] <= 'f') || ('A' <= s[k] <= 'F')
    }
}

/// A UUID-named `.mov` file name.
pub open spec fn is_uuid_movie_name(s: Seq<char>) -> bool {
    &&& s.len() == 40
    &&& forall|k: int| 0 <= k < 36 ==> uuid_char_ok(s, k)
    &&& s.subrange(36, 40) == seq!['.', 'm', 'o', 'v']
}

/// The first of `cands` whose manifest exists, as resolved paths.
fn pick_first(cands: &Vec<StorageCandidate>, present: &Vec<bool>, version: &MacOSVersion) -> (r:
    Option<ResolvedPaths>)
    ensures
        match first_store(cand_views(cands@), present@, version@) {
            Some(p) => r matches Some(q) && q@ == p,
            None => r is None,
        },
{
    let ghost views = cand_views(cands@);
    let mut i: usize = 0;
    while i < cands.len()
        invariant
            i <= cands.len(),
            views == cand_views(cands@),
            first_present(present@, 0, cands.len() as int) == first_present(
                present@,
                i as int,
                cands.len() as int,
            ),
        decreases cands.len() - i,
    {
        if i < present.len() && present[i] {
            let c = &cands[i];
            let paths = ResolvedPaths {
                videos_dir: c.videos_dir.clone(),
                manifest_path: c.manifest_path.clone(),
                thumbnails_dir: c.thumbnails_dir.clone(),
                renderer_process: c.renderer_process.clone(),
                agent_process: c.agent_process.clone(),
                requires_elevation: c.requires_elevation,
                macos_version: version.duplicate(),
            };
            assert(views[i as int] == cands@[i as int]@);
            assert(first_present(present@, i as int, cands.len() as int) == Some(i as int));
            return Some(paths);
        }
        i += 1;
    }
    None
}

/// Whether an `lsof -Fn` line names a `.mov` file.
fn is_movie_line_text(line: &str) -> (r: bool)
    ensures
        r == is_movie_line(line@),
{
    let v = chars_of(line);
    let n = v.len();
    if n < 5 || v[0] != 'n' {
        return false;
    }
    let ok = v[n - 4] == '.' && v[n - 3] == 'm' && v[n - 2] == 'o' && v[n - 1] == 'v';
    proof {
        let t = line@.subrange(n - 4, n as int);
        if ok {
            assert(t =~= seq!['.', 'm', 'o', 'v']);
        } else if t == seq!['.', 'm', 'o', 'v'] {
            assert(t[0] == line@[n - 4]);
            assert(t[1] == line@[n - 3]);
            assert(t[2] == line@[n - 2]);
            assert(t[3] == line@[n - 1]);
        }
    }
    ok
}

/// The text without its first character.
fn drop_first_char(s: &str) -> (r: String)
    requires
        s@.len() >= 1,
    ensures
        r@ == s@.drop_first(),
{
    let n = s.unicode_len();
    let part = s.substring_char(1, n);
    String::from_str(part)
}

/// Whether the path is `/Library` or lies below it.
fn is_under_library(p: &str) -> (r: bool)
    ensures
        r == under_library(p@),
{
    let v = chars_of(p);
    let pre = ['/', 'L', 'i', 'b', 'r', 'a', 'r', 'y', '/'];
    let mut k: usize = 0;
    let mut same = true;
    while k < 9 && k < v.len()
        invariant
            v@ == p@,
            k <= 9,
            pre@ == library_prefix(),
            same == (forall|m: int| 0 <= m < k && m < v.len() ==> v@[m] == library_prefix()[m]),
        decreases 9 - k,
    {
        if v[k] != pre[k] {
            same = false;
        }
        k += 1;
    }
    proof {
        if v.len() >= 9 {
            if same {
                assert(p@.take(9) =~= library_prefix());
            } else {
                let w = choose|m: int| 0 <= m < 9 && v@[m] != library_prefix()[m];
                assert(p@.take(9)[w] != library_prefix()[w]);
            }
            assert(p@.len() != library_prefix().take(8).len());
        } else {
            if v.len() == 8 && same {
                assert(p@ =~= library_prefix().take(8));
            } else if v.len() == 8 {
                let w = choose|m: int| 0 <= m < 8 && v@[m] != library_prefix()[m];
                assert(p@[w] != library_prefix().take(8)[w]);
            } else {
                assert(p@.len() != library_prefix().take(8).len());
            }
        }
    }
    (v.len() >= 9 && same) || (v.len() == 8 && same)
}

fn store_candidate(
    base: &str,
    videos_rel: &str,
    manifest_rel: &str,
    version: &MacOSVersion,
    elevated: bool,
) -> (c: StorageCandidate)
    ensures
        c@ == store_at(base@, videos_rel@, manifest_rel@, version@, elevated),
{
    let tahoe_like = match version {
        MacOSVersion::Sonoma | MacOSVersion::Sequoia => false,
        _ => true,
    };
    StorageCandidate {
        videos_dir: join_path(base, videos_rel),
        manifest_path: join_path(base, manifest_rel),
        thumbnails_dir: join_path(base, "thumbnails"),
        renderer_process: if tahoe_like {
            String::from_str("WallpaperAerialsExtension")
        } else {
            String::from_str("WallpaperAerialExtension")
        },
        agent_process: if tahoe_like {
            String::from_str("WallpaperAgent")
        } else {
            String::from_str("idleassetsd")
        },
        requires_elevation: elevated,
    }
}

fn manifest_rel(version: &MacOSVersion) -> (r: &'static str)
    ensures
        r@ == manifest_rel_for(version@),
{
    match version {
        MacOSVersion::Sonoma | MacOSVersion::Sequoia => "entries.json",
        _ => "manifest/entries.json",
    }
}

fn found_candidate(version: &MacOSVersion, dir: &str) -> (r: Option<StorageCandidate>)
    ensures
        match found_store(version@, dir@) {
            Some(c) => r matches Some(x) && x@ == c,
            None => r is None,
        },
{
    match split_dir(dir) {
        Some((base, name)) => {
            let rel = manifest_rel(version);
            let manifest = join_path(base.as_str(), rel);
            let elevated = is_under_library(manifest.as_str());
            Some(store_candidate(base.as_str(), name.as_str(), rel, version, elevated))
        },
        None => None,
    }
}

fn tahoe_candidate(home: &str) -> (c: StorageCandidate)
    ensures
        c@ == tahoe_user_store(home@),
{
    let base = join_path(home, "Library/Application Support/com.apple.wallpaper/aerials");
    store_candidate(
        base.as_str(),
        "videos",
        "manifest/entries.json",
        &MacOSVersion::Tahoe,
        false,
    )
}

fn container_candidate(home: &str, rel: &str) -> (c: StorageCandidate)
    ensures
        c@ == container_store(home@, rel@),
{
    let root = join_path(home, "Library/Containers/com.apple.wallpaper.agent");
    let base = join_path(root.as_str(), rel);
    store_candidate(
        base.as_str(),
        "videos",
        "manifest/entries.json",
        &MacOSVersion::Tahoe,
        false,
    )
}

fn flat_container_candidate(home: &str, rel: &str) -> (c: StorageCandidate)
    ensures
        c@ == flat_container_store(home@, rel@),
{
    let root = join_path(home, "Library/Containers/com.apple.wallpaper.agent");
    let base = join_path(root.as_str(), rel);
    StorageCandidate {
        videos_dir: base.clone(),
        manifest_path: join_path(base.as_str(), "entries.json"),
        thumbnails_dir: base,
        renderer_process: String::from_str("WallpaperAerialsExtension"),
        agent_process: String::from_str("WallpaperAgent"),
        requires_elevation: false,
    }
}

fn system_candidate(version: &MacOSVersion) -> (c: StorageCandidate)
    ensures
        c@ == system_store(version@),
{
    store_candidate(
        "/Library/Application Support/com.apple.idleassetsd/Customer",
        "4KSDR240FPS",
        "entries.json",
        version,
        true,
    )
}

fn legacy_user_candidate(home: &str, version: &MacOSVersion) -> (c: StorageCandidate)
    ensures
        c@ == legacy_user_store(home@, version@),
{
    let base = join_path(home, "Library/Application Support/com.apple.idleassetsd/Customer");
    store_candidate(base.as_str(), "4KSDR240FPS", "entries.json", version, false)
}

} // verus!
