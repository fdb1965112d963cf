use livewall::path_resolver::{Discovery, MacOSVersion, PathResolver, ResolveError, ResolvedPaths};

const NOT_FOUND_TEXT: &str = "LiveWall could not locate wallpaper storage on this system.\nTo see where your Mac keeps it, run: ls ~/Library/Application\\ Support/com.apple*\nPlease report the output at https://github.com/Maaagggi/livewall/issues/new";

fn nothing_found() -> Discovery {
    Discovery { open_files: Vec::new(), agent_containers: Vec::new(), movie_dirs: Vec::new() }
}

fn strings(items: &[&str]) -> Vec<String> {
    items.iter().map(|s| s.to_string()).collect()
}

fn sonoma_system() -> ResolvedPaths {
    ResolvedPaths {
        videos_dir: "/Library/Application Support/com.apple.idleassetsd/Customer/4KSDR240FPS".to_string(),
        manifest_path: "/Library/Application Support/com.apple.idleassetsd/Customer/entries.json".to_string(),
        thumbnails_dir: "/Library/Application Support/com.apple.idleassetsd/Customer/thumbnails".to_string(),
        renderer_process: "WallpaperAerialExtension".to_string(),
        agent_process: "idleassetsd".to_string(),
        requires_elevation: true,
        macos_version: MacOSVersion::Sonoma,
    }
}

#[test]
fn version_report_names_release() {
    assert_eq!(PathResolver::get_macos_version("14.5\n"), MacOSVersion::Sonoma);
    assert_eq!(PathResolver::get_macos_version("15.0.1"), MacOSVersion::Sequoia);
    assert_eq!(PathResolver::get_macos_version("  26.4\n"), MacOSVersion::Tahoe);
    assert_eq!(PathResolver::get_macos_version("14"), MacOSVersion::Sonoma);
    assert_eq!(PathResolver::get_macos_version("+15.2"), MacOSVersion::Sequoia);
}

#[test]
fn version_report_unsupported_keeps_trimmed_text() {
    assert_eq!(
        PathResolver::get_macos_version("13.6.1\n"),
        MacOSVersion::Unsupported("13.6.1".to_string())
    );
    assert_eq!(
        PathResolver::get_macos_version("\t garbage \u{3000}"),
        MacOSVersion::Unsupported("garbage".to_string())
    );
    assert_eq!(PathResolver::get_macos_version(""), MacOSVersion::Unsupported(String::new()));
    assert_eq!(
        PathResolver::get_macos_version("4294967310.1"),
        MacOSVersion::Unsupported("4294967310.1".to_string())
    );
    assert_eq!(
        PathResolver::get_macos_version("-14.0"),
        MacOSVersion::Unsupported("-14.0".to_string())
    );
    assert_eq!(
        PathResolver::get_macos_version("014.0"),
        MacOSVersion::Sonoma
    );
}

#[test]
fn unsupported_release_is_refused_with_message() {
    let r = PathResolver::resolve("12.7\n", Some("/Users/me"), &nothing_found(), &vec![true, true]);
    let e = r.unwrap_err();
    assert_eq!(e, ResolveError::Unsupported("12.7".to_string()));
    assert_eq!(
        e.message(),
        "LiveWall requires macOS Sonoma (14) or later.\nVideo wallpapers were introduced in macOS Sonoma.\nYour Mac is running macOS 12.7. Please upgrade to use LiveWall."
    );
}

#[test]
fn tahoe_user_store_is_found() {
    let r = PathResolver::resolve("26.4", Some("/Users/me"), &nothing_found(), &vec![true]).unwrap();
    assert_eq!(
        r,
        ResolvedPaths {
            videos_dir: "/Users/me/Library/Application Support/com.apple.wallpaper/aerials/videos".to_string(),
            manifest_path: "/Users/me/Library/Application Support/com.apple.wallpaper/aerials/manifest/entries.json".to_string(),
            thumbnails_dir: "/Users/me/Library/Application Support/com.apple.wallpaper/aerials/thumbnails".to_string(),
            renderer_process: "WallpaperAerialsExtension".to_string(),
            agent_process: "WallpaperAgent".to_string(),
            requires_elevation: false,
            macos_version: MacOSVersion::Tahoe,
        }
    );
}

#[test]
fn tahoe_without_manifest_is_not_found() {
    let e = PathResolver::resolve("26.0", Some("/Users/me"), &nothing_found(), &vec![false]).unwrap_err();
    assert_eq!(e, ResolveError::NotFound);
    assert_eq!(e.message(), NOT_FOUND_TEXT);
    let e = PathResolver::resolve("26.0", Some("/Users/me"), &nothing_found(), &vec![]).unwrap_err();
    assert_eq!(e, ResolveError::NotFound);
}

#[test]
fn sonoma_system_store_wins() {
    let r = PathResolver::resolve("14.2.1", Some("/Users/me"), &nothing_found(), &vec![true, true]).unwrap();
    assert_eq!(r, sonoma_system());
}

#[test]
fn sequoia_falls_back_to_user_store() {
    let r = PathResolver::resolve("15.1", Some("/Users/me/"), &nothing_found(), &vec![false, true]).unwrap();
    assert_eq!(
        r.manifest_path,
        "/Users/me/Library/Application Support/com.apple.idleassetsd/Customer/entries.json"
    );
    assert_eq!(
        r.videos_dir,
        "/Users/me/Library/Application Support/com.apple.idleassetsd/Customer/4KSDR240FPS"
    );
    assert!(!r.requires_elevation);
    assert_eq!(r.macos_version, MacOSVersion::Sequoia);
    assert_eq!(r.agent_process, "idleassetsd");
}

#[test]
fn missing_home_means_not_found() {
    let e = PathResolver::resolve("14.0", None, &nothing_found(), &vec![true, true]).unwrap_err();
    assert_eq!(e, ResolveError::NotFound);
}

#[test]
fn priority_strategy_errors() {
    let e = PathResolver::strategy_priority_paths(&MacOSVersion::Sonoma, None, &Vec::new(), &vec![true]).unwrap_err();
    assert_eq!(e, ResolveError::HomeNotSet);
    assert_eq!(e.message(), "HOME environment variable not set");
    let e = PathResolver::strategy_priority_paths(&MacOSVersion::Tahoe, Some("/h"), &Vec::new(), &vec![false]).unwrap_err();
    assert_eq!(e, ResolveError::TahoePathsNotFound);
    assert_eq!(e.message(), "Tahoe paths not found");
    let e = PathResolver::strategy_priority_paths(&MacOSVersion::Sonoma, Some("/h"), &Vec::new(), &vec![false, false]).unwrap_err();
    assert_eq!(e, ResolveError::SonomaPathsNotFound);
    assert_eq!(e.message(), "Sonoma/Sequoia paths not found");
    let e = PathResolver::strategy_priority_paths(
        &MacOSVersion::Unsupported("13.0".to_string()),
        Some("/h"),
        &Vec::new(),
        &vec![true],
    )
    .unwrap_err();
    assert_eq!(e, ResolveError::UnsupportedOs);
    assert_eq!(e.message(), "Unsupported OS");
}

#[test]
fn candidates_in_priority_order() {
    let c = PathResolver::candidates(&MacOSVersion::Sequoia, Some("/Users/me"), &nothing_found());
    assert_eq!(c.len(), 2);
    assert!(c[0].requires_elevation);
    assert_eq!(c[0].manifest_path, "/Library/Application Support/com.apple.idleassetsd/Customer/entries.json");
    assert!(!c[1].requires_elevation);
    assert_eq!(c[1].thumbnails_dir, "/Users/me/Library/Application Support/com.apple.idleassetsd/Customer/thumbnails");
    assert_eq!(PathResolver::candidates(&MacOSVersion::Tahoe, Some("/Users/me"), &nothing_found()).len(), 1);
    assert!(PathResolver::candidates(&MacOSVersion::Unsupported("1".to_string()), Some("/h"), &nothing_found()).is_empty());
    assert!(PathResolver::candidates(&MacOSVersion::Sonoma, None, &nothing_found()).is_empty());
}

#[test]
fn law_version_gate_on_values() {
    for report in ["13.0", "11.7.10", "x", ""] {
        assert!(matches!(
            PathResolver::resolve(report, Some("/h"), &nothing_found(), &vec![true, true]),
            Err(ResolveError::Unsupported(_))
        ));
        assert!(PathResolver::is_refused(report));
    }
    for report in ["14.0", "15.3", "26.1"] {
        assert!(PathResolver::resolve(report, Some("/h"), &nothing_found(), &vec![true, true]).is_ok());
        assert!(!PathResolver::is_refused(report));
    }
    for report in ["27.0", "16.0"] {
        assert!(!PathResolver::is_refused(report));
        assert_eq!(
            PathResolver::resolve(report, Some("/h"), &nothing_found(), &vec![true, true]),
            Err(ResolveError::NotFound)
        );
    }
}

#[test]
fn law_elevation_by_location_on_values() {
    let user = PathResolver::resolve("14.0", Some("/h"), &nothing_found(), &vec![false, true]).unwrap();
    assert!(!user.requires_elevation);
    let tahoe = PathResolver::resolve("26.0", Some("/h"), &nothing_found(), &vec![true, true]).unwrap();
    assert!(!tahoe.requires_elevation);
    let system = PathResolver::resolve("15.0", Some("/h"), &nothing_found(), &vec![true, false]).unwrap();
    assert!(system.requires_elevation);
    assert_eq!(system.manifest_path, sonoma_system().manifest_path);
}

#[test]
fn version_duplicate_is_equal() {
    let v = MacOSVersion::Unsupported("13.1".to_string());
    assert_eq!(v.duplicate(), v);
}

#[test]
fn later_release_goes_on_to_discovery() {
    let d = Discovery {
        open_files: Vec::new(),
        agent_containers: Vec::new(),
        movie_dirs: strings(&["/Users/me/Library/Application Support/com.apple.wallpaper/aerials/videos"]),
    };
    let r = PathResolver::resolve("27.0\n", Some("/Users/me"), &d, &vec![true]).unwrap();
    assert_eq!(r.macos_version, MacOSVersion::Unsupported("27.0".to_string()));
    assert_eq!(
        r.manifest_path,
        "/Users/me/Library/Application Support/com.apple.wallpaper/aerials/manifest/entries.json"
    );
    assert_eq!(r.renderer_process, "WallpaperAerialsExtension");
    assert_eq!(r.agent_process, "WallpaperAgent");
    assert!(!r.requires_elevation);
}

#[test]
fn tahoe_falls_back_to_agent_container() {
    let rel = "Data/Library/Application Support/extension-com.apple.wallpaper.extension.aerials";
    let d = Discovery { open_files: Vec::new(), agent_containers: strings(&[rel]), movie_dirs: Vec::new() };
    let base = format!("/Users/me/Library/Containers/com.apple.wallpaper.agent/{}", rel);
    let r = PathResolver::resolve("26.4", Some("/Users/me"), &d, &vec![false, true]).unwrap();
    assert_eq!(
        r,
        ResolvedPaths {
            videos_dir: format!("{}/videos", base),
            manifest_path: format!("{}/manifest/entries.json", base),
            thumbnails_dir: format!("{}/thumbnails", base),
            renderer_process: "WallpaperAerialsExtension".to_string(),
            agent_process: "WallpaperAgent".to_string(),
            requires_elevation: false,
            macos_version: MacOSVersion::Tahoe,
        }
    );
    let p = PathResolver::strategy_priority_paths(
        &MacOSVersion::Tahoe,
        Some("/Users/me"),
        &strings(&[rel]),
        &vec![false, true],
    )
    .unwrap();
    assert_eq!(p, r);
    assert_eq!(
        PathResolver::strategy_priority_paths(&MacOSVersion::Tahoe, Some("/Users/me"), &strings(&[rel]), &vec![false, false, false]),
        Err(ResolveError::TahoePathsNotFound)
    );
}

#[test]
fn tahoe_falls_back_to_flat_agent_container() {
    let rel = "Data/Library/extension-com.apple.wallpaper.extension.aerials";
    let d = Discovery { open_files: Vec::new(), agent_containers: strings(&["other", rel]), movie_dirs: Vec::new() };
    let c = PathResolver::candidates(&MacOSVersion::Tahoe, Some("/Users/me"), &d);
    assert_eq!(c.len(), 5);
    let base = format!("/Users/me/Library/Containers/com.apple.wallpaper.agent/{}", rel);
    let r = PathResolver::resolve("26.1", Some("/Users/me"), &d, &vec![false, false, false, false, true]).unwrap();
    assert_eq!(
        r,
        ResolvedPaths {
            videos_dir: base.clone(),
            manifest_path: format!("{}/entries.json", base),
            thumbnails_dir: base.clone(),
            renderer_process: "WallpaperAerialsExtension".to_string(),
            agent_process: "WallpaperAgent".to_string(),
            requires_elevation: false,
            macos_version: MacOSVersion::Tahoe,
        }
    );
    let nested = PathResolver::resolve("26.1", Some("/Users/me"), &d, &vec![false, false, false, true, true]).unwrap();
    assert_eq!(nested.manifest_path, format!("{}/manifest/entries.json", base));
}

#[test]
fn lsof_strategy_uses_renderer_video() {
    let lines = strings(&[
        "p4242",
        "f12",
        "n/System/Library/Frameworks/AVFoundation.framework",
        "n/Library/Application Support/com.apple.idleassetsd/Customer/4KSDR240FPS/ABC.mov",
        "n/tmp/other.mov",
    ]);
    let r = PathResolver::strategy_lsof(&MacOSVersion::Sonoma, &lines, &vec![true]).unwrap();
    assert_eq!(r, sonoma_system());
    let e = PathResolver::strategy_lsof(&MacOSVersion::Sonoma, &lines, &vec![false]).unwrap_err();
    assert_eq!(e, ResolveError::NoOpenVideo);
    assert_eq!(e.message(), "The running wallpaper renderer has no video open");
    let e = PathResolver::strategy_lsof(&MacOSVersion::Sonoma, &strings(&["p1", "n/dev/null"]), &vec![true]).unwrap_err();
    assert_eq!(e, ResolveError::NoOpenVideo);
}

#[test]
fn lsof_store_comes_first() {
    let d = Discovery {
        open_files: strings(&["p7", "n/Users/me/Library/Application Support/com.apple.wallpaper/aerials/videos/X.mov"]),
        agent_containers: Vec::new(),
        movie_dirs: Vec::new(),
    };
    let c = PathResolver::candidates(&MacOSVersion::Tahoe, Some("/Users/me"), &d);
    assert_eq!(c.len(), 2);
    assert_eq!(c[0].manifest_path, c[1].manifest_path);
    let r = PathResolver::resolve("26.0", Some("/Users/me"), &d, &vec![true, true]).unwrap();
    assert_eq!(r.videos_dir, "/Users/me/Library/Application Support/com.apple.wallpaper/aerials/videos");
}

#[test]
fn search_strategy_uses_movie_dirs() {
    let dirs = strings(&["/", "/Users/me/Library/Stuff/clips", "/Library/Application Support/com.apple.idleassetsd/Customer/2KSDR240FPS"]);
    let c = PathResolver::search_candidates(&MacOSVersion::Sequoia, &dirs);
    assert_eq!(c.len(), 2);
    assert_eq!(c[0].manifest_path, "/Users/me/Library/Stuff/entries.json");
    assert!(!c[0].requires_elevation);
    let r = PathResolver::strategy_search(&MacOSVersion::Sequoia, &dirs, &vec![false, true]).unwrap();
    assert_eq!(r.videos_dir, "/Library/Application Support/com.apple.idleassetsd/Customer/2KSDR240FPS");
    assert_eq!(r.manifest_path, "/Library/Application Support/com.apple.idleassetsd/Customer/entries.json");
    assert!(r.requires_elevation);
    let e = PathResolver::strategy_search(&MacOSVersion::Sequoia, &dirs, &vec![false, false]).unwrap_err();
    assert_eq!(e, ResolveError::NoStoredVideos);
    assert_eq!(e.message(), "No UUID-named wallpaper videos were found");
}

#[test]
fn not_found_message_has_diagnostics() {
    let m = ResolveError::NotFound.message();
    assert!(m.contains("ls ~/Library/Application\\ Support/com.apple*"));
    assert!(m.contains("https://github.com/"));
    assert!(m.contains("/issues/new"));
}

#[test]
fn first_pid_reads_first_line() {
    assert_eq!(PathResolver::first_pid("4242\n5151\n"), Some(4242));
    assert_eq!(PathResolver::first_pid("  17 \n"), Some(17));
    assert_eq!(PathResolver::first_pid(""), None);
    assert_eq!(PathResolver::first_pid("abc\n12"), None);
}

#[test]
fn uuid_movie_names() {
    assert!(PathResolver::is_uuid_movie("0A1B2C3D-4E5F-6a7b-8c9d-0123456789ab.mov"));
    assert!(!PathResolver::is_uuid_movie("0A1B2C3D-4E5F-6a7b-8c9d-0123456789ab.MOV"));
    assert!(!PathResolver::is_uuid_movie("0A1B2C3D_4E5F-6a7b-8c9d-0123456789ab.mov"));
    assert!(!PathResolver::is_uuid_movie("0A1B2C3D-4E5F-6a7b-8c9d-0123456789ag.mov"));
    assert!(!PathResolver::is_uuid_movie("clip.mov"));
}

#[test]
fn aerials_container_name() {
    assert!(PathResolver::is_aerials_container("extension-com.apple.wallpaper.extension.aerials"));
    assert!(!PathResolver::is_aerials_container("extension-com.apple.wallpaper.extension.image"));
}

#[test]
fn renderer_processes_in_order() {
    assert_eq!(
        PathResolver::renderer_processes(),
        strings(&["WallpaperAerialsExtension", "WallpaperAerialExtension", "idleassetsd"])
    );
}
