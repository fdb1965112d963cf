use livewall::commands::pipeline::{Pipeline, PipelineAction, Stage};
use livewall::commands::install::{install_target, is_workflow_bundle, quick_actions_source, services_dir};
use livewall::commands::list::execute_list;
use livewall::commands::remove::{execute_remove, RemoveOutcome};
use livewall::commands::set::{classify_extension, execute_set, execute_set_parts, extension_kind, plan_named, plan_set, video_kind, SetError, VideoKind};
use livewall::manifest::{Manifest, ManifestEntry};
use livewall::path_resolver::{MacOSVersion, ResolvedPaths};

fn resolved() -> ResolvedPaths {
    ResolvedPaths {
        videos_dir: "/h/aerials/videos".to_string(),
        manifest_path: "/h/aerials/manifest/entries.json".to_string(),
        thumbnails_dir: "/h/aerials/thumbnails".to_string(),
        renderer_process: "WallpaperAerialsExtension".to_string(),
        agent_process: "WallpaperAgent".to_string(),
        requires_elevation: false,
        macos_version: MacOSVersion::Tahoe,
    }
}

fn apple_entry(id: &str) -> ManifestEntry {
    ManifestEntry {
        accessibility_label: "Sea".to_string(),
        categories: vec![],
        id: id.to_string(),
        include_in_shuffle: true,
        localized_name_key: "AerialSea".to_string(),
        points_of_interest: "{}".to_string(),
        preferred_order: 3,
        preview_image: "p.jpg".to_string(),
        shot_id: "SEA_1".to_string(),
        show_in_top_level: false,
        subcategories: vec![],
        url: "https://sylvan.apple.com/v.mov".to_string(),
        source: Some("apple".to_string()),
    }
}

const ID: &str = "0f3c2a1e-9b7d-4c5e-8a6f-1234567890ab";

#[test]
fn list_without_own_entries() {
    let m = Manifest { entries: vec![apple_entry("a")] };
    assert_eq!(execute_list(&m), vec!["No custom live wallpapers found.".to_string()]);
}

#[test]
fn list_table() {
    let mut m = Manifest { entries: vec![apple_entry("a")] };
    m.add_entry(Manifest::create_entry(ID, "clip.mp4", "file:///x", &format!("{}.png", ID)));
    let lines = execute_list(&m);
    assert_eq!(lines.len(), 3);
    assert_eq!(lines[0], format!("{:<40} {:<30} {:<20}", "ID", "Name", "File"));
    assert_eq!(lines[1], "-".repeat(90));
    assert_eq!(lines[2], format!("{:<40} {:<30} {:<20}", ID, "clip.mp4", format!("{}.png", ID)));
}

#[test]
fn list_pads_by_characters() {
    let mut m = Manifest { entries: vec![] };
    m.add_entry(Manifest::create_entry(ID, "été", "u", "t"));
    let lines = execute_list(&m);
    assert_eq!(lines[2], format!("{:<40} {:<30} {:<20}", ID, "été", "t"));
}

#[test]
fn remove_own_wallpaper() {
    let mut m = Manifest { entries: vec![apple_entry("a")] };
    m.add_entry(Manifest::create_entry(ID, "clip.mp4", "u", "t"));
    let out = execute_remove(&mut m, &resolved(), ID);
    assert_eq!(
        out,
        RemoveOutcome::Removed {
            label: "clip.mp4".to_string(),
            video_path: format!("/h/aerials/videos/{}.mov", ID),
            thumbnail_path: format!("/h/aerials/thumbnails/{}.png", ID),
        }
    );
    assert_eq!(m.entries, vec![apple_entry("a")]);
}

#[test]
fn remove_refuses_foreign_entry() {
    let mut m = Manifest { entries: vec![apple_entry("a")] };
    assert_eq!(execute_remove(&mut m, &resolved(), "a"), RemoveOutcome::NotFound);
    assert_eq!(m.entries, vec![apple_entry("a")]);
    assert_eq!(execute_remove(&mut m, &resolved(), "missing"), RemoveOutcome::NotFound);
}

#[test]
fn extension_classes() {
    assert_eq!(classify_extension("mp4".to_string()), Ok(VideoKind::Mp4));
    assert_eq!(classify_extension("mov".to_string()), Ok(VideoKind::Mov));
    let e = classify_extension("avi".to_string()).unwrap_err();
    assert_eq!(e, SetError::UnsupportedType("avi".to_string()));
    assert_eq!(e.message(), "Unsupported file type: avi. Use .mp4 or .mov");
}

#[test]
fn video_kind_ignores_case() {
    assert_eq!(video_kind("/v/Clip.MP4"), Ok(VideoKind::Mp4));
    assert_eq!(video_kind("/v/clip.MoV"), Ok(VideoKind::Mov));
    assert_eq!(video_kind("/v/clip.AVI"), Err(SetError::UnsupportedType("avi".to_string())));
    let e = video_kind("/v/clip").unwrap_err();
    assert_eq!(e, SetError::NoExtension);
    assert_eq!(e.message(), "File has no extension");
}

#[test]
fn plan_for_fixed_id() {
    let p = plan_set(&resolved(), "/Movies/My clip.mp4", VideoKind::Mp4, ID, true);
    assert_eq!(p.id, ID);
    assert_eq!(p.name, "My clip.mp4");
    assert_eq!(p.kind, VideoKind::Mp4);
    assert_eq!(p.video_path, format!("/h/aerials/videos/{}.mov", ID));
    assert_eq!(p.thumbnail_path, format!("/h/aerials/thumbnails/{}.png", ID));
    assert_eq!(p.thumbnail_name, format!("{}.png", ID));
    assert_eq!(p.video_url, format!("file:///h/aerials/videos/{}.mov", ID));
    assert_eq!(p.settings_panel, "x-apple.systempreferences:com.apple.preference.desktopscreeneffect");
    assert_eq!(p.success_message, "Live wallpaper set successfully!");
    let q = plan_set(&resolved(), "/", VideoKind::Mov, ID, false);
    assert_eq!(q.name, "video");
    assert_eq!(q.settings_panel, "x-apple.systempreferences:com.apple.preference.desktopscreeneffect?ScreenSaver");
    assert_eq!(q.success_message, "Screensaver set successfully!");
    assert_ne!(p.settings_panel, q.settings_panel);
}

#[test]
fn set_makes_fresh_uuid_plan() {
    let p = execute_set(&resolved(), "/Movies/clip.MP4", false).unwrap();
    assert_eq!(p.kind, VideoKind::Mp4);
    assert_eq!(p.id.len(), 36);
    let bytes = p.id.as_bytes();
    for (i, b) in bytes.iter().enumerate() {
        if i == 8 || i == 13 || i == 18 || i == 23 {
            assert_eq!(*b, b'-');
        } else {
            assert!(b.is_ascii_digit() || (b'a'..=b'f').contains(b));
        }
    }
    assert_eq!(bytes[14], b'4');
    assert!(matches!(bytes[19], b'8' | b'9' | b'a' | b'b'));
    let q = execute_set(&resolved(), "/Movies/clip.MP4", false).unwrap();
    assert_ne!(p.id, q.id);
    assert_eq!(p.video_path, format!("/h/aerials/videos/{}.mov", p.id));
}

#[test]
fn set_refuses_other_types() {
    assert_eq!(execute_set(&resolved(), "/Movies/clip.gif", true), Err(SetError::UnsupportedType("gif".to_string())));
    assert_eq!(execute_set(&resolved(), "/Movies/.mp4", true), Err(SetError::NoExtension));
}

#[test]
fn registered_entry_is_listed_and_removable() {
    let p = execute_set(&resolved(), "/Movies/clip.mov", true).unwrap();
    let mut m = Manifest { entries: vec![apple_entry("a")] };
    p.register(&mut m);
    let e = m.entries.last().unwrap().clone();
    assert_eq!(e.url, p.video_url);
    assert_eq!(e.preview_image, p.thumbnail_name);
    assert_eq!(e.shot_id, format!("LW_{}", &p.id[..8]));
    assert_eq!(execute_list(&m).len(), 3);
    assert!(matches!(execute_remove(&mut m, &resolved(), &p.id), RemoveOutcome::Removed { .. }));
    assert_eq!(m.entries, vec![apple_entry("a")]);
}

#[test]
fn install_helpers() {
    assert_eq!(quick_actions_source(true), "quick-actions");
    assert_eq!(quick_actions_source(false), "../quick-actions");
    assert_eq!(services_dir("/Users/me"), "/Users/me/Library/Services");
    assert!(is_workflow_bundle("quick-actions/SetAsLiveWallpaper.workflow"));
    assert!(!is_workflow_bundle("quick-actions/README.md"));
    assert!(!is_workflow_bundle("quick-actions/.workflow"));
    assert_eq!(
        install_target("/Users/me/Library/Services", "quick-actions/SetAsScreensaver.workflow"),
        Some("/Users/me/Library/Services/SetAsScreensaver.workflow".to_string())
    );
    assert_eq!(install_target("/s", ".."), None);
}

#[test]
fn set_from_path_parts() {
    let p = execute_set_parts(&resolved(), None, Some("MP4"), true).unwrap();
    assert_eq!(p.name, "video");
    assert_eq!(p.kind, VideoKind::Mp4);
    assert_eq!(p.video_path, format!("/h/aerials/videos/{}.mov", p.id));
    let q = execute_set_parts(&resolved(), Some("clip.mov"), Some("mov"), false).unwrap();
    assert_eq!(q.name, "clip.mov");
    assert_eq!(q.settings_panel, "x-apple.systempreferences:com.apple.preference.desktopscreeneffect?ScreenSaver");
    assert_eq!(execute_set_parts(&resolved(), Some("clip"), None, true).unwrap_err(), SetError::NoExtension);
    assert_eq!(
        execute_set_parts(&resolved(), Some("clip.Gif"), Some("Gif"), true).unwrap_err(),
        SetError::UnsupportedType("gif".to_string())
    );
}

#[test]
fn extension_kind_ignores_case() {
    assert_eq!(extension_kind(Some("MOV")), Ok(VideoKind::Mov));
    assert_eq!(extension_kind(Some("mp4")), Ok(VideoKind::Mp4));
    assert_eq!(extension_kind(None), Err(SetError::NoExtension));
    assert_eq!(extension_kind(Some("")), Err(SetError::UnsupportedType(String::new())));
}

#[test]
fn named_plan_keeps_name() {
    let p = plan_named(&resolved(), "Beach", VideoKind::Mov, ID, true);
    assert_eq!(p.name, "Beach");
    assert_eq!(p, plan_set(&resolved(), "/x/Beach", VideoKind::Mov, ID, true));
}

#[test]
fn set_pipeline_runs_stages_in_order() {
    let mut p = Pipeline::for_set(VideoKind::Mp4);
    let mut seen = Vec::new();
    loop {
        match p.step(&Ok(())) {
            PipelineAction::Run(s) => seen.push(s),
            PipelineAction::Done(r) => {
                assert_eq!(r, Ok(()));
                break;
            }
        }
    }
    assert_eq!(
        seen,
        vec![
            Stage::MakeVideosDir,
            Stage::TranscodeVideo,
            Stage::MakeThumbnailsDir,
            Stage::ExtractThumbnail,
            Stage::PatchManifest,
            Stage::RestartDaemons,
            Stage::OpenSettings,
        ]
    );
    assert_eq!(p.step(&Err("late".to_string())), PipelineAction::Done(Ok(())));
    let mut q = Pipeline::for_set(VideoKind::Mov);
    assert_eq!(q.step(&Ok(())), PipelineAction::Run(Stage::MakeVideosDir));
    assert_eq!(q.step(&Ok(())), PipelineAction::Run(Stage::CopyVideo));
}

#[test]
fn law_failure_stops_on_values() {
    let mut p = Pipeline::for_set(VideoKind::Mov);
    assert_eq!(p.step(&Ok(())), PipelineAction::Run(Stage::MakeVideosDir));
    assert_eq!(p.step(&Ok(())), PipelineAction::Run(Stage::CopyVideo));
    let failed = PipelineAction::Done(Err("Failed to copy video file".to_string()));
    assert_eq!(p.step(&Err("Failed to copy video file".to_string())), failed);
    assert_eq!(p.step(&Ok(())), failed);
}

#[test]
fn remove_pipeline_tolerates_file_deletion() {
    let mut p = Pipeline::for_remove();
    assert_eq!(p.step(&Ok(())), PipelineAction::Run(Stage::SaveManifest));
    assert_eq!(p.step(&Ok(())), PipelineAction::Run(Stage::DeleteVideo));
    assert_eq!(p.step(&Err("busy".to_string())), PipelineAction::Run(Stage::DeleteThumbnail));
    assert_eq!(p.step(&Err("gone".to_string())), PipelineAction::Run(Stage::RestartDaemons));
    assert_eq!(p.step(&Err("killall".to_string())), PipelineAction::Done(Err("killall".to_string())));
    let mut q = Pipeline::for_remove();
    assert_eq!(q.step(&Ok(())), PipelineAction::Run(Stage::SaveManifest));
    assert_eq!(q.step(&Err("disk full".to_string())), PipelineAction::Done(Err("disk full".to_string())));
}
