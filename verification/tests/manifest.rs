use livewall::manifest::{is_livewall_entry, Manifest, ManifestEntry};

fn apple_entry(id: &str) -> ManifestEntry {
    ManifestEntry {
        accessibility_label: "Sea".to_string(),
        categories: vec!["cat".to_string()],
        id: id.to_string(),
        include_in_shuffle: true,
        localized_name_key: "AerialSea".to_string(),
        points_of_interest: "{\"0\":\"x\"}".to_string(),
        preferred_order: 3,
        preview_image: "https://example/p.jpg".to_string(),
        shot_id: "SEA_1".to_string(),
        show_in_top_level: false,
        subcategories: vec![],
        url: "https://sylvan.apple.com/v.mov".to_string(),
        source: None,
    }
}

const ID: &str = "0f3c2a1e-9b7d-4c5e-8a6f-1234567890ab";

#[test]
fn created_entry_fields() {
    let e = Manifest::create_entry(ID, "clip.mp4", "file:///v/x.mov", "x.png");
    assert_eq!(e.accessibility_label, "clip.mp4");
    assert!(e.categories.is_empty());
    assert_eq!(e.id, ID);
    assert!(e.include_in_shuffle);
    assert_eq!(e.localized_name_key, format!("LIVEWALL_{}", ID));
    assert_eq!(e.points_of_interest, "{}");
    assert_eq!(e.preferred_order, 99999);
    assert_eq!(e.preview_image, "x.png");
    assert_eq!(e.shot_id, "LW_0f3c2a1e");
    assert!(e.show_in_top_level);
    assert!(e.subcategories.is_empty());
    assert_eq!(e.url, "file:///v/x.mov");
    assert_eq!(e.source, Some("livewall".to_string()));
    assert!(is_livewall_entry(&e));
}

#[test]
fn shot_id_cuts_bytes() {
    let e = Manifest::create_entry("ééééxyz-rest", "n", "u", "t");
    assert_eq!(e.shot_id, "LW_éééé");
}

#[test]
fn add_appends() {
    let mut m = Manifest { entries: vec![apple_entry("a")] };
    let e = Manifest::create_entry(ID, "clip", "u", "t");
    m.add_entry(e.clone());
    assert_eq!(m.entries.len(), 2);
    assert_eq!(m.entries[1], e);
    assert_eq!(m.entries[0], apple_entry("a"));
}

#[test]
fn remove_drops_every_entry_with_id() {
    let mut m = Manifest { entries: vec![apple_entry("a"), apple_entry("b"), apple_entry("a"), apple_entry("c")] };
    assert!(m.remove_entry("a"));
    assert_eq!(m.entries, vec![apple_entry("b"), apple_entry("c")]);
    assert!(!m.remove_entry("zzz"));
    assert_eq!(m.entries, vec![apple_entry("b"), apple_entry("c")]);
}

#[test]
fn law_remove_undoes_add_on_values() {
    let original = Manifest { entries: vec![apple_entry("a"), apple_entry("b")] };
    let mut m = original.clone();
    m.add_entry(Manifest::create_entry(ID, "clip", "u", "t"));
    assert!(m.remove_entry(ID));
    assert_eq!(m, original);
}

#[test]
fn law_remove_is_complete_on_values() {
    let mut m = Manifest { entries: vec![apple_entry("x"), apple_entry("y"), apple_entry("x")] };
    m.remove_entry("x");
    assert!(m.entries.iter().all(|e| e.id != "x"));
    assert!(m.entries.contains(&apple_entry("y")));
}

#[test]
fn find_own_entry() {
    let mut m = Manifest { entries: vec![apple_entry(ID)] };
    assert_eq!(m.find_livewall_entry(ID), None);
    m.add_entry(Manifest::create_entry(ID, "clip", "u", "t"));
    assert_eq!(m.find_livewall_entry(ID), Some(1));
    assert_eq!(m.find_livewall_entry("other"), None);
}

#[test]
fn backup_path_swaps_extension() {
    assert_eq!(
        Manifest::backup_path("/Users/me/Library/Application Support/com.apple.wallpaper/aerials/manifest/entries.json", 1712345678000),
        "/Users/me/Library/Application Support/com.apple.wallpaper/aerials/manifest/entries.1712345678000.bak"
    );
    assert_eq!(Manifest::backup_path("/m/entries.json", 0), "/m/entries.0.bak");
    assert_eq!(Manifest::backup_path("/m/entries", 7), "/m/entries.7.bak");
}

#[test]
fn law_backups_are_distinct_on_values() {
    let a = Manifest::backup_path("/m/entries.json", 1712345678000);
    let b = Manifest::backup_path("/m/entries.json", 1712345678001);
    let c = Manifest::backup_path("/m/entries.json", u64::MAX);
    assert_ne!(a, b);
    assert_ne!(a, c);
    assert_ne!(b, c);
    assert_eq!(c, "/m/entries.18446744073709551615.bak");
}

#[test]
fn staging_path_sits_beside_manifest() {
    assert_eq!(Manifest::staging_path("/m/manifest/entries.json"), "/m/manifest/entries.tmp");
}

#[test]
fn law_added_entry_is_listed_on_values() {
    let mut m = Manifest { entries: vec![apple_entry("a")] };
    let e = Manifest::create_entry(ID, "clip", "u", "t");
    m.add_entry(e.clone());
    let own: Vec<&ManifestEntry> = m.entries.iter().filter(|x| is_livewall_entry(x)).collect();
    assert_eq!(own, vec![&e]);
}
