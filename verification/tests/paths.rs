use livewall::paths::{extension_of, file_name_of, join_path, replace_extension};

#[test]
fn join_adds_one_separator() {
    assert_eq!(join_path("/Users/me", "Library"), "/Users/me/Library");
    assert_eq!(join_path("/Users/me/", "Library"), "/Users/me/Library");
    assert_eq!(join_path("", "Library"), "Library");
    assert_eq!(join_path("a", ""), "a/");
}

#[test]
fn join_with_absolute_replaces() {
    assert_eq!(join_path("/Users/me", "/etc/x.mov"), "/etc/x.mov");
}

#[test]
fn file_names() {
    assert_eq!(file_name_of("/a/b/clip.mp4"), Some("clip.mp4".to_string()));
    assert_eq!(file_name_of("clip.mp4"), Some("clip.mp4".to_string()));
    assert_eq!(file_name_of("/a/b/"), Some("b".to_string()));
    assert_eq!(file_name_of("/a/b/."), Some("b".to_string()));
    assert_eq!(file_name_of("/a/b//./"), Some("b".to_string()));
    assert_eq!(file_name_of("/a/.."), None);
    assert_eq!(file_name_of("/"), None);
    assert_eq!(file_name_of(""), None);
    assert_eq!(file_name_of("."), None);
}

#[test]
fn extensions() {
    assert_eq!(extension_of("/a/clip.MP4"), Some("MP4".to_string()));
    assert_eq!(extension_of("/a/clip.tar.gz"), Some("gz".to_string()));
    assert_eq!(extension_of("/a/.bashrc"), None);
    assert_eq!(extension_of("/a/noext"), None);
    assert_eq!(extension_of("/a/trailing."), Some(String::new()));
    assert_eq!(extension_of("/a/x.workflow/"), Some("workflow".to_string()));
    assert_eq!(extension_of("/a.b/c"), None);
}

#[test]
fn replaced_extensions() {
    assert_eq!(replace_extension("/x/entries.json", "bak"), "/x/entries.bak");
    assert_eq!(replace_extension("/x/entries", "bak"), "/x/entries.bak");
    assert_eq!(replace_extension("/x/.hidden", "bak"), "/x/.hidden.bak");
    assert_eq!(replace_extension("/x/entries.json/", "bak"), "/x/entries.bak");
    assert_eq!(replace_extension("/x/a.b.c", ""), "/x/a.b");
    assert_eq!(replace_extension("/", "bak"), "/");
}

const CORPUS: &[&str] = &[
    "", "/", "//", ".", "..", "./", "../", "a", "a/", "a/.", "a/..", "/a/b/c.mp4", "c.MOV",
    ".bashrc", "a/.bashrc", "a.b.c", "a.", "a..", "..a", "/x/y.z/", "/x/y.z/./", "x//y.mp4",
    "./clip.mp4", "/Users/me/Movies/My clip.mp4", "é/ü.MOV", "a/b/..", "dir.workflow",
    "quick-actions/SetAsLiveWallpaper.workflow", "/x/entries.json", "a/./b", "a/b/./",
];

#[test]
fn file_name_matches_std() {
    for p in CORPUS {
        let expected = std::path::Path::new(p).file_name().map(|s| s.to_str().unwrap().to_string());
        assert_eq!(file_name_of(p), expected, "{:?}", p);
    }
}

#[test]
fn extension_matches_std() {
    for p in CORPUS {
        let expected = std::path::Path::new(p).extension().map(|s| s.to_str().unwrap().to_string());
        assert_eq!(extension_of(p), expected, "{:?}", p);
    }
}

#[test]
fn set_extension_matches_std() {
    for p in CORPUS {
        for ext in ["bak", "", "x.y"] {
            let mut expected = std::path::PathBuf::from(p);
            expected.set_extension(ext);
            assert_eq!(replace_extension(p, ext), expected.to_str().unwrap(), "{:?} {:?}", p, ext);
        }
    }
}

#[test]
fn join_matches_std() {
    for base in CORPUS {
        for rel in ["videos", "", "/abs/x", "manifest/entries.json", "./x"] {
            let expected = std::path::Path::new(base).join(rel);
            assert_eq!(join_path(base, rel), expected.to_str().unwrap(), "{:?} {:?}", base, rel);
        }
    }
}
