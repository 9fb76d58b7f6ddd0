use randcast::media::{MediaInfo, StreamInfo};
use randcast::producer::RandomFiles;

fn paths(names: &[&str]) -> Vec<String> {
    names.iter().map(|s| s.to_string()).collect()
}

fn playable() -> MediaInfo {
    MediaInfo {
        duration: Some(3_000_000_000),
        image: None,
        video: Some(StreamInfo { max_bitrate: None, bitrate: None }),
        audio: None,
    }
}

#[test]
fn empty_catalog_never_emits() {
    let mut p = RandomFiles::new(paths(&["/media"]));
    assert_eq!(p.catalog_len(), 0);
    assert_eq!(p.draw(), None);
    p.begin_epoch(Vec::new());
    assert_eq!(p.draw(), None);
}

#[test]
fn single_file_cycles_forever() {
    let mut p = RandomFiles::new(paths(&["/media"]));
    for _ in 0..5 {
        p.begin_epoch(paths(&["/media/only.mp4"]));
        assert_eq!(p.catalog_len(), 1);
        assert_eq!(p.draw(), Some("/media/only.mp4".to_string()));
        assert_eq!(p.catalog_len(), 0);
        assert_eq!(p.draw(), None);
    }
}

#[test]
fn epoch_covers_catalog_without_repeats() {
    let names = ["/a.mp4", "/b.mp3", "/c.jpg", "/d.mkv", "/e.ogg"];
    let mut p = RandomFiles::new(paths(&["/media"]));
    p.begin_epoch(paths(&names));
    assert_eq!(p.catalog_len(), names.len());
    let mut seen: Vec<String> = Vec::new();
    while let Some(path) = p.draw() {
        assert!(!seen.contains(&path), "path drawn twice in one epoch: {path}");
        assert!(names.contains(&path.as_str()));
        seen.push(path);
    }
    assert_eq!(seen.len(), names.len());
}

#[test]
fn begin_epoch_drops_duplicate_paths() {
    let mut p = RandomFiles::new(paths(&["/media"]));
    p.begin_epoch(paths(&["/a.mp4", "/b.mp4", "/a.mp4", "/b.mp4", "/a.mp4"]));
    assert_eq!(p.catalog_len(), 2);
}

#[test]
fn offer_emits_playable_files_only() {
    let out = RandomFiles::offer("/a.mp4".to_string(), playable());
    assert_eq!(out, Some(("/a.mp4".to_string(), playable())));

    let ineligible = MediaInfo { duration: None, image: None, video: None, audio: None };
    assert_eq!(RandomFiles::offer("/junk.bin".to_string(), ineligible), None);
}

#[test]
fn single_ineligible_file_blocks_emission() {
    let mut p = RandomFiles::new(paths(&["/media"]));
    p.begin_epoch(paths(&["/junk.bin"]));
    let drawn = p.draw().expect("one file in catalog");
    let ineligible = MediaInfo { duration: None, image: None, video: None, audio: None };
    assert_eq!(RandomFiles::offer(drawn, ineligible), None);
    assert_eq!(p.draw(), None);
}

#[test]
fn roots_are_kept() {
    let p = RandomFiles::new(paths(&["/media", "/more"]));
    assert_eq!(p.roots().len(), 2);
    assert_eq!(p.roots()[0], "/media");
    assert_eq!(p.roots()[1], "/more");
}
