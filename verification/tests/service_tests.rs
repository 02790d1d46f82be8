use cdrip::service::{is_playback_file, AudioFile, AudioService};

#[test]
fn filename_is_the_final_component() {
    assert_eq!(AudioFile::new("a/b/c.mp3".to_string()).filename(), "c.mp3");
    assert_eq!(AudioFile::new("dir/song.mp3".to_string()).filename(), "song.mp3");
    assert_eq!(AudioFile::new("song.flac".to_string()).filename(), "song.flac");
}

#[test]
fn filename_ignores_trailing_separators() {
    assert_eq!(AudioFile::new("dir/".to_string()).filename(), "dir");
    assert_eq!(AudioFile::new("a/b//".to_string()).filename(), "b");
    assert_eq!(AudioFile::new("a/b/.".to_string()).filename(), "b");
    assert_eq!(AudioFile::new("a/./".to_string()).filename(), "a");
}

#[test]
fn filename_without_a_component_is_the_whole_path() {
    assert_eq!(AudioFile::new("/".to_string()).filename(), "/");
    assert_eq!(AudioFile::new("".to_string()).filename(), "");
    assert_eq!(AudioFile::new("..".to_string()).filename(), "..");
    assert_eq!(AudioFile::new("foo/..".to_string()).filename(), "foo/..");
    assert_eq!(AudioFile::new(".".to_string()).filename(), ".");
}

#[test]
fn audio_file_detection_by_extension() {
    assert!(AudioFile::is_audio_file("music/song.mp3"));
    assert!(AudioFile::is_audio_file("SONG.FLAC"));
    assert!(AudioFile::is_audio_file("a/b/c.Ogg"));
    assert!(AudioFile::is_audio_file("x.m4a"));
    assert!(AudioFile::is_audio_file("x.wav"));
    assert!(AudioFile::is_audio_file("x.aac"));
    assert!(AudioFile::is_audio_file("x.opus"));
    assert!(!AudioFile::is_audio_file("x.txt"));
    assert!(!AudioFile::is_audio_file("noextension"));
    assert!(!AudioFile::is_audio_file(".hidden"));
    assert!(!AudioFile::is_audio_file("dir.mp3/file"));
    // Trailing separators are ignored, as the filesystem ignores them.
    assert!(AudioFile::is_audio_file("dir.mp3/"));
    assert!(!AudioFile::is_audio_file("x.mp3/.."));
    assert!(!AudioFile::is_audio_file(""));
}

#[test]
fn audio_extension_is_case_insensitive() {
    assert!(AudioFile::is_audio_extension("mp3"));
    assert!(AudioFile::is_audio_extension("MP3"));
    assert!(AudioFile::is_audio_extension("FlAc"));
    assert!(!AudioFile::is_audio_extension("wv"));
    assert!(!AudioFile::is_audio_extension(""));
}

#[test]
fn playback_listing_accepts_exactly_the_listed_extensions() {
    for name in [
        "a.opus", "a.ogg", "a.flac", "a.mp3", "a.m4a", "a.wv", "a.wav",
        "output/01 - Unknown - X - A_B.opus",
    ] {
        assert!(is_playback_file(name), "{} should be listed", name);
    }
    for name in ["a.aac", "a.txt", "noextension", ".hidden", "a."] {
        assert!(!is_playback_file(name), "{} should not be listed", name);
    }
}

#[test]
fn playback_listing_is_case_sensitive() {
    assert!(!is_playback_file("SONG.FLAC"));
    assert!(!is_playback_file("a.Wv"));
    assert!(is_playback_file("song.flac"));
}

#[test]
fn service_add_count_clear() {
    let mut service = AudioService::new();
    assert_eq!(service.count(), 0);
    service.add_file("a.mp3".to_string());
    service.add_file("not-audio.txt".to_string());
    assert_eq!(service.count(), 2);
    let files = service.get_files();
    assert_eq!(files.len(), 2);
    assert_eq!(files[0].path, "a.mp3");
    assert_eq!(files[1].path, "not-audio.txt");
    service.clear();
    assert_eq!(service.count(), 0);
}

#[test]
fn add_files_keeps_only_audio_files() {
    let mut service = AudioService::new();
    let paths = vec![
        "dir/a.mp3".to_string(),
        "dir/readme.txt".to_string(),
        "dir/b.FLAC".to_string(),
        "dir/cover.png".to_string(),
    ];
    let added = service.add_files(&paths);
    assert_eq!(added, 2);
    let files = service.get_files();
    assert_eq!(files.len(), 2);
    assert_eq!(files[0].path, "dir/a.mp3");
    assert_eq!(files[1].path, "dir/b.FLAC");
}
