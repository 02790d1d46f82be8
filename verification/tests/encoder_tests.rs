use cdrip::encoder::{
    pad_request_outcome, AudioEncoder, EncodeError, GStreamerEncoder, TranscodeManager,
};
use cdrip::engine::{DynamicLinkRule, ElementSpec};
use cdrip::format::AudioFormat;
use cdrip::metadata::{AlbumDetails, TrackDetails};
use cdrip::player::{CdTrackPlayer, FilePlayer};

fn track(number: u32, title: &str, artist: Option<&str>) -> TrackDetails {
    TrackDetails {
        number,
        title: title.to_string(),
        duration: None,
        artist: artist.map(|a| a.to_string()),
        artist_sortname: None,
        artist_id: None,
        track_id: None,
        composer: None,
        composer_sortname: None,
    }
}

fn album_with_tracks(title: &str, tracks: Vec<TrackDetails>) -> AlbumDetails {
    AlbumDetails {
        album_id: "id".to_string(),
        title: title.to_string(),
        artist: Some("Band".to_string()),
        artist_sortname: None,
        artist_id: None,
        release_date: None,
        country: None,
        disc_number: None,
        disc_count: None,
        barcode: None,
        tracks,
        composer: None,
        composer_sortname: None,
    }
}

#[test]
fn tags_carry_title_album_and_number_even_without_artist() {
    let enc = GStreamerEncoder::new();
    let t = track(5, "Title", None);
    let a = album_with_tracks("Album", Vec::new());
    let tags = enc.apply_metadata(&t, &a);
    assert_eq!(tags.title, "Title");
    assert_eq!(tags.album, "Album");
    assert_eq!(tags.track_number, 5);
    assert!(tags.artist.is_none());
}

#[test]
fn tags_carry_artist_when_present() {
    let enc = GStreamerEncoder::new();
    let t = track(1, "T", Some("Someone"));
    let a = album_with_tracks("A", Vec::new());
    let tags = enc.apply_metadata(&t, &a);
    assert_eq!(tags.artist, Some("Someone".to_string()));
}

#[test]
fn encode_plan_shape() {
    let t = track(4, "T", None);
    let p = GStreamerEncoder::encode_plan(&t, "output/file.opus", AudioFormat::Opus);
    assert_eq!(p.elements.len(), 6);
    assert!(matches!(p.elements[0], ElementSpec::CdRipSource { track: 4 }));
    assert!(matches!(p.elements[1], ElementSpec::RateNormalizer));
    assert!(matches!(p.elements[2], ElementSpec::SampleConverter));
    assert!(matches!(p.elements[3], ElementSpec::RateResampler));
    match &p.elements[4] {
        ElementSpec::Encoder { profile } => {
            assert_eq!(profile.audio.media_type, "audio/x-opus");
        }
        _ => panic!("expected the encoder element"),
    }
    match &p.elements[5] {
        ElementSpec::FileOutput { location } => assert_eq!(location, "output/file.opus"),
        _ => panic!("expected the file sink"),
    }
    assert_eq!(p.links, vec![(0, 1), (1, 2), (2, 3), (4, 5)]);
    assert_eq!(
        p.dynamic,
        DynamicLinkRule::RequestEncoderPad { upstream: 3, encoder: 4 }
    );
}

#[test]
fn cd_playback_plan_shape() {
    let p = CdTrackPlayer::new(9).graph_plan();
    assert_eq!(p.elements.len(), 5);
    assert!(matches!(p.elements[0], ElementSpec::CdPlaySource { track: 9 }));
    assert!(matches!(
        p.elements[1],
        ElementSpec::BufferQueue { max_buffers: 0, max_time_ns: 5_000_000_000, max_bytes: 10_485_760 }
    ));
    assert!(matches!(p.elements[2], ElementSpec::SampleConverter));
    assert!(matches!(p.elements[3], ElementSpec::RateResampler));
    assert!(matches!(p.elements[4], ElementSpec::SystemAudioOutput));
    assert_eq!(p.links, vec![(0, 1), (1, 2), (2, 3), (3, 4)]);
    assert_eq!(p.dynamic, DynamicLinkRule::FullyStatic);
}

#[test]
fn file_playback_plan_shape() {
    let p = FilePlayer::new("output/song.flac".to_string()).graph_plan();
    assert_eq!(p.elements.len(), 5);
    match &p.elements[0] {
        ElementSpec::FileInput { location } => assert_eq!(location, "output/song.flac"),
        _ => panic!("expected the file source"),
    }
    assert!(matches!(p.elements[1], ElementSpec::Decoder));
    assert_eq!(p.links, vec![(0, 1), (2, 3), (3, 4)]);
    assert_eq!(
        p.dynamic,
        DynamicLinkRule::AwaitDecoderPads { decoder: 1, sink: 2 }
    );
}

#[test]
fn pad_refusal_is_the_unsupported_format_error() {
    assert!(pad_request_outcome(true, AudioFormat::Aac).is_ok());
    match pad_request_outcome(false, AudioFormat::Aac) {
        Err(EncodeError::UnsupportedFormat { format }) => assert_eq!(format, AudioFormat::Aac),
        _ => panic!("expected the unsupported-format error"),
    }
}

#[test]
fn error_messages() {
    let e = EncodeError::UnsupportedFormat { format: AudioFormat::Mp3 };
    assert_eq!(
        e.message(),
        "no audio pad available from the encoder: MP3 may be unsupported or its plugins are not installed"
    );
    let e = EncodeError::ElementMissing { element: "encodebin".to_string() };
    assert_eq!(e.message(), "required engine element is missing: encodebin");
    let e = EncodeError::LinkFailed { detail: "converter to resampler".to_string() };
    assert_eq!(e.message(), "failed to link graph elements: converter to resampler");
    let e = EncodeError::RuntimeFault { message: "sink fault".to_string() };
    assert_eq!(e.message(), "engine reported an error: sink fault");
}

struct FailsOnTrackTwo;

impl AudioEncoder for FailsOnTrackTwo {
    fn transcode(
        &self,
        track: &TrackDetails,
        _album: &AlbumDetails,
        _output_filename: &str,
        _format: AudioFormat,
    ) -> Result<(), EncodeError> {
        if track.number == 2 {
            Err(EncodeError::RuntimeFault { message: "simulated engine error".to_string() })
        } else {
            Ok(())
        }
    }
}

#[test]
fn failing_track_does_not_abort_the_batch() {
    let tracks = vec![track(1, "One", None), track(2, "Two", None), track(3, "Three", None)];
    let album = album_with_tracks("X", tracks);
    let manager = TranscodeManager::new(FailsOnTrackTwo);
    let report = manager.transcode_all_tracks(&album, AudioFormat::Opus);
    assert_eq!(report.total_count(), 3);
    assert_eq!(report.succeeded_count(), 2);
    assert!(report.outcomes[0].outcome.is_ok());
    assert!(report.outcomes[1].outcome.is_err());
    assert!(report.outcomes[2].outcome.is_ok());
    assert_eq!(report.outcomes[0].filename, "output/01 - Unknown - X - One.opus");
    assert_eq!(report.outcomes[1].filename, "output/02 - Unknown - X - Two.opus");
    assert_eq!(report.outcomes[2].filename, "output/03 - Unknown - X - Three.opus");
    assert_eq!(report.outcomes[1].track_number, 2);
}

struct AlwaysOk;

impl AudioEncoder for AlwaysOk {
    fn transcode(
        &self,
        _track: &TrackDetails,
        _album: &AlbumDetails,
        _output_filename: &str,
        _format: AudioFormat,
    ) -> Result<(), EncodeError> {
        Ok(())
    }
}

#[test]
fn batch_visits_every_track_in_album_order() {
    let tracks = vec![track(1, "A", Some("X")), track(2, "B", Some("Y"))];
    let album = album_with_tracks("Disc", tracks);
    let manager = TranscodeManager::new(AlwaysOk);
    let report = manager.transcode_all_tracks(&album, AudioFormat::Flac);
    assert_eq!(report.total_count(), 2);
    assert_eq!(report.succeeded_count(), 2);
    assert_eq!(report.outcomes[0].track_number, 1);
    assert_eq!(report.outcomes[1].track_number, 2);
}
