use cdrip::format::{AudioFormat, CapsValue};

#[test]
fn all_formats_fixed_order() {
    let all = AudioFormat::all_formats();
    assert_eq!(all.len(), 6);
    assert_eq!(all[0], AudioFormat::Opus);
    assert_eq!(all[1], AudioFormat::Vorbis);
    assert_eq!(all[2], AudioFormat::Flac);
    assert_eq!(all[3], AudioFormat::Mp3);
    assert_eq!(all[4], AudioFormat::Aac);
    assert_eq!(all[5], AudioFormat::Wavpack);
}

#[test]
fn extensions_exact() {
    assert_eq!(AudioFormat::Opus.file_extension(), "opus");
    assert_eq!(AudioFormat::Vorbis.file_extension(), "ogg");
    assert_eq!(AudioFormat::Flac.file_extension(), "flac");
    assert_eq!(AudioFormat::Mp3.file_extension(), "mp3");
    assert_eq!(AudioFormat::Aac.file_extension(), "m4a");
    assert_eq!(AudioFormat::Wavpack.file_extension(), "wv");
}

#[test]
fn names_exact() {
    assert_eq!(AudioFormat::Opus.name(), "Opus");
    assert_eq!(AudioFormat::Vorbis.name(), "Ogg Vorbis");
    assert_eq!(AudioFormat::Flac.name(), "FLAC");
    assert_eq!(AudioFormat::Mp3.name(), "MP3");
    assert_eq!(AudioFormat::Aac.name(), "AAC");
    assert_eq!(AudioFormat::Wavpack.name(), "WavPack");
}

#[test]
fn lossless_flags() {
    assert!(AudioFormat::Flac.is_lossless());
    assert!(AudioFormat::Wavpack.is_lossless());
    assert!(!AudioFormat::Opus.is_lossless());
    assert!(!AudioFormat::Vorbis.is_lossless());
    assert!(!AudioFormat::Mp3.is_lossless());
    assert!(!AudioFormat::Aac.is_lossless());
}

#[test]
fn descriptor_defined_for_every_format() {
    // Totality over the registry: each format yields a descriptor with
    // non-empty media types.
    for format in AudioFormat::all_formats() {
        let d = format.create_encoding_profile();
        assert!(!d.container.media_type.is_empty());
        assert!(!d.audio.media_type.is_empty());
    }
}

#[test]
fn descriptor_container_types() {
    assert_eq!(
        AudioFormat::Opus.create_encoding_profile().container.media_type,
        "application/ogg"
    );
    assert_eq!(
        AudioFormat::Vorbis.create_encoding_profile().container.media_type,
        "application/ogg"
    );
    assert_eq!(
        AudioFormat::Flac.create_encoding_profile().container.media_type,
        "audio/x-flac"
    );
    assert_eq!(
        AudioFormat::Mp3.create_encoding_profile().container.media_type,
        "application/x-id3"
    );
    assert_eq!(
        AudioFormat::Aac.create_encoding_profile().container.media_type,
        "video/quicktime"
    );
    assert_eq!(
        AudioFormat::Wavpack.create_encoding_profile().container.media_type,
        "audio/x-wavpack"
    );
}

#[test]
fn descriptor_audio_types_and_fields() {
    let opus = AudioFormat::Opus.create_encoding_profile();
    assert_eq!(opus.audio.media_type, "audio/x-opus");
    assert!(opus.audio.fields.is_empty());

    let mp3 = AudioFormat::Mp3.create_encoding_profile();
    assert_eq!(mp3.audio.media_type, "audio/mpeg");
    assert_eq!(mp3.audio.fields.len(), 2);
    assert_eq!(mp3.audio.fields[0].0, "mpegversion");
    assert_eq!(mp3.audio.fields[0].1, CapsValue::IntVal(1));
    assert_eq!(mp3.audio.fields[1].0, "layer");
    assert_eq!(mp3.audio.fields[1].1, CapsValue::IntVal(3));

    let aac = AudioFormat::Aac.create_encoding_profile();
    assert_eq!(aac.audio.media_type, "audio/mpeg");
    assert_eq!(aac.audio.fields.len(), 1);
    assert_eq!(aac.audio.fields[0].0, "mpegversion");
    assert_eq!(aac.audio.fields[0].1, CapsValue::IntVal(4));
    assert_eq!(aac.container.fields.len(), 1);
    assert_eq!(aac.container.fields[0].0, "variant");
    assert_eq!(aac.container.fields[0].1, CapsValue::TextVal("iso".to_string()));
}
