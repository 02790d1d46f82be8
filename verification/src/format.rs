//! The format registry: the closed set of output formats, their projections,
//! and the encoding descriptor each format maps to.

use vstd::prelude::*;

verus! {

/// One of the known output formats. The set is closed: adding a format is a
/// compile-time exhaustive-match obligation everywhere it is consumed.
#[derive(Debug, Clone, Copy, PartialEq, Eq, Structural)]
pub enum AudioFormat {
    Opus,
    Vorbis,
    Flac,
    Mp3,
    Aac,
    Wavpack,
}

/// The fixed registry order: display order and default-selection order.
pub open spec fn spec_all_formats() -> Seq<AudioFormat> {
    seq![
        AudioFormat::Opus,
        AudioFormat::Vorbis,
        AudioFormat::Flac,
        AudioFormat::Mp3,
        AudioFormat::Aac,
        AudioFormat::Wavpack,
    ]
}

/// One typed parameter of a media-type description.
#[derive(Debug, Clone, PartialEq, Eq)]
pub enum CapsValue {
    IntVal(i32),
    TextVal(String),
}

/// A media type with its parameters, e.g. "audio/mpeg" with mpegversion 1
/// and layer 3.
#[derive(Debug, Clone)]
pub struct MediaCaps {
    pub media_type: String,
    pub fields: Vec<(String, CapsValue)>,
}

/// The encoding descriptor of a format: the container media type and the one
/// audio stream media type inside it.
#[derive(Debug, Clone)]
pub struct EncodingDescriptor {
    pub container: MediaCaps,
    pub audio: MediaCaps,
}

#[verifier::ext_equal]
pub enum CapsValueModel {
    IntVal(i32),
    TextVal(Seq<char>),
}

#[verifier::ext_equal]
pub struct CapsModel {
    pub media_type: Seq<char>,
    pub fields: Seq<(Seq<char>, CapsValueModel)>,
}

#[verifier::ext_equal]
pub struct DescriptorModel {
    pub container: CapsModel,
    pub audio: CapsModel,
}

impl View for CapsValue {
    type V = CapsValueModel;

    open spec fn view(&self) -> CapsValueModel {
        match self {
            CapsValue::IntVal(v) => CapsValueModel::IntVal(*v),
            CapsValue::TextVal(t) => CapsValueModel::TextVal(t@),
        }
    }
}

impl View for MediaCaps {
    type V = CapsModel;

    open spec fn view(&self) -> CapsModel {
        CapsModel {
            media_type: self.media_type@,
            fields: self.fields@.map_values(|f: (String, CapsValue)| (f.0@, f.1@)),
        }
    }
}

impl View for EncodingDescriptor {
    type V = DescriptorModel;

    open spec fn view(&self) -> DescriptorModel {
        DescriptorModel { container: self.container@, audio: self.audio@ }
    }
}

pub open spec fn plain_caps(media_type: Seq<char>) -> CapsModel {
    CapsModel { media_type, fields: Seq::empty() }
}

/// The descriptor each format maps to. Total over the enumeration by
/// construction: a new format will not compile until given a descriptor.
pub open spec fn spec_descriptor(f: AudioFormat) -> DescriptorModel {
    match f {
        AudioFormat::Opus => DescriptorModel {
            container: plain_caps("application/ogg"@),
            audio: plain_caps("audio/x-opus"@),
        },
        AudioFormat::Vorbis => DescriptorModel {
            container: plain_caps("application/ogg"@),
            audio: plain_caps("audio/x-vorbis"@),
        },
        AudioFormat::Flac => DescriptorModel {
            container: plain_caps("audio/x-flac"@),
            audio: plain_caps("audio/x-flac"@),
        },
        AudioFormat::Mp3 => DescriptorModel {
            container: plain_caps("application/x-id3"@),
            audio: CapsModel {
                media_type: "audio/mpeg"@,
                fields: seq![
                    ("mpegversion"@, CapsValueModel::IntVal(1)),
                    ("layer"@, CapsValueModel::IntVal(3)),
                ],
            },
        },
        AudioFormat::Aac => DescriptorModel {
            container: CapsModel {
                media_type: "video/quicktime"@,
                fields: seq![("variant"@, CapsValueModel::TextVal("iso"@))],
            },
            audio: CapsModel {
                media_type: "audio/mpeg"@,
                fields: seq![("mpegversion"@, CapsValueModel::IntVal(4))],
            },
        },
        AudioFormat::Wavpack => DescriptorModel {
            container: plain_caps("audio/x-wavpack"@),
            audio: plain_caps("audio/x-wavpack"@),
        },
    }
}

pub open spec fn caps_wf(c: CapsModel) -> bool {
    c.media_type.len() > 0
}

pub open spec fn descriptor_wf(d: DescriptorModel) -> bool {
    caps_wf(d.container) && caps_wf(d.audio)
}

/// Totality of the registry: every format in the fixed list maps to a
/// well-formed encoding descriptor.
pub proof fn lemma_descriptor_total()
    ensures
        forall|i: int|
            0 <= i < spec_all_formats().len() ==> descriptor_wf(
                spec_descriptor(#[trigger] spec_all_formats()[i]),
            ),
{
    reveal_strlit("application/ogg");
    reveal_strlit("audio/x-opus");
    reveal_strlit("audio/x-vorbis");
    reveal_strlit("audio/x-flac");
    reveal_strlit("application/x-id3");
    reveal_strlit("audio/mpeg");
    reveal_strlit("video/quicktime");
    reveal_strlit("audio/x-wavpack");
    assert(descriptor_wf(spec_descriptor(AudioFormat::Opus)));
    assert(descriptor_wf(spec_descriptor(AudioFormat::Vorbis)));
    assert(descriptor_wf(spec_descriptor(AudioFormat::Flac)));
    assert(descriptor_wf(spec_descriptor(AudioFormat::Mp3)));
    assert(descriptor_wf(spec_descriptor(AudioFormat::Aac)));
    assert(descriptor_wf(spec_descriptor(AudioFormat::Wavpack)));
}

impl AudioFormat {
    pub open spec fn spec_extension(self) -> Seq<char> {
        match self {
            AudioFormat::Opus => "opus"@,
            AudioFormat::Vorbis => "ogg"@,
            AudioFormat::Flac => "flac"@,
            AudioFormat::Mp3 => "mp3"@,
            AudioFormat::Aac => "m4a"@,
            AudioFormat::Wavpack => "wv"@,
        }
    }

    pub open spec fn spec_name(self) -> Seq<char> {
        match self {
            AudioFormat::Opus => "Opus"@,
            AudioFormat::Vorbis => "Ogg Vorbis"@,
            AudioFormat::Flac => "FLAC"@,
            AudioFormat::Mp3 => "MP3"@,
            AudioFormat::Aac => "AAC"@,
            AudioFormat::Wavpack => "WavPack"@,
        }
    }

    /// The file extension used for output files of this format.
    pub fn file_extension(&self) -> (r: &str)
        ensures
            r@ == self.spec_extension(),
    {
        match self {
            AudioFormat::Opus => "opus",
            AudioFormat::Vorbis => "ogg",
            AudioFormat::Flac => "flac",
            AudioFormat::Mp3 => "mp3",
            AudioFormat::Aac => "m4a",
            AudioFormat::Wavpack => "wv",
        }
    }

    /// The display name of this format.
    pub fn name(&self) -> (r: &str)
        ensures
            r@ == self.spec_name(),
    {
        match self {
            AudioFormat::Opus => "Opus",
            AudioFormat::Vorbis => "Ogg Vorbis",
            AudioFormat::Flac => "FLAC",
            AudioFormat::Mp3 => "MP3",
            AudioFormat::Aac => "AAC",
            AudioFormat::Wavpack => "WavPack",
        }
    }

    /// Whether the format compresses without loss.
    pub fn is_lossless(&self) -> (r: bool)
        ensures
            r == (self is Flac || self is Wavpack),
    {
        match self {
            AudioFormat::Flac => true,
            AudioFormat::Wavpack => true,
            _ => false,
        }
    }

    /// The encoding descriptor this format maps to: the container media type
    /// and the audio stream media type with its codec parameters, as the
    /// engine's multiplexing encoder consumes them.
    pub fn create_encoding_profile(&self) -> (d: EncodingDescriptor)
        ensures
            d@ == spec_descriptor(*self),
    {
        let d = match self {
            AudioFormat::Opus => EncodingDescriptor {
                container: MediaCaps { media_type: String::from_str("application/ogg"), fields: Vec::new() },
                audio: MediaCaps { media_type: String::from_str("audio/x-opus"), fields: Vec::new() },
            },
            AudioFormat::Vorbis => EncodingDescriptor {
                container: MediaCaps { media_type: String::from_str("application/ogg"), fields: Vec::new() },
                audio: MediaCaps { media_type: String::from_str("audio/x-vorbis"), fields: Vec::new() },
            },
            AudioFormat::Flac => EncodingDescriptor {
                container: MediaCaps { media_type: String::from_str("audio/x-flac"), fields: Vec::new() },
                audio: MediaCaps { media_type: String::from_str("audio/x-flac"), fields: Vec::new() },
            },
            AudioFormat::Mp3 => {
                let mut audio_fields: Vec<(String, CapsValue)> = Vec::new();
                audio_fields.push((String::from_str("mpegversion"), CapsValue::IntVal(1)));
                audio_fields.push((String::from_str("layer"), CapsValue::IntVal(3)));
                EncodingDescriptor {
                    container: MediaCaps { media_type: String::from_str("application/x-id3"), fields: Vec::new() },
                    audio: MediaCaps { media_type: String::from_str("audio/mpeg"), fields: audio_fields },
                }
            },
            AudioFormat::Aac => {
                let mut audio_fields: Vec<(String, CapsValue)> = Vec::new();
                audio_fields.push((String::from_str("mpegversion"), CapsValue::IntVal(4)));
                let mut container_fields: Vec<(String, CapsValue)> = Vec::new();
                container_fields.push((String::from_str("variant"), CapsValue::TextVal(String::from_str("iso"))));
                EncodingDescriptor {
                    container: MediaCaps { media_type: String::from_str("video/quicktime"), fields: container_fields },
                    audio: MediaCaps { media_type: String::from_str("audio/mpeg"), fields: audio_fields },
                }
            },
            AudioFormat::Wavpack => EncodingDescriptor {
                container: MediaCaps { media_type: String::from_str("audio/x-wavpack"), fields: Vec::new() },
                audio: MediaCaps { media_type: String::from_str("audio/x-wavpack"), fields: Vec::new() },
            },
        };
        proof {
            assert(d@ =~~= spec_descriptor(*self));
        }
        d
    }

    /// Every known format, in the fixed registry order.
    pub fn all_formats() -> (r: Vec<AudioFormat>)
        ensures
            r@ == spec_all_formats(),
    {
        let r = vec![
            AudioFormat::Opus,
            AudioFormat::Vorbis,
            AudioFormat::Flac,
            AudioFormat::Mp3,
            AudioFormat::Aac,
            AudioFormat::Wavpack,
        ];
        proof {
            assert(r@ =~= spec_all_formats());
        }
        r
    }
}

} // verus!
