//! The encoding side: the rip-and-encode graph for one track, the tag set
//! embedded in the output container, the error taxonomy of an encode
//! attempt, and the per-track transcode manager with isolated failures.

use vstd::prelude::*;
use crate::engine::{DynamicLinkRule, ElementSpec, ExitReason, GraphPlan, PipelineRun};
use crate::filename::{create_output_filename, spec_artist_or_unknown, spec_output_filename};
use crate::format::{spec_descriptor, AudioFormat};
use crate::metadata::{AlbumDetails, TrackDetails};

verus! {

/// Why one encode attempt failed.
#[derive(Debug, Clone)]
pub enum EncodeError {
    /// The encoder granted no audio input pad for the format's descriptor:
    /// the format is unsupported or its plugins are missing.
    UnsupportedFormat { format: AudioFormat },
    /// A required engine element class does not exist.
    ElementMissing { element: String },
    /// Two elements could not be connected.
    LinkFailed { detail: String },
    /// The engine reported a fault during the run.
    RuntimeFault { message: String },
}

/// The human-readable cause carried by each error.
pub open spec fn spec_encode_error_message(e: EncodeError) -> Seq<char> {
    match e {
        EncodeError::UnsupportedFormat { format } => "no audio pad available from the encoder: "@
            + format.spec_name() + " may be unsupported or its plugins are not installed"@,
        EncodeError::ElementMissing { element } => "required engine element is missing: "@
            + element@,
        EncodeError::LinkFailed { detail } => "failed to link graph elements: "@ + detail@,
        EncodeError::RuntimeFault { message } => "engine reported an error: "@ + message@,
    }
}

impl EncodeError {
    /// The human-readable cause of this error.
    pub fn message(&self) -> (r: String)
        ensures
            r@ == spec_encode_error_message(*self),
    {
        match self {
            EncodeError::UnsupportedFormat { format } => {
                let mut s = String::from_str("no audio pad available from the encoder: ");
                s.append(format.name());
                s.append(" may be unsupported or its plugins are not installed");
                s
            },
            EncodeError::ElementMissing { element } => {
                let mut s = String::from_str("required engine element is missing: ");
                s.append(element.as_str());
                s
            },
            EncodeError::LinkFailed { detail } => {
                let mut s = String::from_str("failed to link graph elements: ");
                s.append(detail.as_str());
                s
            },
            EncodeError::RuntimeFault { message } => {
                let mut s = String::from_str("engine reported an error: ");
                s.append(message.as_str());
                s
            },
        }
    }
}

/// The distinct, diagnosable outcome of requesting the encoder's audio input
/// pad: a refusal means the chosen format is not encodable here, not a
/// generic link failure.
pub fn pad_request_outcome(granted: bool, format: AudioFormat) -> (r: Result<(), EncodeError>)
    ensures
        granted ==> r is Ok,
        !granted ==> (r matches Err(e) && e matches EncodeError::UnsupportedFormat {
            format: f,
        } && f == format),
{
    if granted {
        Ok(())
    } else {
        Err(EncodeError::UnsupportedFormat { format })
    }
}

/// What an attempt returns once its run has ended: an engine-reported fault
/// arriving on the bus becomes the runtime-fault error, carrying the bus
/// message; every other exit — end of stream, or a cancellation, which is
/// handled like a clean end of stream — is success. Nothing the bus reported
/// is swallowed.
pub fn run_result(run: &PipelineRun) -> (r: Result<(), EncodeError>)
    ensures
        match run.exit {
            Some(ExitReason::Failed { message }) => r matches Err(e) && e == (EncodeError::RuntimeFault {
                message,
            }),
            _ => r is Ok,
        },
{
    match &run.exit {
        Some(ExitReason::Failed { message }) => {
            Err(EncodeError::RuntimeFault { message: message.clone() })
        },
        _ => Ok(()),
    }
}

/// The tag set broadcast into the encode graph so the muxer embeds it in the
/// output container. Title, album and track number are mandatory; the artist
/// is tagged only when the track has one.
#[derive(Debug)]
pub struct TagSet {
    pub title: String,
    pub artist: Option<String>,
    pub album: String,
    pub track_number: u32,
}

/// Builds encode graphs and their metadata.
pub struct GStreamerEncoder;

impl GStreamerEncoder {
    pub fn new() -> (r: GStreamerEncoder) {
        GStreamerEncoder
    }

    /// The tag set for one track of an album.
    pub fn apply_metadata(&self, track: &TrackDetails, album: &AlbumDetails) -> (tags: TagSet)
        ensures
            tags.title == track.title,
            tags.artist == track.artist,
            tags.album == album.title,
            tags.track_number == track.number,
    {
        let artist = match &track.artist {
            Some(a) => Some(a.clone()),
            None => None,
        };
        TagSet {
            title: track.title.clone(),
            artist,
            album: album.title.clone(),
            track_number: track.number,
        }
    }

    /// The output file name for one track; see the filename module for the
    /// template.
    pub fn create_output_filename(track: &TrackDetails, album: &AlbumDetails, format: AudioFormat) -> (r: String)
        ensures
            r@ == spec_output_filename(
                track.number,
                track.title@,
                spec_artist_or_unknown(track.artist),
                album.title@,
                format,
            ),
    {
        create_output_filename(track, album, format)
    }

    /// The rip-and-encode graph for one track: disc source, rate normalizer,
    /// sample-format and sample-rate converters, the descriptor-configured
    /// encoder, and the file sink. The chain through the resampler and the
    /// encoder-to-sink edge are static; the resampler feeds a pad requested
    /// on the encoder at build time.
    pub fn encode_plan(track: &TrackDetails, output_filename: &str, format: AudioFormat) -> (p:
        GraphPlan)
        ensures
            p.wf(),
            p.elements@.len() == 6,
            p.elements@[0] matches ElementSpec::CdRipSource { track: t } && t == track.number,
            p.elements@[1] is RateNormalizer,
            p.elements@[2] is SampleConverter,
            p.elements@[3] is RateResampler,
            p.elements@[4] matches ElementSpec::Encoder { profile } && profile@ == spec_descriptor(
                format,
            ),
            p.elements@[5] matches ElementSpec::FileOutput { location } && location@
                == output_filename@,
            p.links@ == seq![(0usize, 1usize), (1usize, 2usize), (2usize, 3usize), (4usize, 5usize)],
            p.dynamic == (DynamicLinkRule::RequestEncoderPad { upstream: 3, encoder: 4 }),
    {
        let mut elements: Vec<ElementSpec> = Vec::new();
        elements.push(ElementSpec::CdRipSource { track: track.number });
        elements.push(ElementSpec::RateNormalizer);
        elements.push(ElementSpec::SampleConverter);
        elements.push(ElementSpec::RateResampler);
        elements.push(ElementSpec::Encoder { profile: format.create_encoding_profile() });
        elements.push(ElementSpec::FileOutput { location: String::from_str(output_filename) });
        let mut links: Vec<(usize, usize)> = Vec::new();
        links.push((0, 1));
        links.push((1, 2));
        links.push((2, 3));
        links.push((4, 5));
        let p = GraphPlan {
            elements,
            links,
            dynamic: DynamicLinkRule::RequestEncoderPad { upstream: 3, encoder: 4 },
        };
        proof {
            assert(p.links@ =~= seq![
                (0usize, 1usize),
                (1usize, 2usize),
                (2usize, 3usize),
                (4usize, 5usize),
            ]);
        }
        p
    }
}

/// A track's encoder, as the transcode manager drives it. The library builds
/// the graphs and decides the protocol; performing the run is the
/// implementor's side.
pub trait AudioEncoder {
    fn transcode(
        &self,
        track: &TrackDetails,
        album: &AlbumDetails,
        output_filename: &str,
        format: AudioFormat,
    ) -> Result<(), EncodeError>;
}

/// The recorded outcome of one track of a batch.
#[derive(Debug)]
pub struct TrackOutcome {
    pub track_number: u32,
    pub filename: String,
    pub outcome: Result<(), EncodeError>,
}

pub open spec fn spec_success_count(s: Seq<TrackOutcome>) -> int
    decreases s.len(),
{
    if s.len() == 0 {
        0
    } else {
        spec_success_count(s.drop_last()) + (if s.last().outcome is Ok {
            1int
        } else {
            0int
        })
    }
}

/// The per-track outcomes of one batch, in album order.
#[derive(Debug)]
pub struct TranscodeReport {
    pub outcomes: Vec<TrackOutcome>,
}

impl TranscodeReport {
    /// How many tracks of the batch succeeded.
    pub fn succeeded_count(&self) -> (n: usize)
        ensures
            n == spec_success_count(self.outcomes@),
    {
        let mut n: usize = 0;
        let mut i: usize = 0;
        while i < self.outcomes.len()
            invariant
                i <= self.outcomes@.len(),
                n <= i,
                n == spec_success_count(self.outcomes@.take(i as int)),
            decreases self.outcomes@.len() - i,
        {
            proof {
                assert(self.outcomes@.take(i as int + 1).drop_last() =~= self.outcomes@.take(
                    i as int,
                ));
            }
            if self.outcomes[i].outcome.is_ok() {
                n = n + 1;
            }
            i = i + 1;
        }
        proof {
            assert(self.outcomes@.take(self.outcomes@.len() as int) =~= self.outcomes@);
        }
        n
    }

    /// How many tracks the batch held.
    pub fn total_count(&self) -> (n: usize)
        ensures
            n == self.outcomes@.len(),
    {
        self.outcomes.len()
    }
}

/// Sequences the encoding of a whole album, one track at a time, with
/// isolated per-track failures.
pub struct TranscodeManager<E: AudioEncoder> {
    pub encoder: E,
}

impl<E: AudioEncoder> TranscodeManager<E> {
    pub fn new(encoder: E) -> (r: TranscodeManager<E>)
        ensures
            r.encoder == encoder,
    {
        TranscodeManager { encoder }
    }

    /// Encodes every track of the album, in album order, into files under
    /// the fixed output directory. A failing track never aborts the batch:
    /// the report holds one outcome per track of the album, whatever the
    /// encoder answered for the tracks before it.
    pub fn transcode_all_tracks(&self, album: &AlbumDetails, format: AudioFormat) -> (report:
        TranscodeReport)
        ensures
            report.outcomes@.len() == album.tracks@.len(),
            forall|i: int|
                0 <= i < album.tracks@.len() ==> (#[trigger] report.outcomes@[i]).track_number
                    == album.tracks@[i].number && report.outcomes@[i].filename@ == "output/"@
                    + spec_output_filename(
                    album.tracks@[i].number,
                    album.tracks@[i].title@,
                    spec_artist_or_unknown(album.tracks@[i].artist),
                    album.title@,
                    format,
                ),
    {
        let mut outcomes: Vec<TrackOutcome> = Vec::new();
        let mut i: usize = 0;
        while i < album.tracks.len()
            invariant
                i <= album.tracks@.len(),
                outcomes@.len() == i,
                forall|j: int|
                    0 <= j < i ==> (#[trigger] outcomes@[j]).track_number
                        == album.tracks@[j].number && outcomes@[j].filename@ == "output/"@
                        + spec_output_filename(
                        album.tracks@[j].number,
                        album.tracks@[j].title@,
                        spec_artist_or_unknown(album.tracks@[j].artist),
                        album.title@,
                        format,
                    ),
            decreases album.tracks@.len() - i,
        {
            let track = &album.tracks[i];
            let mut filename = String::from_str("output/");
            let name = create_output_filename(track, album, format);
            filename.append(name.as_str());
            let outcome = self.encoder.transcode(track, album, filename.as_str(), format);
            outcomes.push(TrackOutcome { track_number: track.number, filename, outcome });
            i = i + 1;
        }
        TranscodeReport { outcomes }
    }
}

} // verus!
