//! Playback: the disc-track and file playback graphs. Both share the run
//! protocol of the engine module; the file graph additionally waits for the
//! decoder's dynamically appearing pads.

use vstd::prelude::*;
use crate::engine::{DynamicLinkRule, ElementSpec, GraphPlan};

verus! {

/// Plays one disc track through the system audio output.
#[derive(Debug)]
pub struct CdTrackPlayer {
    pub track_number: u32,
}

impl CdTrackPlayer {
    pub fn new(track_number: u32) -> (r: CdTrackPlayer)
        ensures
            r.track_number == track_number,
    {
        CdTrackPlayer { track_number }
    }

    /// The disc playback graph: disc source, a generous buffering queue
    /// against transient read stalls, the two converters, and the system
    /// audio output. Statically linkable end to end.
    pub fn graph_plan(&self) -> (p: GraphPlan)
        ensures
            p.wf(),
            p.elements@.len() == 5,
            p.elements@[0] matches ElementSpec::CdPlaySource { track } && track
                == self.track_number,
            p.elements@[1] matches ElementSpec::BufferQueue {
                max_buffers,
                max_time_ns,
                max_bytes,
            } && max_buffers == 0 && max_time_ns == 5_000_000_000 && max_bytes == 10_485_760,
            p.elements@[2] is SampleConverter,
            p.elements@[3] is RateResampler,
            p.elements@[4] is SystemAudioOutput,
            p.links@ == seq![(0usize, 1usize), (1usize, 2usize), (2usize, 3usize), (3usize, 4usize)],
            p.dynamic == DynamicLinkRule::FullyStatic,
    {
        let mut elements: Vec<ElementSpec> = Vec::new();
        elements.push(ElementSpec::CdPlaySource { track: self.track_number });
        elements.push(ElementSpec::BufferQueue {
            max_buffers: 0,
            max_time_ns: 5_000_000_000,
            max_bytes: 10_485_760,
        });
        elements.push(ElementSpec::SampleConverter);
        elements.push(ElementSpec::RateResampler);
        elements.push(ElementSpec::SystemAudioOutput);
        let mut links: Vec<(usize, usize)> = Vec::new();
        links.push((0, 1));
        links.push((1, 2));
        links.push((2, 3));
        links.push((3, 4));
        let p = GraphPlan { elements, links, dynamic: DynamicLinkRule::FullyStatic };
        proof {
            assert(p.links@ =~= seq![
                (0usize, 1usize),
                (1usize, 2usize),
                (2usize, 3usize),
                (3usize, 4usize),
            ]);
        }
        p
    }
}

/// Plays one local file through the system audio output.
#[derive(Debug)]
pub struct FilePlayer {
    pub file_path: String,
}

impl FilePlayer {
    pub fn new(file_path: String) -> (r: FilePlayer)
        ensures
            r.file_path == file_path,
    {
        FilePlayer { file_path }
    }

    /// The file playback graph: file source into the decoder, then the two
    /// converters into the system audio output. The decoder's output pads
    /// appear only once the container is parsed, so the decoder-to-converter
    /// edge is dynamic: the first audio pad is linked exactly once and
    /// non-audio pads are skipped.
    pub fn graph_plan(&self) -> (p: GraphPlan)
        ensures
            p.wf(),
            p.elements@.len() == 5,
            p.elements@[0] matches ElementSpec::FileInput { location } && location@
                == self.file_path@,
            p.elements@[1] is Decoder,
            p.elements@[2] is SampleConverter,
            p.elements@[3] is RateResampler,
            p.elements@[4] is SystemAudioOutput,
            p.links@ == seq![(0usize, 1usize), (2usize, 3usize), (3usize, 4usize)],
            p.dynamic == (DynamicLinkRule::AwaitDecoderPads { decoder: 1, sink: 2 }),
    {
        let mut elements: Vec<ElementSpec> = Vec::new();
        elements.push(ElementSpec::FileInput { location: self.file_path.clone() });
        elements.push(ElementSpec::Decoder);
        elements.push(ElementSpec::SampleConverter);
        elements.push(ElementSpec::RateResampler);
        elements.push(ElementSpec::SystemAudioOutput);
        let mut links: Vec<(usize, usize)> = Vec::new();
        links.push((0, 1));
        links.push((2, 3));
        links.push((3, 4));
        let p = GraphPlan {
            elements,
            links,
            dynamic: DynamicLinkRule::AwaitDecoderPads { decoder: 1, sink: 2 },
        };
        proof {
            assert(p.links@ =~= seq![(0usize, 1usize), (2usize, 3usize), (3usize, 4usize)]);
        }
        p
    }
}

} // verus!
