//! A model of the media engine as the orchestration layer drives it: the
//! element classes a graph instantiates, the link topology of a graph, the
//! bus-message protocol of a run, and the one-shot guard for dynamically
//! appearing decoder pads.
//!
//! The engine itself is an external collaborator; the executable shell
//! instantiates these plans and feeds bus messages back into the state
//! machine below.

use vstd::prelude::*;
use crate::format::EncodingDescriptor;

verus! {

/// One processing element of a graph, with the configuration it is created
/// with.
#[derive(Debug)]
pub enum ElementSpec {
    /// Disc-track source used for ripping, configured with a 1-based track.
    CdRipSource { track: u32 },
    /// Disc-track source used for direct playback.
    CdPlaySource { track: u32 },
    /// A buffering queue bounded by buffer count, time and bytes; a zero
    /// count means unbounded in that dimension.
    BufferQueue { max_buffers: u32, max_time_ns: u64, max_bytes: u32 },
    /// Timestamp-rate normalizer.
    RateNormalizer,
    /// Sample-format converter.
    SampleConverter,
    /// Sample-rate converter.
    RateResampler,
    /// The generic multiplexing encoder, configured with a format's
    /// encoding descriptor.
    Encoder { profile: EncodingDescriptor },
    /// File sink writing the encoded stream.
    FileOutput { location: String },
    /// File source for playback.
    FileInput { location: String },
    /// Container demuxer/decoder whose output pads appear dynamically.
    Decoder,
    /// The system audio output.
    SystemAudioOutput,
}

/// How a graph's one dynamic connection, if any, is made.
#[derive(Debug, PartialEq, Eq, Structural)]
pub enum DynamicLinkRule {
    /// Every link of the graph is static.
    FullyStatic,
    /// Request an audio input pad on the encoder element and link the
    /// upstream element's output to it; failure to obtain the pad means the
    /// format is unsupported by the installed plugins.
    RequestEncoderPad { upstream: usize, encoder: usize },
    /// Wait for the decoder's output pads to appear and link the first audio
    /// pad, exactly once, to the sink element's input.
    AwaitDecoderPads { decoder: usize, sink: usize },
}

/// A graph to build: elements to instantiate, static links between them
/// (upstream index, downstream index), and the dynamic-link rule.
#[derive(Debug)]
pub struct GraphPlan {
    pub elements: Vec<ElementSpec>,
    pub links: Vec<(usize, usize)>,
    pub dynamic: DynamicLinkRule,
}

impl GraphPlan {
    /// Links only connect elements of the plan, never an element to itself.
    pub open spec fn wf(self) -> bool {
        &&& forall|i: int|
            0 <= i < self.links@.len() ==> (#[trigger] self.links@[i]).0 < self.elements@.len()
                && self.links@[i].1 < self.elements@.len() && self.links@[i].0 != self.links@[i].1
        &&& match self.dynamic {
            DynamicLinkRule::FullyStatic => true,
            DynamicLinkRule::RequestEncoderPad { upstream, encoder } => upstream
                < self.elements@.len() && encoder < self.elements@.len() && upstream != encoder,
            DynamicLinkRule::AwaitDecoderPads { decoder, sink } => decoder < self.elements@.len()
                && sink < self.elements@.len() && decoder != sink,
        }
    }
}

/// A bus message of a running graph, as the orchestration layer reads it.
#[derive(Debug)]
pub enum BusMessage {
    /// End of stream: the run succeeded.
    EndOfStream,
    /// The engine reported a runtime fault.
    ErrorReport { message: String },
    /// An element changed state; only the whole pipeline reaching the
    /// playing state is announced.
    StateChanged { from_pipeline: bool, was_playing: bool, now_playing: bool },
    /// Informational stream tags, surfaced to the caller as they arrive.
    TagInfo { title: Option<String>, artist: Option<String>, album: Option<String> },
    /// Any other message; observed and ignored.
    Other,
}

/// Why a run ended.
#[derive(Debug, Clone)]
pub enum ExitReason {
    /// End of stream arrived.
    Finished,
    /// The engine reported an error.
    Failed { message: String },
    /// The caller cancelled the run from outside the bus-message flow.
    Cancelled,
}

/// The engine-visible state of a graph: idle or streaming.
#[derive(Debug, PartialEq, Eq, Structural)]
pub enum EngineState {
    Null,
    Playing,
}

/// One run of a graph: its engine state and, once the run has ended, why it
/// ended. Created per operation and never shared across operations.
#[derive(Debug)]
pub struct PipelineRun {
    pub state: EngineState,
    pub exit: Option<ExitReason>,
}

/// A message that ends the run-loop.
pub open spec fn spec_is_terminal(m: BusMessage) -> bool {
    m is EndOfStream || m is ErrorReport
}

/// The exit reason a terminal message records.
pub open spec fn spec_exit_for(m: BusMessage) -> ExitReason {
    match m {
        BusMessage::ErrorReport { message } => ExitReason::Failed { message },
        _ => ExitReason::Finished,
    }
}

/// Observing one message: the first terminal message fixes the exit reason;
/// everything else leaves the run unchanged.
pub open spec fn spec_observe(r: PipelineRun, m: BusMessage) -> PipelineRun {
    if r.exit is None && spec_is_terminal(m) {
        PipelineRun { state: r.state, exit: Some(spec_exit_for(m)) }
    } else {
        r
    }
}

/// Observing a whole message sequence in emission order.
pub open spec fn spec_run_events(r: PipelineRun, msgs: Seq<BusMessage>) -> PipelineRun
    decreases msgs.len(),
{
    if msgs.len() == 0 {
        r
    } else {
        spec_run_events(spec_observe(r, msgs[0]), msgs.drop_first())
    }
}

/// External cancellation: records a cancelled exit unless the run already
/// ended for another reason.
pub open spec fn spec_cancel(r: PipelineRun) -> PipelineRun {
    if r.exit is None {
        PipelineRun { state: r.state, exit: Some(ExitReason::Cancelled) }
    } else {
        r
    }
}

/// Teardown: the graph goes back to idle unconditionally; the exit reason is
/// kept.
pub open spec fn spec_teardown(r: PipelineRun) -> PipelineRun {
    PipelineRun { state: EngineState::Null, exit: r.exit }
}

impl PipelineRun {
    /// A fresh run: graph idle, not yet ended.
    pub fn new() -> (r: PipelineRun)
        ensures
            r.state is Null,
            r.exit is None,
    {
        PipelineRun { state: EngineState::Null, exit: None }
    }

    /// Transitions the graph to its streaming state.
    pub fn start(&mut self)
        requires
            old(self).state is Null,
        ensures
            final(self).state is Playing,
            final(self).exit == old(self).exit,
    {
        self.state = EngineState::Playing;
    }

    /// Consumes one bus message; returns whether the run-loop must quit.
    pub fn observe(&mut self, msg: &BusMessage) -> (quit: bool)
        ensures
            *final(self) == spec_observe(*old(self), *msg),
            quit == spec_is_terminal(*msg),
    {
        match msg {
            BusMessage::EndOfStream => {
                if self.exit.is_none() {
                    self.exit = Some(ExitReason::Finished);
                }
                true
            },
            BusMessage::ErrorReport { message } => {
                if self.exit.is_none() {
                    self.exit = Some(ExitReason::Failed { message: message.clone() });
                }
                true
            },
            _ => false,
        }
    }

    /// Requests cancellation from outside the bus-message flow.
    pub fn cancel(&mut self)
        ensures
            *final(self) == spec_cancel(*old(self)),
    {
        if self.exit.is_none() {
            self.exit = Some(ExitReason::Cancelled);
        }
    }

    /// Returns the graph to its idle state; run on every exit path.
    pub fn teardown(&mut self)
        ensures
            *final(self) == spec_teardown(*old(self)),
    {
        self.state = EngineState::Null;
    }
}

/// A run records an exit reason exactly when it already had one, a terminal
/// message arrived, or it was cancelled.
proof fn lemma_run_events_exit(r: PipelineRun, msgs: Seq<BusMessage>)
    ensures
        spec_run_events(r, msgs).exit is Some <==> (r.exit is Some || exists|i: int|
            0 <= i < msgs.len() && spec_is_terminal(#[trigger] msgs[i])),
        spec_run_events(r, msgs).state == r.state,
    decreases msgs.len(),
{
    if msgs.len() > 0 {
        lemma_run_events_exit(spec_observe(r, msgs[0]), msgs.drop_first());
        if spec_run_events(r, msgs).exit is Some {
            if !(r.exit is Some) && !spec_is_terminal(msgs[0]) {
                let j = choose|j: int|
                    0 <= j < msgs.drop_first().len() && spec_is_terminal(
                        #[trigger] msgs.drop_first()[j],
                    );
                assert(msgs.drop_first()[j] == msgs[j + 1]);
                assert(spec_is_terminal(msgs[j + 1]));
            }
        }
        if r.exit is Some || exists|i: int|
            0 <= i < msgs.len() && spec_is_terminal(#[trigger] msgs[i]) {
            if !(spec_observe(r, msgs[0]).exit is Some) {
                let i = choose|i: int| 0 <= i < msgs.len() && spec_is_terminal(#[trigger] msgs[i]);
                assert(i != 0);
                assert(msgs.drop_first()[i - 1] == msgs[i]);
                assert(spec_is_terminal(msgs.drop_first()[i - 1]));
            }
        }
    }
}

/// Playback teardown: whatever messages a run observes and whether or not it
/// is cancelled from outside, teardown leaves the graph idle; the exit
/// reason of the ended run is kept, is present on every genuine exit path
/// (end-of-stream, engine error, or cancellation), and is absent otherwise.
pub proof fn lemma_teardown_on_every_exit(r: PipelineRun, msgs: Seq<BusMessage>, cancelled: bool)
    ensures
        ({
            let ended = if cancelled {
                spec_cancel(spec_run_events(r, msgs))
            } else {
                spec_run_events(r, msgs)
            };
            let down = spec_teardown(ended);
            &&& down.state is Null
            &&& down.exit == ended.exit
            &&& (r.exit is None ==> (down.exit is Some <==> (cancelled || exists|i: int|
                0 <= i < msgs.len() && spec_is_terminal(#[trigger] msgs[i]))))
        }),
{
    lemma_run_events_exit(r, msgs);
}

/// The one-shot guard for dynamically appearing decoder pads: link the first
/// audio pad, skip every later pad, and treat non-audio pads as no error.
#[derive(Debug)]
pub struct PadLinker {
    pub linked: bool,
}

impl PadLinker {
    /// A fresh guard: nothing linked yet.
    pub fn new() -> (r: PadLinker)
        ensures
            !r.linked,
    {
        PadLinker { linked: false }
    }

    /// Handles one pad arrival; returns whether to link this pad. A link is
    /// made exactly when the pad is audio and no pad was linked before;
    /// non-audio pads are skipped without error.
    pub fn on_pad_added(&mut self, is_audio: bool) -> (link_now: bool)
        ensures
            link_now == (is_audio && !old(self).linked),
            final(self).linked == (old(self).linked || is_audio),
    {
        if is_audio && !self.linked {
            self.linked = true;
            true
        } else {
            if is_audio {
                self.linked = true;
            }
            false
        }
    }
}

/// How many links a pad-arrival sequence causes, starting from a given guard
/// state; each element of the sequence says whether that pad is audio.
pub open spec fn spec_links_made(linked: bool, pads: Seq<bool>) -> nat
    decreases pads.len(),
{
    if pads.len() == 0 {
        0
    } else {
        (if pads[0] && !linked {
            1nat
        } else {
            0nat
        }) + spec_links_made(linked || pads[0], pads.drop_first())
    }
}

/// Pad-arrival guard: over any sequence of pad arrivals, exactly one link is
/// made when at least one pad is audio, and none otherwise.
pub proof fn lemma_at_most_one_link(pads: Seq<bool>)
    ensures
        spec_links_made(false, pads) == (if exists|i: int| 0 <= i < pads.len() && pads[i] {
            1nat
        } else {
            0nat
        }),
{
    lemma_links_made_cases(false, pads);
    if exists|i: int| 0 <= i < pads.len() && pads[i] {
    } else {
        assert forall|i: int| 0 <= i < pads.len() implies !pads[i] by {
            if pads[i] {
                assert(exists|j: int| 0 <= j < pads.len() && pads[j]);
            }
        }
    }
}

proof fn lemma_links_made_cases(linked: bool, pads: Seq<bool>)
    ensures
        linked ==> spec_links_made(linked, pads) == 0,
        !linked ==> spec_links_made(linked, pads) == (if exists|i: int|
            0 <= i < pads.len() && pads[i] {
            1nat
        } else {
            0nat
        }),
    decreases pads.len(),
{
    if pads.len() > 0 {
        lemma_links_made_cases(linked || pads[0], pads.drop_first());
        if !linked {
            if pads[0] {
                assert(exists|i: int| 0 <= i < pads.len() && pads[i]);
            } else {
                if exists|i: int| 0 <= i < pads.len() && pads[i] {
                    let i = choose|i: int| 0 <= i < pads.len() && pads[i];
                    assert(i != 0);
                    assert(pads.drop_first()[i - 1] == pads[i]);
                    assert(exists|j: int|
                        0 <= j < pads.drop_first().len() && pads.drop_first()[j]);
                } else {
                    assert forall|j: int| 0 <= j < pads.drop_first().len() implies !pads.drop_first()[j] by {
                        assert(pads.drop_first()[j] == pads[j + 1]);
                        if pads[j + 1] {
                            assert(exists|i: int| 0 <= i < pads.len() && pads[i]);
                        }
                    }
                }
            }
        }
    }
}

/// The decision behind the progress announcement: announce exactly when the
/// whole pipeline has just entered the playing state.
pub fn should_announce_playing(from_pipeline: bool, was_playing: bool, now_playing: bool) -> (r:
    bool)
    ensures
        r == (from_pipeline && now_playing && !was_playing),
{
    from_pipeline && now_playing && !was_playing
}

} // verus!
