//! Runtime capability probing: whether a format's encoder chain can actually
//! be assembled with the installed plugins.
//!
//! The engine answers two questions — can the multiplexing encoder element
//! be instantiated at all, and does it grant an audio input pad for the
//! format's descriptor. The decision and the request/release bookkeeping of
//! the probe instance are modelled here; the executable shell asks the
//! engine and feeds the answers in.

use vstd::prelude::*;
use crate::format::{spec_all_formats, AudioFormat};

verus! {

/// The pad ledger of one probe instance: how many input pads were requested
/// on it and how many were released again.
#[derive(Debug)]
pub struct ProbeSession {
    pub requested: u64,
    pub released: u64,
}

impl ProbeSession {
    pub open spec fn wf(self) -> bool {
        self.released <= self.requested
    }

    /// Pads requested but not yet released.
    pub open spec fn spec_outstanding(self) -> int {
        self.requested - self.released
    }

    /// A fresh probe instance: no pads requested.
    pub fn new() -> (r: ProbeSession)
        ensures
            r.wf(),
            r.spec_outstanding() == 0,
            r.requested == 0,
    {
        ProbeSession { requested: 0, released: 0 }
    }

    /// Records one pad request and whether the engine granted it.
    pub fn request_pad(&mut self, granted: bool) -> (r: bool)
        requires
            old(self).requested < u64::MAX,
        ensures
            r == granted,
            final(self).released == old(self).released,
            final(self).requested == if granted {
                old(self).requested + 1
            } else {
                old(self).requested as int
            },
    {
        if granted {
            self.requested = self.requested + 1;
        }
        granted
    }

    /// Records the release of one outstanding pad.
    pub fn release_pad(&mut self)
        requires
            old(self).released < old(self).requested,
        ensures
            final(self).requested == old(self).requested,
            final(self).released == old(self).released + 1,
    {
        self.released = self.released + 1;
    }

    /// One probe: supported exactly when the encoder element exists and
    /// granted an audio pad; a granted pad is always released again.
    pub fn probe(&mut self, encoder_available: bool, pad_granted: bool) -> (supported: bool)
        requires
            old(self).wf(),
            old(self).requested < u64::MAX,
        ensures
            supported == spec_probe_outcome(*old(self), encoder_available, pad_granted),
            *final(self) == spec_session_after_probe(*old(self), encoder_available, pad_granted),
            final(self).wf(),
            final(self).spec_outstanding() == old(self).spec_outstanding(),
    {
        if !encoder_available {
            return false;
        }
        let granted = self.request_pad(pad_granted);
        if granted {
            self.release_pad();
            true
        } else {
            false
        }
    }
}

/// What one probe answers. The session state is a parameter so that its
/// irrelevance can be stated and proved, not merely assumed.
pub open spec fn spec_probe_outcome(s: ProbeSession, encoder_available: bool, pad_granted: bool) -> bool {
    encoder_available && pad_granted
}

/// The session after one probe: a granted pad was requested and released.
pub open spec fn spec_session_after_probe(
    s: ProbeSession,
    encoder_available: bool,
    pad_granted: bool,
) -> ProbeSession {
    if encoder_available && pad_granted {
        ProbeSession { requested: (s.requested + 1) as u64, released: (s.released + 1) as u64 }
    } else {
        s
    }
}

/// Probing is idempotent: with the engine giving the same answers, a second
/// probe of the same format returns the same boolean as the first, and two
/// probes in succession leave no additional requested-but-unreleased pad on
/// the probe instance.
pub proof fn lemma_probe_idempotent(s: ProbeSession, encoder_available: bool, pad_granted: bool)
    requires
        s.wf(),
        s.requested + 2 <= u64::MAX,
    ensures
        spec_probe_outcome(
            spec_session_after_probe(s, encoder_available, pad_granted),
            encoder_available,
            pad_granted,
        ) == spec_probe_outcome(s, encoder_available, pad_granted),
        spec_session_after_probe(
            spec_session_after_probe(s, encoder_available, pad_granted),
            encoder_available,
            pad_granted,
        ).spec_outstanding() == s.spec_outstanding(),
{
}

/// Filters the registry by runtime support.
pub struct FormatValidator;

/// The formats whose probes succeeded, in registry order, considering only
/// the first `n` registry entries. With an unusable encoder element nothing
/// is supported.
pub open spec fn spec_supported_prefix(encoder_available: bool, grants: Seq<bool>, n: int) -> Seq<
    AudioFormat,
>
    decreases n,
{
    if n <= 0 {
        Seq::empty()
    } else {
        spec_supported_prefix(encoder_available, grants, n - 1) + (if encoder_available && grants[n
            - 1] {
            seq![spec_all_formats()[n - 1]]
        } else {
            Seq::empty()
        })
    }
}

/// The formats whose probes succeeded, in registry order.
pub open spec fn spec_supported_formats(encoder_available: bool, grants: Seq<bool>) -> Seq<
    AudioFormat,
> {
    spec_supported_prefix(encoder_available, grants, spec_all_formats().len() as int)
}

impl FormatValidator {
    /// Decides support for one format from the engine's answers, keeping the
    /// probe instance's pad ledger balanced.
    pub fn check_support(
        probe: &mut ProbeSession,
        encoder_available: bool,
        pad_granted: bool,
    ) -> (supported: bool)
        requires
            old(probe).wf(),
            old(probe).requested < u64::MAX,
        ensures
            supported == spec_probe_outcome(*old(probe), encoder_available, pad_granted),
            *final(probe) == spec_session_after_probe(*old(probe), encoder_available, pad_granted),
            final(probe).wf(),
            final(probe).spec_outstanding() == old(probe).spec_outstanding(),
    {
        probe.probe(encoder_available, pad_granted)
    }

    /// The registry filtered by the per-format probe answers, in registry
    /// order; empty when the encoder element cannot be instantiated at all.
    pub fn get_supported_formats(encoder_available: bool, pad_granted: &Vec<bool>) -> (r: Vec<
        AudioFormat,
    >)
        requires
            pad_granted@.len() == spec_all_formats().len(),
        ensures
            r@ == spec_supported_formats(encoder_available, pad_granted@),
    {
        let all = AudioFormat::all_formats();
        let mut out: Vec<AudioFormat> = Vec::new();
        let mut i: usize = 0;
        while i < all.len()
            invariant
                all@ == spec_all_formats(),
                pad_granted@.len() == spec_all_formats().len(),
                i <= all@.len(),
                out@ == spec_supported_prefix(encoder_available, pad_granted@, i as int),
            decreases all@.len() - i,
        {
            if encoder_available && pad_granted[i] {
                out.push(all[i]);
            }
            i = i + 1;
            proof {
                assert(out@ =~= spec_supported_prefix(encoder_available, pad_granted@, i as int));
            }
        }
        out
    }
}

} // verus!
