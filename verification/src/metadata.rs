//! Track, album and disc metadata as the orchestration core consumes it:
//! plain values handed over by the metadata collaborator.

use vstd::prelude::*;
use crate::text::{push_char, spec_dec, spec_two_digit, u32_to_dec, u32_to_two_digit};

verus! {

/// One album track, in disc playback order. Numbers are 1-based and dense.
#[derive(Debug, Clone)]
pub struct TrackDetails {
    pub number: u32,
    pub title: String,
    pub duration: Option<u32>,
    pub artist: Option<String>,
    pub artist_sortname: Option<String>,
    pub artist_id: Option<String>,
    pub track_id: Option<String>,
    pub composer: Option<String>,
    pub composer_sortname: Option<String>,
}

/// The duration rendered as minutes and two-digit seconds.
pub open spec fn spec_duration_string(d: u32) -> Seq<char> {
    spec_dec((d / 1000 / 60) as nat) + ":"@ + spec_two_digit(((d / 1000) % 60) as nat)
}

impl TrackDetails {
    /// Renders the optional duration, given in milliseconds, as "m:ss".
    pub fn duration_string(&self) -> (r: Option<String>)
        ensures
            match r {
                Some(s) => self.duration matches Some(d) && s@ == spec_duration_string(d),
                None => self.duration is None,
            },
    {
        match self.duration {
            Some(d) => {
                let seconds = d / 1000;
                let mut out = u32_to_dec(seconds / 60);
                push_char(&mut out, ':');
                let secs = u32_to_two_digit(seconds % 60);
                out.append(secs.as_str());
                proof {
                    reveal_strlit(":");
                    assert(out@ =~= spec_duration_string(d));
                }
                Some(out)
            },
            None => None,
        }
    }
}

/// One album: title, optional artist and release data, and the ordered tracks.
#[derive(Debug, Clone)]
pub struct AlbumDetails {
    pub album_id: String,
    pub title: String,
    pub artist: Option<String>,
    pub artist_sortname: Option<String>,
    pub artist_id: Option<String>,
    pub release_date: Option<String>,
    pub country: Option<String>,
    pub disc_number: Option<u32>,
    pub disc_count: Option<u32>,
    pub barcode: Option<String>,
    pub tracks: Vec<TrackDetails>,
    pub composer: Option<String>,
    pub composer_sortname: Option<String>,
}

/// What the disc reader hands over about a physical disc.
#[derive(Debug, Clone)]
pub struct DiscDetails {
    pub id: String,
    pub mcn: Option<String>,
    pub url: String,
    pub release_ids: Vec<String>,
}

impl DiscDetails {
    /// Packs the raw reader fields; an empty media catalog number means the
    /// disc carries none.
    pub fn new(id: String, mcn: String, url: String) -> (r: DiscDetails)
        ensures
            r.id == id,
            r.url == url,
            mcn@.len() == 0 ==> r.mcn is None,
            mcn@.len() > 0 ==> (r.mcn matches Some(m) && m == mcn),
            r.release_ids@.len() == 0,
    {
        let mcn_opt = if mcn.as_str().is_empty() {
            None
        } else {
            Some(mcn)
        };
        DiscDetails { id, mcn: mcn_opt, url, release_ids: Vec::new() }
    }
}

} // verus!
