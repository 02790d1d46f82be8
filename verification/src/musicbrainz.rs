//! Mapping the metadata collaborator's release data onto albums and tracks:
//! barcode matching of a disc's media catalog number, picking release
//! candidates, joining artist credits, and converting a release's track
//! list — leading data tracks stripped and positions re-based — into the
//! album's playback order.
//!
//! The structures here hold, as plain values, exactly what this logic reads
//! of a release; the executable shell fills them from the metadata service's
//! responses.

use vstd::prelude::*;
use crate::metadata::{AlbumDetails, DiscDetails, TrackDetails};
use crate::text::str_eq;

verus! {

/// One artist credit of a release or track.
#[derive(Debug, Clone)]
pub struct ArtistCreditInfo {
    pub name: String,
    pub joinphrase: Option<String>,
    pub sort_name: String,
    pub artist_id: String,
}

/// One track of a release's medium, as the collaborator reports it.
#[derive(Debug, Clone)]
pub struct ReleaseTrackInfo {
    pub position: u32,
    pub title: String,
    pub length: Option<u32>,
    pub artist_credit: Option<Vec<ArtistCreditInfo>>,
    pub recording_id: Option<String>,
}

/// One medium of a release.
#[derive(Debug, Clone)]
pub struct MediumInfo {
    pub tracks: Option<Vec<ReleaseTrackInfo>>,
}

/// A release, as much of it as the album mapping reads.
#[derive(Debug, Clone)]
pub struct ReleaseInfo {
    pub id: String,
    pub title: String,
    pub artist_credit: Option<Vec<ArtistCreditInfo>>,
    pub date: Option<String>,
    pub country: Option<String>,
    pub barcode: Option<String>,
    pub media: Option<Vec<MediumInfo>>,
}

/// A release candidate for a disc: its id and barcode.
#[derive(Debug, Clone)]
pub struct DiscReleaseInfo {
    pub id: String,
    pub barcode: Option<String>,
}

pub open spec fn view_opt_str(o: Option<String>) -> Option<Seq<char>> {
    match o {
        Some(s) => Some(s@),
        None => None,
    }
}

/// A media catalog number matches a barcode either as a 13-digit EAN
/// verbatim, or as a 12-digit UPC prefixed with a zero.
pub open spec fn spec_mcn_matches_barcode(mcn: Option<Seq<char>>, barcode: Option<Seq<char>>) -> bool {
    match (mcn, barcode) {
        (Some(m), Some(b)) => if b.len() == 12 {
            m.len() >= 1 && m[0] == '0' && m.skip(1) == b
        } else if b.len() == 13 {
            m == b
        } else {
            false
        },
        _ => false,
    }
}

pub open spec fn spec_release_matches(mcn: Option<Seq<char>>, r: DiscReleaseInfo) -> bool {
    spec_mcn_matches_barcode(mcn, view_opt_str(r.barcode))
}

pub open spec fn spec_has_match(mcn: Option<Seq<char>>, rels: Seq<DiscReleaseInfo>) -> bool {
    exists|i: int| 0 <= i < rels.len() && spec_release_matches(mcn, #[trigger] rels[i])
}

/// The index of the first matching release.
pub open spec fn spec_first_match_idx(mcn: Option<Seq<char>>, rels: Seq<DiscReleaseInfo>) -> int
    decreases rels.len(),
{
    if rels.len() == 0 {
        0
    } else if spec_release_matches(mcn, rels[0]) {
        0
    } else {
        1 + spec_first_match_idx(mcn, rels.drop_first())
    }
}

proof fn lemma_first_match_idx(mcn: Option<Seq<char>>, rels: Seq<DiscReleaseInfo>, i: int)
    requires
        0 <= i < rels.len(),
        spec_release_matches(mcn, rels[i]),
        forall|j: int| 0 <= j < i ==> !spec_release_matches(mcn, #[trigger] rels[j]),
    ensures
        spec_has_match(mcn, rels),
        spec_first_match_idx(mcn, rels) == i,
    decreases i,
{
    if i == 0 {
    } else {
        assert(!spec_release_matches(mcn, rels[0]));
        assert forall|j: int| 0 <= j < i - 1 implies !spec_release_matches(
            mcn,
            #[trigger] rels.drop_first()[j],
        ) by {
            assert(rels.drop_first()[j] == rels[j + 1]);
        }
        assert(rels.drop_first()[i - 1] == rels[i]);
        lemma_first_match_idx(mcn, rels.drop_first(), i - 1);
    }
}

/// The client-side logic of the metadata service: what this core computes
/// from the service's responses.
pub struct MusicBrainzClient;

impl MusicBrainzClient {
    /// Whether a disc's media catalog number and a release's barcode agree.
    pub fn mcn_matches_barcode(mcn: Option<&str>, barcode: Option<&str>) -> (r: bool)
        ensures
            r == spec_mcn_matches_barcode(
                match mcn {
                    Some(m) => Some(m@),
                    None => None,
                },
                match barcode {
                    Some(b) => Some(b@),
                    None => None,
                },
            ),
    {
        match (mcn, barcode) {
            (Some(m), Some(b)) => {
                let blen = b.unicode_len();
                let mlen = m.unicode_len();
                if blen == 12 {
                    if mlen >= 1 && m.get_char(0) == '0' {
                        let rest = m.substring_char(1, mlen);
                        str_eq(rest, b)
                    } else {
                        false
                    }
                } else if blen == 13 {
                    str_eq(m, b)
                } else {
                    false
                }
            },
            _ => false,
        }
    }

    /// Picks the releases worth fetching for a disc: the first release whose
    /// barcode matches the disc's media catalog number, alone, if there is
    /// one; otherwise every candidate, in the reported order.
    pub fn select_release_ids(disc: &DiscDetails, releases: &Vec<DiscReleaseInfo>) -> (r: Vec<
        String,
    >)
        ensures
            spec_has_match(view_opt_str(disc.mcn), releases@) ==> r@.len() == 1 && r@[0]
                == releases@[spec_first_match_idx(view_opt_str(disc.mcn), releases@)].id,
            !spec_has_match(view_opt_str(disc.mcn), releases@) ==> r@.len() == releases@.len()
                && forall|i: int| 0 <= i < releases@.len() ==> #[trigger] r@[i] == releases@[i].id,
    {
        let mut out: Vec<String> = Vec::new();
        let mut i: usize = 0;
        while i < releases.len()
            invariant
                i <= releases@.len(),
                out@.len() == i,
                forall|j: int| 0 <= j < i ==> #[trigger] out@[j] == releases@[j].id,
                forall|j: int|
                    0 <= j < i ==> !spec_release_matches(
                        view_opt_str(disc.mcn),
                        #[trigger] releases@[j],
                    ),
            decreases releases@.len() - i,
        {
            let rel = &releases[i];
            let matched = match (&disc.mcn, &rel.barcode) {
                (Some(m), Some(b)) => Self::mcn_matches_barcode(
                    Some(m.as_str()),
                    Some(b.as_str()),
                ),
                _ => false,
            };
            if matched {
                proof {
                    lemma_first_match_idx(view_opt_str(disc.mcn), releases@, i as int);
                }
                let mut only: Vec<String> = Vec::new();
                only.push(rel.id.clone());
                return only;
            }
            out.push(rel.id.clone());
            i = i + 1;
        }
        proof {
            if spec_has_match(view_opt_str(disc.mcn), releases@) {
                let k = choose|k: int|
                    0 <= k < releases@.len() && spec_release_matches(
                        view_opt_str(disc.mcn),
                        #[trigger] releases@[k],
                    );
                assert(!spec_release_matches(view_opt_str(disc.mcn), releases@[k]));
            }
        }
        out
    }
}

/// The separator written before a credit's name: the previous credit's side
/// carries no phrase here, so the credit's own join phrase is used when it
/// is present and non-empty, a comma otherwise. Track credits always join
/// with a comma.
pub open spec fn spec_join_sep(c: ArtistCreditInfo, use_joinphrase: bool) -> Seq<char> {
    if use_joinphrase {
        match c.joinphrase {
            Some(j) => if j@.len() > 0 {
                j@
            } else {
                ", "@
            },
            None => ", "@,
        }
    } else {
        ", "@
    }
}

/// All credit names joined in order, with the separator rule above.
pub open spec fn spec_joined_names(credits: Seq<ArtistCreditInfo>, use_joinphrase: bool) -> Seq<
    char,
>
    decreases credits.len(),
{
    if credits.len() == 0 {
        Seq::empty()
    } else if credits.len() == 1 {
        credits[0].name@
    } else {
        spec_joined_names(credits.drop_last(), use_joinphrase) + spec_join_sep(
            credits.last(),
            use_joinphrase,
        ) + credits.last().name@
    }
}

/// Joins the credit names of a release or track into one artist name.
fn join_artist_names(credits: &Vec<ArtistCreditInfo>, use_joinphrase: bool) -> (r: String)
    ensures
        r@ == spec_joined_names(credits@, use_joinphrase),
{
    let mut out = String::new();
    let mut i: usize = 0;
    while i < credits.len()
        invariant
            i <= credits@.len(),
            out@ == spec_joined_names(credits@.take(i as int), use_joinphrase),
        decreases credits@.len() - i,
    {
        if i > 0 {
            let sep: &str = if use_joinphrase {
                match &credits[i].joinphrase {
                    Some(j) => if j.as_str().is_empty() {
                        ", "
                    } else {
                        j.as_str()
                    },
                    None => ", ",
                }
            } else {
                ", "
            };
            out.append(sep);
        }
        out.append(credits[i].name.as_str());
        i = i + 1;
        proof {
            assert(credits@.take(i as int).drop_last() =~= credits@.take(i as int - 1));
            assert(credits@.take(i as int).last() == credits@[i as int - 1]);
        }
    }
    proof {
        assert(credits@.take(credits@.len() as int) =~= credits@);
    }
    out
}

/// The artist name used when a release or album carries none of its own.
pub open spec fn spec_artist_fallback_name(a: Option<String>) -> Seq<char> {
    match a {
        Some(s) => s@,
        None => "Unknown Artist"@,
    }
}

/// The artist name of a release: its credits joined, or the unknown-artist
/// name when it has none.
pub open spec fn spec_release_artist_name(ac: Option<Vec<ArtistCreditInfo>>) -> Seq<char> {
    match ac {
        Some(c) => if c@.len() > 0 {
            spec_joined_names(c@, true)
        } else {
            "Unknown Artist"@
        },
        None => "Unknown Artist"@,
    }
}

/// A track of a release is titled like a data track.
pub open spec fn spec_is_data_track(t: ReleaseTrackInfo) -> bool {
    t.title@ == "[data track]"@
}

/// How many data tracks lead the medium's track list.
pub open spec fn spec_data_prefix(ts: Seq<ReleaseTrackInfo>) -> int
    decreases ts.len(),
{
    if ts.len() == 0 {
        0
    } else if spec_is_data_track(ts[0]) {
        1 + spec_data_prefix(ts.drop_first())
    } else {
        0
    }
}

proof fn lemma_data_prefix(ts: Seq<ReleaseTrackInfo>, p: int)
    requires
        0 <= p <= ts.len(),
        forall|j: int| 0 <= j < p ==> spec_is_data_track(#[trigger] ts[j]),
        p < ts.len() ==> !spec_is_data_track(ts[p]),
    ensures
        spec_data_prefix(ts) == p,
    decreases p,
{
    if p == 0 {
    } else {
        assert(spec_is_data_track(ts[0]));
        assert forall|j: int| 0 <= j < p - 1 implies spec_is_data_track(
            #[trigger] ts.drop_first()[j],
        ) by {
            assert(ts.drop_first()[j] == ts[j + 1]);
        }
        if p - 1 < ts.drop_first().len() {
            assert(ts.drop_first()[p - 1] == ts[p]);
        }
        lemma_data_prefix(ts.drop_first(), p - 1);
    }
}

/// The number offset applied to kept tracks: one less than the first kept
/// track's position, floored at zero.
pub open spec fn spec_track_offset(kept: Seq<ReleaseTrackInfo>) -> u32 {
    if kept.len() > 0 {
        if kept[0].position >= 1 {
            (kept[0].position - 1) as u32
        } else {
            0u32
        }
    } else {
        0u32
    }
}

/// The medium's track positions never decrease.
pub open spec fn spec_positions_sorted(ts: Seq<ReleaseTrackInfo>) -> bool {
    forall|i: int, j: int|
        0 <= i <= j < ts.len() ==> #[trigger] ts[i].position <= #[trigger] ts[j].position
}

/// How one converted album track relates to the release track it came from.
/// The artist fields fall back to the album's own when the track carries no
/// credit of its own.
pub open spec fn spec_track_matches(
    td: TrackDetails,
    src: ReleaseTrackInfo,
    offset: u32,
    album_artist: Option<String>,
    album_sortname: Option<String>,
    album_id: Option<String>,
) -> bool {
    &&& td.number == src.position - offset
    &&& td.title@ == src.title@
    &&& td.duration == src.length
    &&& match src.artist_credit {
        Some(c) => if c@.len() > 0 {
            &&& td.artist matches Some(a) && a@ == spec_joined_names(c@, false)
            &&& if c@.len() == 1 {
                td.artist_sortname == Some(c@[0].sort_name) && td.artist_id == Some(c@[0].artist_id)
            } else {
                td.artist_sortname is None && td.artist_id is None
            }
        } else {
            &&& td.artist matches Some(a) && a@ == spec_artist_fallback_name(album_artist)
            &&& td.artist_sortname == album_sortname
            &&& td.artist_id == album_id
        },
        None => {
            &&& td.artist matches Some(a) && a@ == spec_artist_fallback_name(album_artist)
            &&& td.artist_sortname == album_sortname
            &&& td.artist_id == album_id
        },
    }
    &&& td.track_id == src.recording_id
    &&& td.composer is None
    &&& td.composer_sortname is None
}

/// The first medium carries a usable track list.
pub open spec fn spec_release_has_tracks(release: ReleaseInfo) -> bool {
    release.media matches Some(media) && media@.len() > 0 && media@[0].tracks is Some
}

/// The track list of the first medium.
pub open spec fn spec_release_tracks(release: ReleaseInfo) -> Seq<ReleaseTrackInfo> {
    release.media->Some_0@[0].tracks->Some_0@
}

fn clone_opt_string(o: &Option<String>) -> (r: Option<String>)
    ensures
        r == *o,
{
    match o {
        Some(s) => Some(s.clone()),
        None => None,
    }
}

/// The artist fields of one converted track: its own credits joined with a
/// comma, or the album's artist fields when it has none.
fn track_artist_fields(
    credits: &Option<Vec<ArtistCreditInfo>>,
    album_artist: &Option<String>,
    album_sortname: &Option<String>,
    album_id: &Option<String>,
) -> (r: (String, Option<String>, Option<String>))
    ensures
        match credits {
            Some(c) => if c@.len() > 0 {
                r.0@ == spec_joined_names(c@, false) && (if c@.len() == 1 {
                    r.1 == Some(c@[0].sort_name) && r.2 == Some(c@[0].artist_id)
                } else {
                    r.1 is None && r.2 is None
                })
            } else {
                r.0@ == spec_artist_fallback_name(*album_artist) && r.1 == *album_sortname && r.2
                    == *album_id
            },
            None => r.0@ == spec_artist_fallback_name(*album_artist) && r.1 == *album_sortname
                && r.2 == *album_id,
        },
{
    match credits {
        Some(c) if c.len() > 0 => {
            let name = join_artist_names(c, false);
            if c.len() == 1 {
                (name, Some(c[0].sort_name.clone()), Some(c[0].artist_id.clone()))
            } else {
                (name, None, None)
            }
        },
        _ => {
            let name = match album_artist {
                Some(a) => a.clone(),
                None => String::from_str("Unknown Artist"),
            };
            (name, clone_opt_string(album_sortname), clone_opt_string(album_id))
        },
    }
}

impl MusicBrainzClient {
    /// The artist of a release: the joined credit names, with the sort name
    /// and id carried over only for a single credit; the unknown-artist name
    /// when the release has no credits.
    pub fn get_artist_info_from_release(release: &ReleaseInfo) -> (r: (
        String,
        Option<String>,
        Option<String>,
    ))
        ensures
            r.0@ == spec_release_artist_name(release.artist_credit),
            match release.artist_credit {
                Some(c) => if c@.len() == 1 {
                    r.1 == Some(c@[0].sort_name) && r.2 == Some(c@[0].artist_id)
                } else {
                    r.1 is None && r.2 is None
                },
                None => r.1 is None && r.2 is None,
            },
    {
        match &release.artist_credit {
            Some(c) if c.len() > 0 => {
                let name = join_artist_names(c, true);
                if c.len() == 1 {
                    (name, Some(c[0].sort_name.clone()), Some(c[0].artist_id.clone()))
                } else {
                    (name, None, None)
                }
            },
            _ => (String::from_str("Unknown Artist"), None, None),
        }
    }

    /// Rebuilds the album's track list from the first medium of a release:
    /// leading data tracks are skipped, positions are re-based to start at
    /// one, and artist fields fall back to the album's own. A release
    /// without a usable first medium leaves the album as it was.
    pub fn fill_tracks_from_release(release: &ReleaseInfo, album: &mut AlbumDetails)
        requires
            spec_release_has_tracks(*release) ==> spec_positions_sorted(
                spec_release_tracks(*release),
            ),
        ensures
            !spec_release_has_tracks(*release) ==> *final(album) == *old(album),
            spec_release_has_tracks(*release) ==> ({
                let kept = spec_release_tracks(*release).skip(
                    spec_data_prefix(spec_release_tracks(*release)),
                );
                let offset = spec_track_offset(kept);
                &&& final(album).tracks@.len() == kept.len()
                &&& forall|i: int|
                    0 <= i < kept.len() ==> spec_track_matches(
                        #[trigger] final(album).tracks@[i],
                        kept[i],
                        offset,
                        old(album).artist,
                        old(album).artist_sortname,
                        old(album).artist_id,
                    )
            }),
            final(album).album_id == old(album).album_id,
            final(album).title == old(album).title,
            final(album).artist == old(album).artist,
            final(album).artist_sortname == old(album).artist_sortname,
            final(album).artist_id == old(album).artist_id,
            final(album).release_date == old(album).release_date,
            final(album).country == old(album).country,
            final(album).disc_number == old(album).disc_number,
            final(album).disc_count == old(album).disc_count,
            final(album).barcode == old(album).barcode,
            final(album).composer == old(album).composer,
            final(album).composer_sortname == old(album).composer_sortname,
            !spec_release_has_tracks(*release) ==> final(album).tracks == old(album).tracks,
    {
        let media = match &release.media {
            Some(m) => m,
            None => {
                return ;
            },
        };
        if media.len() == 0 {
            return ;
        }
        let ts = match &media[0].tracks {
            Some(t) => t,
            None => {
                return ;
            },
        };
        // Skip the data tracks that lead the track list.
        let mut p: usize = 0;
        while p < ts.len() && str_eq(ts[p].title.as_str(), "[data track]")
            invariant
                p <= ts@.len(),
                forall|j: int| 0 <= j < p ==> spec_is_data_track(#[trigger] ts@[j]),
            decreases ts@.len() - p,
        {
            p = p + 1;
        }
        proof {
            lemma_data_prefix(ts@, p as int);
        }
        let ghost kept = ts@.skip(p as int);
        // The first kept track fixes the numbering offset.
        let offset: u32 = if p < ts.len() {
            let first_pos = ts[p].position;
            if first_pos >= 1 {
                first_pos - 1
            } else {
                0
            }
        } else {
            0
        };
        proof {
            assert(kept.len() > 0 ==> kept[0] == ts@[p as int]);
            assert(offset == spec_track_offset(kept));
        }
        let mut new_tracks: Vec<TrackDetails> = Vec::new();
        let mut i: usize = p;
        while i < ts.len()
            invariant
                p <= i <= ts@.len(),
                kept == ts@.skip(p as int),
                spec_positions_sorted(ts@),
                offset == spec_track_offset(kept),
                new_tracks@.len() == i - p,
                forall|j: int|
                    0 <= j < i - p ==> spec_track_matches(
                        #[trigger] new_tracks@[j],
                        kept[j],
                        offset,
                        album.artist,
                        album.artist_sortname,
                        album.artist_id,
                    ),
            decreases ts@.len() - i,
    {
            let t = &ts[i];
            proof {
                assert(ts@[p as int].position <= ts@[i as int].position);
                assert(kept[i - p as int] == ts@[i as int]);
            }
            let (artist, artist_sortname, artist_id) = track_artist_fields(
                &t.artist_credit,
                &album.artist,
                &album.artist_sortname,
                &album.artist_id,
            );
            let td = TrackDetails {
                number: t.position - offset,
                title: t.title.clone(),
                duration: t.length,
                artist: Some(artist),
                artist_sortname,
                artist_id,
                track_id: clone_opt_string(&t.recording_id),
                composer: None,
                composer_sortname: None,
            };
            new_tracks.push(td);
            i = i + 1;
        }
        album.tracks = new_tracks;
    }

    /// Builds the album a release describes: its identity, artist, release
    /// data, and the converted track list of its first medium.
    pub fn make_album_from_release(release: &ReleaseInfo) -> (r: Option<AlbumDetails>)
        requires
            spec_release_has_tracks(*release) ==> spec_positions_sorted(
                spec_release_tracks(*release),
            ),
            release.media matches Some(m) ==> m@.len() <= u32::MAX,
        ensures
            r matches Some(a) && {
                &&& a.album_id == release.id
                &&& a.title == release.title
                &&& a.artist matches Some(artist) && artist@ == spec_release_artist_name(
                    release.artist_credit,
                )
                &&& match release.artist_credit {
                    Some(c) => if c@.len() == 1 {
                        a.artist_sortname == Some(c@[0].sort_name) && a.artist_id == Some(
                            c@[0].artist_id,
                        )
                    } else {
                        a.artist_sortname is None && a.artist_id is None
                    },
                    None => a.artist_sortname is None && a.artist_id is None,
                }
                &&& a.release_date == release.date
                &&& a.country == release.country
                &&& a.disc_number is None
                &&& match release.media {
                    Some(m) => a.disc_count == Some(m@.len() as u32),
                    None => a.disc_count is None,
                }
                &&& a.barcode == release.barcode
                &&& a.composer is None
                &&& a.composer_sortname is None
                &&& (!spec_release_has_tracks(*release) ==> a.tracks@.len() == 0)
                &&& (spec_release_has_tracks(*release) ==> ({
                    let kept = spec_release_tracks(*release).skip(
                        spec_data_prefix(spec_release_tracks(*release)),
                    );
                    let offset = spec_track_offset(kept);
                    &&& a.tracks@.len() == kept.len()
                    &&& forall|i: int|
                        0 <= i < kept.len() ==> spec_track_matches(
                            #[trigger] a.tracks@[i],
                            kept[i],
                            offset,
                            a.artist,
                            a.artist_sortname,
                            a.artist_id,
                        )
                }))
            },
    {
        let (artist, artist_sortname, artist_id) = Self::get_artist_info_from_release(release);
        let disc_count = match &release.media {
            Some(m) => Some(m.len() as u32),
            None => None,
        };
        let mut album = AlbumDetails {
            album_id: release.id.clone(),
            title: release.title.clone(),
            artist: Some(artist),
            artist_sortname,
            artist_id,
            release_date: clone_opt_string(&release.date),
            country: clone_opt_string(&release.country),
            disc_number: None,
            disc_count,
            barcode: clone_opt_string(&release.barcode),
            tracks: Vec::new(),
            composer: None,
            composer_sortname: None,
        };
        Self::fill_tracks_from_release(release, &mut album);
        Some(album)
    }
}

} // verus!
