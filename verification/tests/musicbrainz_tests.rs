use cdrip::metadata::{AlbumDetails, DiscDetails};
use cdrip::musicbrainz::{
    ArtistCreditInfo, DiscReleaseInfo, MediumInfo, MusicBrainzClient, ReleaseInfo,
    ReleaseTrackInfo,
};

fn credit(name: &str, joinphrase: Option<&str>) -> ArtistCreditInfo {
    ArtistCreditInfo {
        name: name.to_string(),
        joinphrase: joinphrase.map(|j| j.to_string()),
        sort_name: format!("{}, sorted", name),
        artist_id: format!("{}-id", name),
    }
}

fn release_track(
    position: u32,
    title: &str,
    credits: Option<Vec<ArtistCreditInfo>>,
) -> ReleaseTrackInfo {
    ReleaseTrackInfo {
        position,
        title: title.to_string(),
        length: Some(200_000),
        artist_credit: credits,
        recording_id: Some(format!("rec-{}", position)),
    }
}

fn release(credits: Option<Vec<ArtistCreditInfo>>, tracks: Vec<ReleaseTrackInfo>) -> ReleaseInfo {
    ReleaseInfo {
        id: "rel-1".to_string(),
        title: "The Release".to_string(),
        artist_credit: credits,
        date: Some("1999-09-09".to_string()),
        country: Some("FR".to_string()),
        barcode: Some("1234567890123".to_string()),
        media: Some(vec![MediumInfo { tracks: Some(tracks) }]),
    }
}

#[test]
fn mcn_matches_ean_barcode() {
    assert!(MusicBrainzClient::mcn_matches_barcode(
        Some("1234567890123"),
        Some("1234567890123")
    ));
    assert!(!MusicBrainzClient::mcn_matches_barcode(
        Some("1234567890123"),
        Some("9994567890123")
    ));
}

#[test]
fn mcn_matches_upc_barcode_with_leading_zero() {
    assert!(MusicBrainzClient::mcn_matches_barcode(
        Some("0123456789012"),
        Some("123456789012")
    ));
    assert!(!MusicBrainzClient::mcn_matches_barcode(
        Some("9123456789012"),
        Some("123456789012")
    ));
}

#[test]
fn mcn_match_needs_both_sides_and_a_known_length() {
    assert!(!MusicBrainzClient::mcn_matches_barcode(None, Some("1234567890123")));
    assert!(!MusicBrainzClient::mcn_matches_barcode(Some("123"), None));
    assert!(!MusicBrainzClient::mcn_matches_barcode(Some("1234"), Some("1234")));
}

fn disc(mcn: &str) -> DiscDetails {
    DiscDetails::new("disc-id".to_string(), mcn.to_string(), "url".to_string())
}

#[test]
fn select_release_ids_keeps_all_without_a_match() {
    let releases = vec![
        DiscReleaseInfo { id: "a".to_string(), barcode: None },
        DiscReleaseInfo { id: "b".to_string(), barcode: Some("0000000000000".to_string()) },
    ];
    let ids = MusicBrainzClient::select_release_ids(&disc("1234567890123"), &releases);
    assert_eq!(ids, vec!["a".to_string(), "b".to_string()]);
}

#[test]
fn select_release_ids_narrows_to_the_matching_release() {
    let releases = vec![
        DiscReleaseInfo { id: "a".to_string(), barcode: Some("9999999999999".to_string()) },
        DiscReleaseInfo { id: "b".to_string(), barcode: Some("1234567890123".to_string()) },
        DiscReleaseInfo { id: "c".to_string(), barcode: Some("1234567890123".to_string()) },
    ];
    let ids = MusicBrainzClient::select_release_ids(&disc("1234567890123"), &releases);
    assert_eq!(ids, vec!["b".to_string()]);
}

#[test]
fn artist_info_without_credits_is_unknown() {
    let r = release(None, Vec::new());
    let (name, sortname, id) = MusicBrainzClient::get_artist_info_from_release(&r);
    assert_eq!(name, "Unknown Artist");
    assert!(sortname.is_none());
    assert!(id.is_none());
}

#[test]
fn artist_info_single_credit_keeps_details() {
    let r = release(Some(vec![credit("Alpha", None)]), Vec::new());
    let (name, sortname, id) = MusicBrainzClient::get_artist_info_from_release(&r);
    assert_eq!(name, "Alpha");
    assert_eq!(sortname, Some("Alpha, sorted".to_string()));
    assert_eq!(id, Some("Alpha-id".to_string()));
}

#[test]
fn artist_info_joins_multiple_credits_with_joinphrase() {
    let r = release(
        Some(vec![credit("Alpha", None), credit("Beta", Some(" & ")), credit("Gamma", None)]),
        Vec::new(),
    );
    let (name, sortname, id) = MusicBrainzClient::get_artist_info_from_release(&r);
    assert_eq!(name, "Alpha & Beta, Gamma");
    assert!(sortname.is_none());
    assert!(id.is_none());
}

#[test]
fn artist_info_empty_joinphrase_falls_back_to_comma() {
    let r = release(
        Some(vec![credit("Alpha", None), credit("Beta", Some(""))]),
        Vec::new(),
    );
    let (name, _, _) = MusicBrainzClient::get_artist_info_from_release(&r);
    assert_eq!(name, "Alpha, Beta");
}

#[test]
fn make_album_skips_data_tracks_and_rebases_numbers() {
    let tracks = vec![
        release_track(1, "[data track]", None),
        release_track(2, "First Song", None),
        release_track(3, "Second Song", Some(vec![credit("Solo", None)])),
    ];
    let r = release(Some(vec![credit("Band", None)]), tracks);
    let album = MusicBrainzClient::make_album_from_release(&r).unwrap();
    assert_eq!(album.album_id, "rel-1");
    assert_eq!(album.title, "The Release");
    assert_eq!(album.artist, Some("Band".to_string()));
    assert_eq!(album.release_date, Some("1999-09-09".to_string()));
    assert_eq!(album.country, Some("FR".to_string()));
    assert_eq!(album.barcode, Some("1234567890123".to_string()));
    assert_eq!(album.disc_count, Some(1));
    assert_eq!(album.tracks.len(), 2);
    assert_eq!(album.tracks[0].number, 1);
    assert_eq!(album.tracks[0].title, "First Song");
    // No credit of its own: the album's artist fields are inherited.
    assert_eq!(album.tracks[0].artist, Some("Band".to_string()));
    assert_eq!(album.tracks[0].track_id, Some("rec-2".to_string()));
    assert_eq!(album.tracks[1].number, 2);
    assert_eq!(album.tracks[1].artist, Some("Solo".to_string()));
    assert_eq!(album.tracks[1].artist_sortname, Some("Solo, sorted".to_string()));
    assert_eq!(album.tracks[1].artist_id, Some("Solo-id".to_string()));
}

#[test]
fn fill_tracks_keeps_later_data_tracks() {
    let tracks = vec![
        release_track(1, "Real", None),
        release_track(2, "[data track]", None),
    ];
    let r = release(None, tracks);
    let mut album = MusicBrainzClient::make_album_from_release(&r).unwrap();
    assert_eq!(album.tracks.len(), 2);
    assert_eq!(album.tracks[1].title, "[data track]");
    // Re-filling from the same release replaces, not appends.
    MusicBrainzClient::fill_tracks_from_release(&r, &mut album);
    assert_eq!(album.tracks.len(), 2);
}

#[test]
fn fill_tracks_without_a_usable_medium_changes_nothing() {
    let r = ReleaseInfo {
        id: "rel-2".to_string(),
        title: "Empty".to_string(),
        artist_credit: None,
        date: None,
        country: None,
        barcode: None,
        media: None,
    };
    let mut album = AlbumDetails {
        album_id: "keep".to_string(),
        title: "Keep".to_string(),
        artist: None,
        artist_sortname: None,
        artist_id: None,
        release_date: None,
        country: None,
        disc_number: None,
        disc_count: None,
        barcode: None,
        tracks: Vec::new(),
        composer: None,
        composer_sortname: None,
    };
    MusicBrainzClient::fill_tracks_from_release(&r, &mut album);
    assert_eq!(album.title, "Keep");
    assert!(album.tracks.is_empty());
}
