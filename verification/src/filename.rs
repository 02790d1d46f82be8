//! Output-file naming: path-hostile character sanitization and the fixed
//! "NN - artist - album - title.ext" template.

use vstd::prelude::*;
use crate::format::AudioFormat;
use crate::metadata::{AlbumDetails, TrackDetails};
use crate::text::{push_char, spec_dec, spec_digit, spec_two_digit, u32_to_two_digit};

verus! {

/// The characters that may not appear in an output file name.
pub open spec fn is_path_hostile(c: char) -> bool {
    c == '/' || c == '\\' || c == ':' || c == '*' || c == '?' || c == '"' || c == '<' || c == '>'
        || c == '|'
}

pub open spec fn spec_sanitize_char(c: char) -> char {
    if is_path_hostile(c) {
        '_'
    } else {
        c
    }
}

pub open spec fn spec_sanitize(s: Seq<char>) -> Seq<char> {
    s.map_values(|c: char| spec_sanitize_char(c))
}

fn sanitize_char(c: char) -> (r: char)
    ensures
        r == spec_sanitize_char(c),
{
    match c {
        '/' | '\\' | ':' | '*' | '?' | '"' | '<' | '>' | '|' => '_',
        _ => c,
    }
}

/// Replaces every path-hostile character with an underscore.
pub fn sanitize_filename(name: &str) -> (r: String)
    ensures
        r@ == spec_sanitize(name@),
{
    let len = name.unicode_len();
    let mut out = String::new();
    let mut i: usize = 0;
    while i < len
        invariant
            len == name@.len(),
            i <= len,
            out@.len() == i,
            forall|j: int| 0 <= j < i ==> out@[j] == spec_sanitize_char(name@[j]),
        decreases len - i,
    {
        let c = name.get_char(i);
        push_char(&mut out, sanitize_char(c));
        i = i + 1;
    }
    proof {
        assert(out@ =~= spec_sanitize(name@));
    }
    out
}

/// Sanitization removes every path-hostile character, keeps the length, and
/// leaves a string without such characters unchanged.
pub proof fn lemma_sanitize_clean(s: Seq<char>)
    ensures
        spec_sanitize(s).len() == s.len(),
        seq_free_of_hostile(spec_sanitize(s)),
        (forall|i: int| 0 <= i < s.len() ==> !is_path_hostile(#[trigger] s[i])) ==> spec_sanitize(
            s,
        ) == s,
{
    assert forall|i: int| 0 <= i < spec_sanitize(s).len() implies !is_path_hostile(
        #[trigger] spec_sanitize(s)[i],
    ) by {
        assert(spec_sanitize(s)[i] == spec_sanitize_char(s[i]));
    }
    if forall|i: int| 0 <= i < s.len() ==> !is_path_hostile(#[trigger] s[i]) {
        assert(spec_sanitize(s) =~= s);
    }
}

pub open spec fn seq_free_of_hostile(s: Seq<char>) -> bool {
    forall|i: int| 0 <= i < s.len() ==> !is_path_hostile(#[trigger] s[i])
}

/// The artist name used in file names when a track has no artist of its own.
pub open spec fn spec_artist_or_unknown(artist: Option<String>) -> Seq<char> {
    match artist {
        Some(a) => a@,
        None => "Unknown"@,
    }
}

/// The full output file name for one track: a two-digit track number, then
/// artist, album and title, each sanitized, then the format's extension.
pub open spec fn spec_output_filename(
    number: u32,
    title: Seq<char>,
    artist: Seq<char>,
    album: Seq<char>,
    format: AudioFormat,
) -> Seq<char> {
    spec_two_digit(number as nat) + " - "@ + spec_sanitize(artist) + " - "@ + spec_sanitize(album)
        + " - "@ + spec_sanitize(title) + "."@ + format.spec_extension()
}

/// Computes the output file name for one track of an album.
pub fn create_output_filename(track: &TrackDetails, album: &AlbumDetails, format: AudioFormat) -> (r:
    String)
    ensures
        r@ == spec_output_filename(
            track.number,
            track.title@,
            spec_artist_or_unknown(track.artist),
            album.title@,
            format,
        ),
{
    let mut out = u32_to_two_digit(track.number);
    out.append(" - ");
    let artist = match &track.artist {
        Some(a) => sanitize_filename(a.as_str()),
        None => sanitize_filename("Unknown"),
    };
    out.append(artist.as_str());
    out.append(" - ");
    let album_title = sanitize_filename(album.title.as_str());
    out.append(album_title.as_str());
    out.append(" - ");
    let title = sanitize_filename(track.title.as_str());
    out.append(title.as_str());
    out.append(".");
    out.append(format.file_extension());
    proof {
        assert(out@ =~= spec_output_filename(
            track.number,
            track.title@,
            spec_artist_or_unknown(track.artist),
            album.title@,
            format,
        ));
    }
    out
}

proof fn lemma_concat_free_of_hostile(a: Seq<char>, b: Seq<char>)
    requires
        seq_free_of_hostile(a),
        seq_free_of_hostile(b),
    ensures
        seq_free_of_hostile(a + b),
{
    assert forall|i: int| 0 <= i < (a + b).len() implies !is_path_hostile(#[trigger] (a + b)[i]) by {
        if i < a.len() {
            assert((a + b)[i] == a[i]);
        } else {
            assert((a + b)[i] == b[i - a.len()]);
        }
    }
}

proof fn lemma_dec_free_of_hostile(n: nat)
    ensures
        seq_free_of_hostile(spec_dec(n)),
    decreases n,
{
    if n < 10 {
        assert(!is_path_hostile(spec_digit(n as int)));
    } else {
        lemma_dec_free_of_hostile(n / 10);
        assert(spec_dec(n) == spec_dec(n / 10).push(spec_digit((n % 10) as int)));
        assert forall|i: int| 0 <= i < spec_dec(n).len() implies !is_path_hostile(
            #[trigger] spec_dec(n)[i],
        ) by {
            if i < spec_dec(n / 10).len() {
                assert(spec_dec(n)[i] == spec_dec(n / 10)[i]);
            } else {
                assert(spec_dec(n)[i] == spec_digit((n % 10) as int));
            }
        }
    }
}

proof fn lemma_two_digit_free_of_hostile(n: nat)
    ensures
        seq_free_of_hostile(spec_two_digit(n)),
{
    lemma_dec_free_of_hostile(n);
    if n < 10 {
        assert(seq_free_of_hostile(seq!['0']));
        lemma_concat_free_of_hostile(seq!['0'], spec_dec(n));
    }
}

proof fn lemma_extension_free_of_hostile(format: AudioFormat)
    ensures
        seq_free_of_hostile(format.spec_extension()),
{
    reveal_strlit("opus");
    reveal_strlit("ogg");
    reveal_strlit("flac");
    reveal_strlit("mp3");
    reveal_strlit("m4a");
    reveal_strlit("wv");
}

/// Whatever the title, artist and album contain, the computed output file
/// name holds no path-hostile character.
pub proof fn lemma_output_filename_sanitized(
    number: u32,
    title: Seq<char>,
    artist: Seq<char>,
    album: Seq<char>,
    format: AudioFormat,
)
    ensures
        seq_free_of_hostile(spec_output_filename(number, title, artist, album, format)),
{
    reveal_strlit(" - ");
    reveal_strlit(".");
    lemma_two_digit_free_of_hostile(number as nat);
    lemma_sanitize_clean(title);
    lemma_sanitize_clean(artist);
    lemma_sanitize_clean(album);
    lemma_extension_free_of_hostile(format);
    assert(seq_free_of_hostile(" - "@));
    assert(seq_free_of_hostile("."@));
    lemma_concat_free_of_hostile(spec_two_digit(number as nat), " - "@);
    lemma_concat_free_of_hostile(spec_two_digit(number as nat) + " - "@, spec_sanitize(artist));
    lemma_concat_free_of_hostile(
        spec_two_digit(number as nat) + " - "@ + spec_sanitize(artist),
        " - "@,
    );
    lemma_concat_free_of_hostile(
        spec_two_digit(number as nat) + " - "@ + spec_sanitize(artist) + " - "@,
        spec_sanitize(album),
    );
    lemma_concat_free_of_hostile(
        spec_two_digit(number as nat) + " - "@ + spec_sanitize(artist) + " - "@ + spec_sanitize(
            album,
        ),
        " - "@,
    );
    lemma_concat_free_of_hostile(
        spec_two_digit(number as nat) + " - "@ + spec_sanitize(artist) + " - "@ + spec_sanitize(
            album,
        ) + " - "@,
        spec_sanitize(title),
    );
    lemma_concat_free_of_hostile(
        spec_two_digit(number as nat) + " - "@ + spec_sanitize(artist) + " - "@ + spec_sanitize(
            album,
        ) + " - "@ + spec_sanitize(title),
        "."@,
    );
    lemma_concat_free_of_hostile(
        spec_two_digit(number as nat) + " - "@ + spec_sanitize(artist) + " - "@ + spec_sanitize(
            album,
        ) + " - "@ + spec_sanitize(title) + "."@,
        format.spec_extension(),
    );
}

} // verus!
