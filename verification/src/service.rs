//! Local audio files: the path model, the audio-extension test, and the
//! file list service behind the player front ends.

use vstd::prelude::*;
use crate::text::{ascii_lower_str, spec_lower_str, str_eq};

verus! {

/// The index of the last separator character in a path, or -1 when there is
/// none.
pub open spec fn spec_last_sep(s: Seq<char>, sep: char) -> int
    decreases s.len(),
{
    if s.len() == 0 {
        -1
    } else if s.last() == sep {
        s.len() - 1
    } else {
        spec_last_sep(s.drop_last(), sep)
    }
}

proof fn lemma_last_sep(s: Seq<char>, sep: char, c: int)
    requires
        0 <= c <= s.len(),
        c > 0 ==> s[c - 1] == sep,
        forall|k: int| c <= k < s.len() ==> s[k] != sep,
    ensures
        spec_last_sep(s, sep) == c - 1,
    decreases s.len(),
{
    if c == s.len() {
        if s.len() > 0 {
            assert(s.last() == sep);
        }
    } else {
        assert(s.last() != sep);
        assert forall|k: int| c <= k < s.drop_last().len() implies s.drop_last()[k] != sep by {
            assert(s.drop_last()[k] == s[k]);
        }
        lemma_last_sep(s.drop_last(), sep, c);
    }
}

/// A path with its trailing separators and trailing current-directory
/// components removed, as the filesystem's path parsing does before taking
/// the final component.
pub open spec fn spec_strip_trail(s: Seq<char>) -> Seq<char>
    decreases s.len(),
{
    if s.len() == 0 {
        s
    } else if s.last() == '/' {
        spec_strip_trail(s.drop_last())
    } else if s.last() == '.' && (s.len() == 1 || s[s.len() - 2] == '/') {
        spec_strip_trail(s.drop_last())
    } else {
        s
    }
}

/// The final component of a path, read as the filesystem reads it: trailing
/// separators and current-directory components are ignored; a path with no
/// component left, or ending in the parent-directory component, has none.
pub open spec fn spec_file_name_of(path: Seq<char>) -> Option<Seq<char>> {
    let t = spec_strip_trail(path);
    if t.len() == 0 {
        None
    } else {
        let f = t.skip(spec_last_sep(t, '/') + 1);
        if f == ".."@ {
            None
        } else {
            Some(f)
        }
    }
}

/// What the file-name accessor returns: the final component when the path
/// has one, the whole path otherwise.
pub open spec fn spec_filename_of(path: Seq<char>) -> Seq<char> {
    match spec_file_name_of(path) {
        Some(f) => f,
        None => path,
    }
}

/// The extension of a file name: everything after the last dot, provided
/// the dot is neither absent nor leading.
pub open spec fn spec_extension_of(fname: Seq<char>) -> Option<Seq<char>> {
    let d = spec_last_sep(fname, '.');
    if d > 0 {
        Some(fname.skip(d + 1))
    } else {
        None
    }
}

/// The lowercased extensions accepted as audio files.
pub open spec fn spec_is_audio_ext_lower(e: Seq<char>) -> bool {
    e == "mp3"@ || e == "wav"@ || e == "flac"@ || e == "ogg"@ || e == "m4a"@ || e == "opus"@
        || e == "aac"@
}

/// Whether a path names an audio file: it has a final component whose
/// extension, lowercased, is one of the accepted ones.
pub open spec fn spec_is_audio_file(path: Seq<char>) -> bool {
    match spec_file_name_of(path) {
        Some(f) => match spec_extension_of(f) {
            Some(e) => spec_is_audio_ext_lower(spec_lower_str(e)),
            None => false,
        },
        None => false,
    }
}

/// Finds the position right after the last occurrence of a separator within
/// the first `end` characters, or 0 when it does not occur there.
fn scan_after_last_upto(s: &str, sep: char, end: usize) -> (cut: usize)
    requires
        end <= s@.len(),
    ensures
        cut as int == spec_last_sep(s@.take(end as int), sep) + 1,
        cut <= end,
{
    let mut cut: usize = 0;
    let mut j: usize = 0;
    while j < end
        invariant
            end <= s@.len(),
            j <= end,
            cut <= j,
            cut > 0 ==> s@[cut as int - 1] == sep,
            forall|k: int| cut <= k < j ==> s@[k] != sep,
        decreases end - j,
    {
        if s.get_char(j) == sep {
            cut = j + 1;
        }
        j = j + 1;
    }
    proof {
        let t = s@.take(end as int);
        assert forall|k: int| cut <= k < t.len() implies t[k] != sep by {
            assert(t[k] == s@[k]);
        }
        if cut > 0 {
            assert(t[cut - 1] == s@[cut as int - 1]);
        }
        lemma_last_sep(t, sep, cut as int);
    }
    cut
}

/// Finds the character position right after the last occurrence of a
/// separator, or 0 when the separator does not occur.
fn scan_after_last(s: &str, sep: char) -> (cut: usize)
    ensures
        cut as int == spec_last_sep(s@, sep) + 1,
        cut <= s@.len(),
{
    let len = s.unicode_len();
    let cut = scan_after_last_upto(s, sep, len);
    proof {
        assert(s@.take(len as int) =~= s@);
    }
    cut
}

/// Locates the final path component: it is `s[cut..end]` for the returned
/// `(cut, end)`; `end == 0` means the path has nothing left once trailing
/// separators and current-directory components are stripped.
fn file_name_span(s: &str) -> (r: (usize, usize))
    ensures
        r.1 <= s@.len(),
        r.0 <= r.1,
        s@.take(r.1 as int) == spec_strip_trail(s@),
        spec_strip_trail(s@).len() == r.1,
        r.1 > 0 ==> r.0 as int == spec_last_sep(spec_strip_trail(s@), '/') + 1,
{
    let len = s.unicode_len();
    let mut end: usize = len;
    proof {
        assert(s@.take(len as int) =~= s@);
    }
    loop
        invariant
            end <= len,
            len == s@.len(),
            spec_strip_trail(s@) == spec_strip_trail(s@.take(end as int)),
        ensures
            end <= s@.len(),
            s@.take(end as int) == spec_strip_trail(s@),
        decreases end,
    {
        if end > 0 && s.get_char(end - 1) == '/' {
            proof {
                assert(s@.take(end as int).drop_last() =~= s@.take(end as int - 1));
            }
            end = end - 1;
        } else if end > 0 && s.get_char(end - 1) == '.' && (end == 1 || s.get_char(end - 2)
            == '/') {
            proof {
                assert(s@.take(end as int).drop_last() =~= s@.take(end as int - 1));
            }
            end = end - 1;
        } else {
            proof {
                assert(spec_strip_trail(s@.take(end as int)) == s@.take(end as int));
            }
            break;
        }
    }
    let cut = scan_after_last_upto(s, '/', end);
    (cut, end)
}

/// One audio file known to the service, by its path.
#[derive(Debug, Clone)]
pub struct AudioFile {
    pub path: String,
}

impl AudioFile {
    pub fn new(path: String) -> (r: AudioFile)
        ensures
            r.path == path,
    {
        AudioFile { path }
    }

    /// The final component of the path, trailing separators ignored; when
    /// the path has no such component — empty, a root, or ending in the
    /// parent directory — the whole path.
    pub fn filename(&self) -> (r: String)
        ensures
            r@ == spec_filename_of(self.path@),
    {
        let s = self.path.as_str();
        let (cut, end) = file_name_span(s);
        if end == 0 {
            return self.path.clone();
        }
        let name = s.substring_char(cut, end);
        proof {
            assert(name@ =~= spec_strip_trail(self.path@).skip(
                spec_last_sep(spec_strip_trail(self.path@), '/') + 1,
            ));
        }
        if str_eq(name, "..") {
            return self.path.clone();
        }
        String::from_str(name)
    }

    /// Whether the path names an audio file.
    pub fn is_audio_file(path: &str) -> (r: bool)
        ensures
            r == spec_is_audio_file(path@),
    {
        let (cut, end) = file_name_span(path);
        if end == 0 {
            return false;
        }
        let fname = path.substring_char(cut, end);
        proof {
            assert(fname@ =~= spec_strip_trail(path@).skip(
                spec_last_sep(spec_strip_trail(path@), '/') + 1,
            ));
        }
        if str_eq(fname, "..") {
            return false;
        }
        let flen = fname.unicode_len();
        let dot = scan_after_last(fname, '.');
        if dot <= 1 {
            // No dot at all, or only a leading one: no extension.
            return false;
        }
        let ext = fname.substring_char(dot, flen);
        proof {
            assert(ext@ =~= spec_extension_of(fname@)->Some_0);
        }
        Self::is_audio_extension(ext)
    }

    /// Whether an extension, however cased, is an accepted audio extension.
    pub fn is_audio_extension(ext: &str) -> (r: bool)
        ensures
            r == spec_is_audio_ext_lower(spec_lower_str(ext@)),
    {
        let low = ascii_lower_str(ext);
        let l = low.as_str();
        str_eq(l, "mp3") || str_eq(l, "wav") || str_eq(l, "flac") || str_eq(l, "ogg") || str_eq(
            l,
            "m4a",
        ) || str_eq(l, "opus") || str_eq(l, "aac")
    }
}

/// The extensions the playback folder listing accepts, exactly as written:
/// every rip output of the registry, WavPack included, and plain wav.
pub open spec fn spec_is_playback_ext(e: Seq<char>) -> bool {
    e == "opus"@ || e == "ogg"@ || e == "flac"@ || e == "mp3"@ || e == "m4a"@ || e == "wv"@
        || e == "wav"@
}

/// Whether a file name belongs in the playback folder listing: its final
/// component's extension is exactly one of the listed ones,
/// case-sensitively. This is narrower than the case-folding test behind
/// `AudioFile::is_audio_file`, which serves the file-list service.
pub open spec fn spec_is_playback_file(name: Seq<char>) -> bool {
    match spec_file_name_of(name) {
        Some(f) => match spec_extension_of(f) {
            Some(e) => spec_is_playback_ext(e),
            None => false,
        },
        None => false,
    }
}

/// Whether a file name belongs in the playback folder listing.
pub fn is_playback_file(name: &str) -> (r: bool)
    ensures
        r == spec_is_playback_file(name@),
{
    let (cut, end) = file_name_span(name);
    if end == 0 {
        return false;
    }
    let fname = name.substring_char(cut, end);
    proof {
        assert(fname@ =~= spec_strip_trail(name@).skip(
            spec_last_sep(spec_strip_trail(name@), '/') + 1,
        ));
    }
    if str_eq(fname, "..") {
        return false;
    }
    let flen = fname.unicode_len();
    let dot = scan_after_last(fname, '.');
    if dot <= 1 {
        return false;
    }
    let ext = fname.substring_char(dot, flen);
    proof {
        assert(ext@ =~= spec_extension_of(fname@)->Some_0);
    }
    str_eq(ext, "opus") || str_eq(ext, "ogg") || str_eq(ext, "flac") || str_eq(ext, "mp3")
        || str_eq(ext, "m4a") || str_eq(ext, "wv") || str_eq(ext, "wav")
}

/// The audio files added so far, filtered down to the accepted extensions.
pub open spec fn spec_audio_files(paths: Seq<String>) -> Seq<AudioFile>
    decreases paths.len(),
{
    if paths.len() == 0 {
        Seq::empty()
    } else {
        spec_audio_files(paths.drop_last()) + (if spec_is_audio_file(paths.last()@) {
            seq![AudioFile { path: paths.last() }]
        } else {
            Seq::empty()
        })
    }
}

/// The file list the player front ends work on.
pub struct AudioService {
    files: Vec<AudioFile>,
}

impl AudioService {
    /// The files the service holds, in insertion order.
    pub closed spec fn spec_files(&self) -> Seq<AudioFile> {
        self.files@
    }

    /// An empty service.
    pub fn new() -> (r: AudioService)
        ensures
            r.spec_files().len() == 0,
    {
        AudioService { files: Vec::new() }
    }

    /// Adds one file, unconditionally.
    pub fn add_file(&mut self, path: String)
        ensures
            final(self).spec_files() == old(self).spec_files().push(AudioFile { path }),
    {
        self.files.push(AudioFile { path });
    }

    /// Adds the paths that name audio files, in order; returns how many
    /// were added.
    pub fn add_files(&mut self, paths: &Vec<String>) -> (added: usize)
        ensures
            final(self).spec_files() == old(self).spec_files() + spec_audio_files(paths@),
            added == spec_audio_files(paths@).len(),
    {
        let mut added: usize = 0;
        let mut i: usize = 0;
        while i < paths.len()
            invariant
                i <= paths@.len(),
                self.spec_files() == old(self).spec_files() + spec_audio_files(
                    paths@.take(i as int),
                ),
                added == spec_audio_files(paths@.take(i as int)).len(),
                added <= i,
            decreases paths@.len() - i,
        {
            proof {
                assert(paths@.take(i as int + 1).drop_last() =~= paths@.take(i as int));
                assert(paths@.take(i as int + 1).last() == paths@[i as int]);
            }
            if AudioFile::is_audio_file(paths[i].as_str()) {
                self.files.push(AudioFile { path: paths[i].clone() });
                added = added + 1;
                proof {
                    assert(self.spec_files() =~= old(self).spec_files() + spec_audio_files(
                        paths@.take(i as int + 1),
                    ));
                }
            } else {
                proof {
                    assert(self.spec_files() =~= old(self).spec_files() + spec_audio_files(
                        paths@.take(i as int + 1),
                    ));
                }
            }
            i = i + 1;
        }
        proof {
            assert(paths@.take(paths@.len() as int) =~= paths@);
        }
        added
    }

    /// A copy of the file list.
    pub fn get_files(&self) -> (r: Vec<AudioFile>)
        ensures
            r@ == self.spec_files(),
    {
        let mut out: Vec<AudioFile> = Vec::new();
        let mut i: usize = 0;
        while i < self.files.len()
            invariant
                i <= self.files@.len(),
                self.files@ == self.spec_files(),
                out@.len() == i,
                forall|j: int| 0 <= j < i ==> #[trigger] out@[j] == self.files@[j],
            decreases self.files@.len() - i,
        {
            out.push(AudioFile { path: self.files[i].path.clone() });
            i = i + 1;
        }
        proof {
            assert(out@ =~= self.spec_files());
        }
        out
    }

    /// How many files the service holds.
    pub fn count(&self) -> (n: usize)
        ensures
            n == self.spec_files().len(),
    {
        self.files.len()
    }

    /// Empties the file list.
    pub fn clear(&mut self)
        ensures
            final(self).spec_files().len() == 0,
    {
        self.files.clear();
    }
}

} // verus!
