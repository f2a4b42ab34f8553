//! Cue sheets: the list of the tracks of a disc image, the file that holds
//! each, and the positions of their indices.
//!
//! The sheet is read line by line. A track is a line naming its file
//! (`FILE "name" BINARY`), a line giving its number and type
//! (`TRACK nn MODE2/2352` or `TRACK nn AUDIO`), and any number of lines
//! giving its indices (`INDEX nn mm:ss:ff`). Empty lines between tracks are
//! skipped. Each pattern may stand anywhere in its line; the first place
//! where it matches counts. Whitespace is ASCII whitespace.

use vstd::prelude::*;
use vstd::string::StringSliceAdditionalSpecFns;
use crate::utils::bcd::{from_bcd, is_bcd, bcd_value};
use super::DriveLoc;

verus! {

/// The kind of data a track holds.
#[derive(Clone, Copy, PartialEq, Eq, Structural, Debug)]
pub enum TrackType {
    Audio,
    DataMode2,
}

/// An index of a track: its number and where it starts.
#[derive(Clone, Copy, PartialEq, Eq, Structural, Debug)]
pub struct Index {
    pub num: usize,
    pub start: DriveLoc,
}

/// Why a cue sheet could not be read.
#[derive(Clone, Copy, PartialEq, Eq, Structural, Debug)]
pub enum ParseError {
    InvalidFileMarker,
    NoFileName,
    InvalidTrackMarker,
    InvalidIndexMarker,
}

/// A track of the sheet.
pub struct Track {
    pub num: usize,
    /// The name of the file, as the bytes between the quotes.
    pub file_name: Vec<u8>,
    pub track_type: TrackType,
    pub indices: Vec<Index>,
}

/// A track as the contracts speak of it.
pub struct TrackView {
    pub num: usize,
    pub file_name: Seq<u8>,
    pub track_type: TrackType,
    pub indices: Seq<Index>,
}

impl View for Track {
    type V = TrackView;

    open spec fn view(&self) -> TrackView {
        TrackView { num: self.num, file_name: self.file_name@, track_type: self.track_type, indices: self.indices@ }
    }
}

/// A cue sheet: its tracks in order.
pub struct CueFile {
    pub tracks: Vec<Track>,
}

/// What reading a sheet comes to: its tracks, an error, or an index whose
/// time is not a valid decimal position (the sheet cannot be read at all).
pub enum CueOutcome {
    Parsed(Seq<TrackView>),
    Failed(ParseError),
    Unreadable,
}

// Characters.

/// ASCII whitespace: space, tab, and line feed to carriage return.
pub open spec fn is_space(c: u8) -> bool {
    c == 0x20 || (0x09 <= c && c <= 0x0D)
}

/// The three-byte UTF-8 forms of Unicode's other whitespace characters:
/// U+1680, U+2000 to U+200A, U+2028, U+2029, U+202F, U+205F and U+3000.
pub open spec fn is_space3(a: u8, b: u8, c: u8) -> bool {
    ||| a == 0xE1 && b == 0x9A && c == 0x80
    ||| a == 0xE2 && b == 0x80 && ((0x80 <= c && c <= 0x8A) || c == 0xA8 || c == 0xA9 || c == 0xAF)
    ||| a == 0xE2 && b == 0x81 && c == 0x9F
    ||| a == 0xE3 && b == 0x80 && c == 0x80
}

/// The length in bytes of the whitespace character (Unicode's White_Space,
/// in UTF-8) that starts at `i`: one for ASCII whitespace, two for U+0085
/// and U+00A0, three for the others; 0 where none starts.
pub open spec fn space_len(l: Seq<u8>, i: int) -> int {
    if !(0 <= i < l.len()) {
        0
    } else if is_space(l[i]) {
        1
    } else if l[i] == 0xC2 && i + 1 < l.len() && (l[i + 1] == 0x85 || l[i + 1] == 0xA0) {
        2
    } else if i + 2 < l.len() && is_space3(l[i], l[i + 1], l[i + 2]) {
        3
    } else {
        0
    }
}

pub open spec fn is_digit(c: u8) -> bool {
    0x30 <= c && c <= 0x39
}

/// The characters of a track type: capitals, digits and `/`.
pub open spec fn is_type_char(c: u8) -> bool {
    (0x41 <= c && c <= 0x5A) || is_digit(c) || c == 0x2F
}

/// The value of two decimal digits at `i`.
pub open spec fn two_digits(l: Seq<u8>, i: int) -> int {
    (l[i] - 0x30) * 10 + (l[i + 1] - 0x30)
}

/// The end of the run of whitespace that starts at `i`.
pub open spec fn space_end(l: Seq<u8>, i: int) -> int
    decreases l.len() - i,
{
    if space_len(l, i) > 0 { space_end(l, i + space_len(l, i)) } else { i }
}

/// The end of the run of track type characters that starts at `i`.
pub open spec fn type_end(l: Seq<u8>, i: int) -> int
    decreases l.len() - i,
{
    if 0 <= i < l.len() && is_type_char(l[i]) { type_end(l, i + 1) } else { i }
}

/// The word `w` stands at `p` in `l`.
pub open spec fn word_at(l: Seq<u8>, p: int, w: Seq<u8>) -> bool {
    0 <= p && p + w.len() <= l.len() && l.subrange(p, p + w.len()) == w
}

pub open spec fn file_word() -> Seq<u8> {
    seq![0x46u8, 0x49, 0x4C, 0x45]
}

pub open spec fn binary_word() -> Seq<u8> {
    seq![0x42u8, 0x49, 0x4E, 0x41, 0x52, 0x59]
}

pub open spec fn track_word() -> Seq<u8> {
    seq![0x54u8, 0x52, 0x41, 0x43, 0x4B]
}

pub open spec fn index_word() -> Seq<u8> {
    seq![0x49u8, 0x4E, 0x44, 0x45, 0x58]
}

pub open spec fn mode2_word() -> Seq<u8> {
    seq![0x4Du8, 0x4F, 0x44, 0x45, 0x32, 0x2F, 0x32, 0x33, 0x35, 0x32]
}

pub open spec fn audio_word() -> Seq<u8> {
    seq![0x41u8, 0x55, 0x44, 0x49, 0x4F]
}

// The FILE line: `FILE\s+"(.*?)"\s+BINARY`.

/// A quote at `r` that can close the file name: whitespace and `BINARY` follow.
pub open spec fn closes_file(l: Seq<u8>, r: int) -> bool {
    &&& 0 <= r < l.len()
    &&& l[r] == 0x22
    &&& space_end(l, r + 1) > r + 1
    &&& word_at(l, space_end(l, r + 1), binary_word())
}

/// The first quote at or after `i` that closes the file name, or the length.
pub open spec fn first_close(l: Seq<u8>, i: int) -> int
    decreases l.len() - i,
{
    if i < 0 || i >= l.len() {
        l.len() as int
    } else if closes_file(l, i) {
        i
    } else {
        first_close(l, i + 1)
    }
}

/// Where the quote that opens the name stands, for a FILE at `p`.
pub open spec fn file_quote(l: Seq<u8>, p: int) -> int {
    space_end(l, p + 4)
}

/// The FILE pattern matches from `p`.
pub open spec fn file_match_at(l: Seq<u8>, p: int) -> bool {
    let q = file_quote(l, p);
    &&& word_at(l, p, file_word())
    &&& q > p + 4
    &&& q < l.len()
    &&& l[q] == 0x22
    &&& first_close(l, q + 1) < l.len()
}

/// The first place at or after `i` where the FILE pattern matches, or the length.
pub open spec fn first_file(l: Seq<u8>, i: int) -> int
    decreases l.len() - i,
{
    if i < 0 || i >= l.len() {
        l.len() as int
    } else if file_match_at(l, i) {
        i
    } else {
        first_file(l, i + 1)
    }
}

/// The file name of a FILE line.
pub open spec fn file_name_of(l: Seq<u8>) -> Option<Seq<u8>> {
    let p = first_file(l, 0);
    if p < l.len() {
        let q = file_quote(l, p);
        Some(l.subrange(q + 1, first_close(l, q + 1)))
    } else {
        None
    }
}

// The TRACK line: `\s*TRACK\s+([0-9][0-9])\s+([A-Z0-9/]+)`.

/// The TRACK pattern matches from the word at `p`.
pub open spec fn track_match_at(l: Seq<u8>, p: int) -> bool {
    let q = space_end(l, p + 5);
    let u = space_end(l, q + 2);
    &&& word_at(l, p, track_word())
    &&& q > p + 5
    &&& q + 2 <= l.len()
    &&& is_digit(l[q]) && is_digit(l[q + 1])
    &&& u > q + 2
    &&& type_end(l, u) > u
}

pub open spec fn first_track(l: Seq<u8>, i: int) -> int
    decreases l.len() - i,
{
    if i < 0 || i >= l.len() {
        l.len() as int
    } else if track_match_at(l, i) {
        i
    } else {
        first_track(l, i + 1)
    }
}

/// The track type a type name stands for.
pub open spec fn track_type_of(name: Seq<u8>) -> Option<TrackType> {
    if name == mode2_word() {
        Some(TrackType::DataMode2)
    } else if name == audio_word() {
        Some(TrackType::Audio)
    } else {
        None
    }
}

/// The number and type of a TRACK line; the type is `None` when its name is unknown.
pub open spec fn track_of(l: Seq<u8>) -> Option<(int, Option<TrackType>)> {
    let p = first_track(l, 0);
    if p < l.len() {
        let q = space_end(l, p + 5);
        let u = space_end(l, q + 2);
        Some((two_digits(l, q), track_type_of(l.subrange(u, type_end(l, u)))))
    } else {
        None
    }
}

// The INDEX lines: `\s*INDEX\s+(\d\d)\s+(\d\d):(\d\d):(\d\d)`.

/// A line that starts, after whitespace, with `INDEX`.
pub open spec fn is_index_line(l: Seq<u8>) -> bool {
    word_at(l, space_end(l, 0), index_word())
}

/// The INDEX pattern matches from the word at `p`.
pub open spec fn index_match_at(l: Seq<u8>, p: int) -> bool {
    let q = space_end(l, p + 5);
    let u = space_end(l, q + 2);
    &&& word_at(l, p, index_word())
    &&& q > p + 5
    &&& q + 2 <= l.len()
    &&& is_digit(l[q]) && is_digit(l[q + 1])
    &&& u > q + 2
    &&& u + 8 <= l.len()
    &&& is_digit(l[u]) && is_digit(l[u + 1]) && l[u + 2] == 0x3A
    &&& is_digit(l[u + 3]) && is_digit(l[u + 4]) && l[u + 5] == 0x3A
    &&& is_digit(l[u + 6]) && is_digit(l[u + 7])
}

pub open spec fn first_index(l: Seq<u8>, i: int) -> int
    decreases l.len() - i,
{
    if i < 0 || i >= l.len() {
        l.len() as int
    } else if index_match_at(l, i) {
        i
    } else {
        first_index(l, i + 1)
    }
}

/// The number and the three time fields (as decimal numbers) of an INDEX line.
pub open spec fn index_of(l: Seq<u8>) -> Option<(int, int, int, int)> {
    let p = first_index(l, 0);
    if p < l.len() {
        let q = space_end(l, p + 5);
        let u = space_end(l, q + 2);
        Some((two_digits(l, q), two_digits(l, u), two_digits(l, u + 3), two_digits(l, u + 6)))
    } else {
        None
    }
}

/// The outcome of reading the index lines `i..j`.
pub enum IndexOutcome {
    Read(Seq<Index>),
    BadMarker,
    BadTime,
}

/// The index lines `i..j`, read in order: the first line that fails the
/// pattern is an error; the time fields are read as binary-coded decimal.
pub open spec fn indices_of(ls: Seq<Seq<u8>>, i: int, j: int) -> IndexOutcome
    decreases j - i,
{
    if i >= j {
        IndexOutcome::Read(Seq::empty())
    } else {
        match index_of(ls[i]) {
            None => IndexOutcome::BadMarker,
            Some((num, m, s, f)) => {
                if !is_bcd(m as u8) || !is_bcd(s as u8) || !is_bcd(f as u8) {
                IndexOutcome::BadTime
            } else {
                let index = Index {
                    num: num as usize,
                    start: DriveLoc {
                        minute: bcd_value(m as u8) as u8,
                        second: bcd_value(s as u8) as u8,
                        sector: bcd_value(f as u8) as u8,
                    },
                };
                match indices_of(ls, i + 1, j) {
                    IndexOutcome::Read(rest) => IndexOutcome::Read(seq![index] + rest),
                    other => other,
                }
            }
            },
        }
    }
}

/// The first line at or after `i` that is not an index line, or the number of lines.
pub open spec fn index_run_end(ls: Seq<Seq<u8>>, i: int) -> int
    decreases ls.len() - i,
{
    if i < 0 || i >= ls.len() {
        ls.len() as int
    } else if is_index_line(ls[i]) {
        index_run_end(ls, i + 1)
    } else {
        i
    }
}

pub proof fn lemma_index_run_end(ls: Seq<Seq<u8>>, i: int)
    requires
        0 <= i,
    ensures
        i <= ls.len() ==> i <= index_run_end(ls, i) <= ls.len(),
        i > ls.len() ==> index_run_end(ls, i) == ls.len(),
    decreases ls.len() - i,
{
    if 0 <= i < ls.len() && is_index_line(ls[i]) {
        lemma_index_run_end(ls, i + 1);
    }
}

/// `ts` followed by the tracks of `o`, if `o` has tracks.
pub open spec fn prepend(ts: Seq<TrackView>, o: CueOutcome) -> CueOutcome {
    match o {
        CueOutcome::Parsed(rest) => CueOutcome::Parsed(ts + rest),
        other => other,
    }
}

/// Reading the sheet from line `i` on.
pub open spec fn parse_lines(ls: Seq<Seq<u8>>, i: int) -> CueOutcome
    decreases ls.len() - i,
{
    if i < 0 || i >= ls.len() {
        CueOutcome::Parsed(Seq::empty())
    } else if ls[i].len() == 0 {
        parse_lines(ls, i + 1)
    } else {
        match file_name_of(ls[i]) {
            None => CueOutcome::Failed(ParseError::InvalidFileMarker),
            Some(name) => {
                if i + 1 >= ls.len() {
                CueOutcome::Failed(ParseError::InvalidTrackMarker)
            } else {
                match track_of(ls[i + 1]) {
                    None => CueOutcome::Failed(ParseError::InvalidTrackMarker),
                    Some((num, ty)) => match ty {
                        None => CueOutcome::Failed(ParseError::InvalidTrackMarker),
                        Some(track_type) => {
                            let j = index_run_end(ls, i + 2);
                            match indices_of(ls, i + 2, j) {
                                IndexOutcome::BadMarker => CueOutcome::Failed(ParseError::InvalidIndexMarker),
                                IndexOutcome::BadTime => CueOutcome::Unreadable,
                                IndexOutcome::Read(indices) => {
                                    let t = TrackView { num: num as usize, file_name: name, track_type, indices };
                                    proof {
                                        lemma_index_run_end(ls, i + 2);
                                    }
                                    prepend(seq![t], parse_lines(ls, j))
                                },
                            }
                        },
                    },
                }
            }
            },
        }
    }
}

// Lines, as `str::lines` splits them.

/// The first line feed at or after `i`, or the length.
pub open spec fn line_end(b: Seq<u8>, i: int) -> int
    decreases b.len() - i,
{
    if i < 0 || i >= b.len() {
        b.len() as int
    } else if b[i] == 0x0A {
        i
    } else {
        line_end(b, i + 1)
    }
}

pub proof fn lemma_line_end(b: Seq<u8>, i: int)
    requires
        0 <= i <= b.len(),
    ensures
        i <= line_end(b, i) <= b.len(),
        line_end(b, i) < b.len() ==> b[line_end(b, i)] == 0x0A,
        forall|k: int| i <= k < line_end(b, i) ==> b[k] != 0x0A,
    decreases b.len() - i,
{
    if i < b.len() && b[i] != 0x0A {
        lemma_line_end(b, i + 1);
    }
}

/// The lines of `b` from position `i` on. A line that ends in a line feed
/// loses a carriage return before it; a final line feed ends the last line.
pub open spec fn lines_from(b: Seq<u8>, i: int) -> Seq<Seq<u8>>
    decreases b.len() - i,
{
    if i < 0 || i >= b.len() {
        Seq::empty()
    } else {
        let e = line_end(b, i);
        let raw = b.subrange(i, e);
        let line = if e < b.len() && raw.len() > 0 && raw.last() == 0x0D { raw.drop_last() } else { raw };
        proof {
            lemma_line_end(b, i);
        }
        if e < b.len() {
            seq![line] + lines_from(b, e + 1)
        } else {
            seq![line]
        }
    }
}

/// What reading the sheet `text` comes to.
pub open spec fn cue_outcome(text: Seq<u8>) -> CueOutcome {
    parse_lines(lines_from(text, 0), 0)
}

// The reading itself.

/// The length of the whitespace character at `i`.
fn space_len_exec(l: &Vec<u8>, i: usize) -> (r: usize)
    requires
        i <= l@.len(),
    ensures
        r == space_len(l@, i as int),
{
    let n = l.len();
    if i >= n {
        0
    } else if l[i] == 0x20 || (0x09 <= l[i] && l[i] <= 0x0D) {
        1
    } else if l[i] == 0xC2 && n - i > 1 && (l[i + 1] == 0x85 || l[i + 1] == 0xA0) {
        2
    } else if n - i > 2 {
        let (a, b, c) = (l[i], l[i + 1], l[i + 2]);
        if (a == 0xE1 && b == 0x9A && c == 0x80)
            || (a == 0xE2 && b == 0x80 && ((0x80 <= c && c <= 0x8A) || c == 0xA8 || c == 0xA9 || c == 0xAF))
            || (a == 0xE2 && b == 0x81 && c == 0x9F)
            || (a == 0xE3 && b == 0x80 && c == 0x80) {
            3
        } else {
            0
        }
    } else {
        0
    }
}

/// The run of whitespace from `i`.
fn space_end_exec(l: &Vec<u8>, i: usize) -> (r: usize)
    requires
        l@.len() <= isize::MAX,
        i <= l@.len(),
    ensures
        r == space_end(l@, i as int),
        i <= r <= l@.len(),
{
    let mut k = i;
    loop
        invariant
            l@.len() <= isize::MAX,
            i <= k <= l@.len(),
            space_end(l@, i as int) == space_end(l@, k as int),
        decreases l@.len() - k,
    {
        let n = space_len_exec(l, k);
        if n == 0 {
            return k;
        }
        k = k + n;
    }
}

/// The run of track type characters from `i`.
fn type_end_exec(l: &Vec<u8>, i: usize) -> (r: usize)
    requires
        l@.len() <= isize::MAX,
        i <= l@.len(),
    ensures
        r == type_end(l@, i as int),
        i <= r <= l@.len(),
{
    let mut k = i;
    while k < l.len() && ((0x41 <= l[k] && l[k] <= 0x5A) || (0x30 <= l[k] && l[k] <= 0x39) || l[k] == 0x2F)
        invariant
            l@.len() <= isize::MAX,
            i <= k <= l@.len(),
            type_end(l@, i as int) == type_end(l@, k as int),
        decreases l@.len() - k,
    {
        k = k + 1;
    }
    k
}

/// Whether the word `w` stands at `p`.
fn word_at_exec(l: &Vec<u8>, p: usize, w: &Vec<u8>) -> (r: bool)
    requires
        l@.len() <= isize::MAX,
    ensures
        r == word_at(l@, p as int, w@),
{
    if p > l.len() || w.len() > l.len() - p {
        return false;
    }
    let mut k: usize = 0;
    while k < w.len()
        invariant
            l@.len() <= isize::MAX,
            0 <= k <= w@.len(),
            p + w@.len() <= l@.len(),
            forall|m: int| 0 <= m < k ==> l@[p + m] == w@[m],
        decreases w@.len() - k,
    {
        if l[p + k] != w[k] {
            assert(l@.subrange(p as int, p + w@.len())[k as int] != w@[k as int]);
            return false;
        }
        k = k + 1;
    }
    assert(l@.subrange(p as int, p + w@.len()) =~= w@);
    true
}

fn two_digits_exec(l: &Vec<u8>, i: usize) -> (r: u8)
    requires
        l@.len() <= isize::MAX,
        i + 1 < l@.len(),
        is_digit(l@[i as int]),
        is_digit(l@[i + 1]),
    ensures
        r == two_digits(l@, i as int),
        r <= 99,
{
    (l[i] - 0x30) * 10 + (l[i + 1] - 0x30)
}

/// The first quote from `i` on that closes a file name.
fn first_close_exec(l: &Vec<u8>, i: usize, binary: &Vec<u8>) -> (r: usize)
    requires
        l@.len() <= isize::MAX,
        binary@ == binary_word(),
    ensures
        r == first_close(l@, i as int),
{
    let mut k = i;
    while k < l.len()
        invariant
            l@.len() <= isize::MAX,
            i <= k,
            binary@ == binary_word(),
            first_close(l@, i as int) == first_close(l@, k as int),
        decreases l@.len() - k,
    {
        if l[k] == 0x22 {
            let t = space_end_exec(l, k + 1);
            if t > k + 1 && word_at_exec(l, t, binary) {
                return k;
            }
        }
        k = k + 1;
    }
    l.len()
}

/// The file name of a FILE line.
fn file_name_exec(l: &Vec<u8>) -> (r: Option<Vec<u8>>)
    requires
        l@.len() <= isize::MAX,
    ensures
        match r {
            Some(name) => file_name_of(l@) == Some(name@),
            None => file_name_of(l@) is None,
        },
{
    let file_w: Vec<u8> = vec![0x46, 0x49, 0x4C, 0x45];
    let binary: Vec<u8> = vec![0x42, 0x49, 0x4E, 0x41, 0x52, 0x59];
    assert(file_w@ =~= file_word());
    assert(binary@ =~= binary_word());
    let mut p: usize = 0;
    while p < l.len()
        invariant
            l@.len() <= isize::MAX,
            file_w@ == file_word(),
            binary@ == binary_word(),
            first_file(l@, 0) == first_file(l@, p as int),
        decreases l@.len() - p,
    {
        if word_at_exec(l, p, &file_w) {
            let q = space_end_exec(l, p + 4);
            if q > p + 4 && q < l.len() && l[q] == 0x22 {
                let c = first_close_exec(l, q + 1, &binary);
                if c < l.len() {
                    let mut name: Vec<u8> = Vec::new();
                    let mut k = q + 1;
                    proof {
                        lemma_first_close_bound(l@, q + 1);
                    }
                    while k < c
                        invariant
                            l@.len() <= isize::MAX,
            l@.len() <= isize::MAX,
                            q + 1 <= k <= c,
                            c < l@.len(),
                            name@ == l@.subrange(q + 1, k as int),
                        decreases c - k,
                    {
                        name.push(l[k]);
                        assert(name@ =~= l@.subrange(q + 1, k + 1));
                        k = k + 1;
                    }
                    return Some(name);
                }
            }
        }
        p = p + 1;
    }
    None
}

pub proof fn lemma_first_close_bound(l: Seq<u8>, i: int)
    requires
        0 <= i,
    ensures
        i <= l.len() ==> i <= first_close(l, i) <= l.len(),
    decreases l.len() - i,
{
    if 0 <= i < l.len() && !closes_file(l, i) {
        lemma_first_close_bound(l, i + 1);
    }
}

/// The number and type of a TRACK line.
fn track_of_exec(l: &Vec<u8>) -> (r: Option<(usize, Option<TrackType>)>)
    requires
        l@.len() <= isize::MAX,
    ensures
        match r {
            Some((num, ty)) => track_of(l@) == Some((num as int, ty)),
            None => track_of(l@) is None,
        },
{
    let track_w: Vec<u8> = vec![0x54, 0x52, 0x41, 0x43, 0x4B];
    let mode2: Vec<u8> = vec![0x4D, 0x4F, 0x44, 0x45, 0x32, 0x2F, 0x32, 0x33, 0x35, 0x32];
    let audio: Vec<u8> = vec![0x41, 0x55, 0x44, 0x49, 0x4F];
    assert(track_w@ =~= track_word());
    assert(mode2@ =~= mode2_word());
    assert(audio@ =~= audio_word());
    let mut p: usize = 0;
    while p < l.len()
        invariant
            l@.len() <= isize::MAX,
            track_w@ == track_word(),
            mode2@ == mode2_word(),
            audio@ == audio_word(),
            first_track(l@, 0) == first_track(l@, p as int),
        decreases l@.len() - p,
    {
        if word_at_exec(l, p, &track_w) {
            let q = space_end_exec(l, p + 5);
            if q > p + 5 && q + 2 <= l.len() && 0x30 <= l[q] && l[q] <= 0x39 && 0x30 <= l[q + 1] && l[q + 1] <= 0x39 {
                let u = space_end_exec(l, q + 2);
                if u > q + 2 {
                    let v = type_end_exec(l, u);
                    if v > u {
                        let num = two_digits_exec(l, q) as usize;
                        let mut name: Vec<u8> = Vec::new();
                        let mut k = u;
                        while k < v
                            invariant
                                l@.len() <= isize::MAX,
                            l@.len() <= isize::MAX,
            l@.len() <= isize::MAX,
                                u <= k <= v,
                                v <= l@.len(),
                                name@ == l@.subrange(u as int, k as int),
                            decreases v - k,
                        {
                            name.push(l[k]);
                            assert(name@ =~= l@.subrange(u as int, k + 1));
                            k = k + 1;
                        }
                        let ty = if word_at_exec(&name, 0, &mode2) && name.len() == mode2.len() {
                            assert(name@ =~= mode2@) by {
                                assert(name@.subrange(0, mode2@.len() as int) =~= name@);
                            }
                            Some(TrackType::DataMode2)
                        } else if word_at_exec(&name, 0, &audio) && name.len() == audio.len() {
                            assert(name@ =~= audio@) by {
                                assert(name@.subrange(0, audio@.len() as int) =~= name@);
                            }
                            Some(TrackType::Audio)
                        } else {
                            proof {
                                if name@ == mode2_word() {
                                    assert(name@.subrange(0, mode2@.len() as int) =~= name@);
                                }
                                if name@ == audio_word() {
                                    assert(name@.subrange(0, audio@.len() as int) =~= name@);
                                }
                            }
                            None
                        };
                        return Some((num, ty));
                    }
                }
            }
        }
        p = p + 1;
    }
    None
}

/// Whether a line starts, after whitespace, with `INDEX`.
fn is_index_line_exec(l: &Vec<u8>, index_w: &Vec<u8>) -> (r: bool)
    requires
        l@.len() <= isize::MAX,
        index_w@ == index_word(),
    ensures
        r == is_index_line(l@),
{
    let w = space_end_exec(l, 0);
    word_at_exec(l, w, index_w)
}

/// The number and time fields of an INDEX line.
fn index_of_exec(l: &Vec<u8>, index_w: &Vec<u8>) -> (r: Option<(usize, u8, u8, u8)>)
    requires
        l@.len() <= isize::MAX,
        index_w@ == index_word(),
    ensures
        match r {
            Some((num, m, s, f)) => index_of(l@) == Some((num as int, m as int, s as int, f as int)),
            None => index_of(l@) is None,
        },
{
    let mut p: usize = 0;
    while p < l.len()
        invariant
            l@.len() <= isize::MAX,
            index_w@ == index_word(),
            first_index(l@, 0) == first_index(l@, p as int),
        decreases l@.len() - p,
    {
        if word_at_exec(l, p, index_w) {
            let q = space_end_exec(l, p + 5);
            if q > p + 5 && q + 2 <= l.len() && 0x30 <= l[q] && l[q] <= 0x39 && 0x30 <= l[q + 1] && l[q + 1] <= 0x39 {
                let u = space_end_exec(l, q + 2);
                if u > q + 2 && u + 8 <= l.len() && 0x30 <= l[u] && l[u] <= 0x39 && 0x30 <= l[u + 1] && l[u + 1] <= 0x39
                    && l[u + 2] == 0x3A && 0x30 <= l[u + 3] && l[u + 3] <= 0x39 && 0x30 <= l[u + 4] && l[u + 4] <= 0x39
                    && l[u + 5] == 0x3A && 0x30 <= l[u + 6] && l[u + 6] <= 0x39 && 0x30 <= l[u + 7] && l[u + 7] <= 0x39 {
                    let num = two_digits_exec(l, q) as usize;
                    let m = two_digits_exec(l, u);
                    let s = two_digits_exec(l, u + 3);
                    let f = two_digits_exec(l, u + 6);
                    return Some((num, m, s, f));
                }
            }
        }
        p = p + 1;
    }
    None
}

/// The contents of a list of lines.
pub open spec fn lines_view(ls: Seq<Vec<u8>>) -> Seq<Seq<u8>> {
    ls.map_values(|v: Vec<u8>| v@)
}

/// Split the text into lines, as `str::lines` does.
fn split_lines(b: &[u8]) -> (r: Vec<Vec<u8>>)
    requires
        b@.len() <= isize::MAX,
    ensures
        lines_view(r@) == lines_from(b@, 0),
        forall|k: int| 0 <= k < r@.len() ==> #[trigger] r@[k]@.len() <= b@.len(),
{
    let mut lines: Vec<Vec<u8>> = Vec::new();
    let mut i: usize = 0;
    while i < b.len()
        invariant
            b@.len() <= isize::MAX,
            i <= b@.len(),
            lines_view(lines@) + lines_from(b@, i as int) == lines_from(b@, 0),
            forall|k: int| 0 <= k < lines@.len() ==> #[trigger] lines@[k]@.len() <= b@.len(),
        decreases b@.len() - i,
    {
        let mut e = i;
        while e < b.len() && b[e] != 0x0A
            invariant
                i <= e <= b@.len(),
                line_end(b@, i as int) == line_end(b@, e as int),
            decreases b@.len() - e,
        {
            e = e + 1;
        }
        let strip = e < b.len() && e > i && b[e - 1] == 0x0D;
        let stop = if strip { e - 1 } else { e };
        let mut line: Vec<u8> = Vec::new();
        let mut k = i;
        while k < stop
            invariant
                i <= k <= stop,
                stop <= e <= b@.len(),
                line@ == b@.subrange(i as int, k as int),
            decreases stop - k,
        {
            line.push(b[k]);
            assert(line@ =~= b@.subrange(i as int, k + 1));
            k = k + 1;
        }
        proof {
            lemma_line_end(b@, i as int);
            let raw = b@.subrange(i as int, e as int);
            if strip {
                assert(line@ =~= raw.drop_last());
            } else {
                assert(line@ =~= raw);
            }
        }
        let ghost before = lines_view(lines@);
        lines.push(line);
        proof {
            assert(lines_view(lines@) =~= before.push(line@));
        }
        if e < b.len() {
            assert(lines_view(lines@) + lines_from(b@, e + 1) =~= before + lines_from(b@, i as int));
            i = e + 1;
        } else {
            assert(lines_view(lines@) =~= before + lines_from(b@, i as int));
            assert(lines_from(b@, e as int) =~= Seq::<Seq<u8>>::empty());
            i = e;
        }
    }
    assert(lines_from(b@, i as int) =~= Seq::<Seq<u8>>::empty());
    assert(lines_view(lines@) =~= lines_from(b@, 0));
    lines
}

/// The tracks `ts` as the contracts speak of them.
pub open spec fn tracks_view(ts: Seq<Track>) -> Seq<TrackView> {
    ts.map_values(|t: Track| t@)
}

/// `is` followed by the indices of `o`, if `o` has indices.
pub open spec fn prepend_indices(is: Seq<Index>, o: IndexOutcome) -> IndexOutcome {
    match o {
        IndexOutcome::Read(rest) => IndexOutcome::Read(is + rest),
        other => other,
    }
}

/// Read a cue sheet. `None` stands for a sheet with an index time that is
/// not a valid decimal position, which cannot be read at all.
pub fn parse_cue(text: &[u8]) -> (r: Option<Result<CueFile, ParseError>>)
    requires
        text@.len() <= isize::MAX,
    ensures
        match r {
            None => cue_outcome(text@) is Unreadable,
            Some(Ok(cue)) => cue_outcome(text@) == CueOutcome::Parsed(tracks_view(cue.tracks@)),
            Some(Err(e)) => cue_outcome(text@) == CueOutcome::Failed(e),
        },
{
    let lines = split_lines(text);
    let ghost ls = lines_view(lines@);
    let index_w: Vec<u8> = vec![0x49, 0x4E, 0x44, 0x45, 0x58];
    assert(index_w@ =~= index_word());
    let mut tracks: Vec<Track> = Vec::new();
    let mut i: usize = 0;
    while i < lines.len()
        invariant
            ls == lines_view(lines@),
            ls.len() == lines@.len(),
            forall|k: int| 0 <= k < lines@.len() ==> #[trigger] lines@[k]@.len() <= isize::MAX,
            index_w@ == index_word(),
            i <= lines@.len(),
            cue_outcome(text@) == prepend(tracks_view(tracks@), parse_lines(ls, i as int)),
        decreases lines@.len() - i,
    {
        assert(ls[i as int] == lines@[i as int]@);
        if lines[i].len() == 0 {
            i = i + 1;
            continue;
        }
        let name = match file_name_exec(&lines[i]) {
            None => return Some(Err(ParseError::InvalidFileMarker)),
            Some(n) => n,
        };
        if i + 1 >= lines.len() {
            return Some(Err(ParseError::InvalidTrackMarker));
        }
        assert(ls[i + 1] == lines@[i + 1]@);
        let (num, ty) = match track_of_exec(&lines[i + 1]) {
            None => return Some(Err(ParseError::InvalidTrackMarker)),
            Some(x) => x,
        };
        let track_type = match ty {
            None => return Some(Err(ParseError::InvalidTrackMarker)),
            Some(t) => t,
        };
        let ghost run_end = index_run_end(ls, i + 2);
        proof {
            lemma_index_run_end(ls, i + 2);
        }
        let mut indices: Vec<Index> = Vec::new();
        let mut j = i + 2;
        while j < lines.len() && is_index_line_exec(&lines[j], &index_w)
            invariant
                ls == lines_view(lines@),
                ls.len() == lines@.len(),
                forall|k: int| 0 <= k < lines@.len() ==> #[trigger] lines@[k]@.len() <= isize::MAX,
                index_w@ == index_word(),
                i + 2 <= j <= lines@.len(),
                i + 1 < lines@.len(),
                ls[i as int].len() > 0,
                file_name_of(ls[i as int]) == Some(name@),
                track_of(ls[i + 1]) == Some((num as int, Some(track_type))),
                cue_outcome(text@) == prepend(tracks_view(tracks@), parse_lines(ls, i as int)),
                run_end == index_run_end(ls, i + 2),
                index_run_end(ls, j as int) == run_end,
                indices_of(ls, i + 2, run_end) == prepend_indices(indices@, indices_of(ls, j as int, run_end)),
            decreases lines@.len() - j,
        {
            assert(ls[j as int] == lines@[j as int]@);
            proof {
                lemma_index_run_end(ls, j + 1);
            }
            let (inum, m, s, f) = match index_of_exec(&lines[j], &index_w) {
                None => {
                    return Some(Err(ParseError::InvalidIndexMarker));
                },
                Some(x) => x,
            };
            let minute = match from_bcd(m) {
                None => return None,
                Some(v) => v,
            };
            let second = match from_bcd(s) {
                None => return None,
                Some(v) => v,
            };
            let sector = match from_bcd(f) {
                None => return None,
                Some(v) => v,
            };
            let ghost before = indices@;
            indices.push(Index { num: inum, start: DriveLoc { minute, second, sector } });
            proof {
                assert(indices@ =~= before + seq![indices@.last()]);
                assert(before + seq![indices@.last()] + (match indices_of(ls, j + 1, run_end) {
                    IndexOutcome::Read(rest) => rest,
                    _ => Seq::empty(),
                }) =~= before + (seq![indices@.last()] + (match indices_of(ls, j + 1, run_end) {
                    IndexOutcome::Read(rest) => rest,
                    _ => Seq::empty(),
                })));
            }
            j = j + 1;
        }
        proof {
            if j < lines@.len() {
                assert(ls[j as int] == lines@[j as int]@);
            }
            assert(index_run_end(ls, j as int) == j);
            assert(indices_of(ls, j as int, j as int) == IndexOutcome::Read(Seq::<Index>::empty()));
            assert(indices@ + Seq::<Index>::empty() =~= indices@);
        }
        let ghost before = tracks@;
        let track = Track { num, file_name: name, track_type, indices };
        let ghost tv = track@;
        tracks.push(track);
        proof {
            assert(tracks_view(tracks@) =~= tracks_view(before) + seq![tv]);
            match parse_lines(ls, j as int) {
                CueOutcome::Parsed(rest) => {
                    assert(tracks_view(before) + (seq![tv] + rest) =~= tracks_view(tracks@) + rest);
                },
                _ => {},
            }
        }
        i = j;
    }
    assert(tracks_view(tracks@) + Seq::<TrackView>::empty() =~= tracks_view(tracks@));
    Some(Ok(CueFile { tracks }))
}

impl CueFile {
    /// Read a cue sheet that can be read (see `parse_cue`).
    pub fn parse_from_str(s: &str) -> (r: Result<CueFile, ParseError>)
        requires
            s.spec_bytes().len() <= isize::MAX,
            !(cue_outcome(s.spec_bytes()) is Unreadable),
        ensures
            match r {
                Ok(cue) => cue_outcome(s.spec_bytes()) == CueOutcome::Parsed(tracks_view(cue.tracks@)),
                Err(e) => cue_outcome(s.spec_bytes()) == CueOutcome::Failed(e),
            },
    {
        match parse_cue(s.as_bytes()) {
            Some(r) => r,
            None => Err(ParseError::InvalidIndexMarker),
        }
    }
}

} // verus!
