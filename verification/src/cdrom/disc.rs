//! The layout of a disc: where the image of each track lies on the disc,
//! and which track holds a position.

use vstd::prelude::*;
use crate::cdrom::DriveLoc;
use crate::cdrom::cue::Track;

verus! {

/// The sector number of a position: 75 sectors a second, 60 seconds a minute.
pub open spec fn loc_index(l: DriveLoc) -> int {
    l.minute * 4500 + l.second * 75 + l.sector
}

/// The position of sector number `i`.
pub open spec fn loc_of_index(i: int) -> DriveLoc {
    DriveLoc { minute: (i / 4500) as u8, second: ((i % 4500) / 75) as u8, sector: (i % 75) as u8 }
}

/// The sum of two positions, carrying sectors into seconds and seconds into
/// minutes.
pub open spec fn loc_add(a: DriveLoc, b: DriveLoc) -> DriveLoc {
    loc_of_index(loc_index(a) + loc_index(b))
}

/// Where the data of a disc starts: two seconds in.
pub open spec fn disc_start() -> DriveLoc {
    DriveLoc { minute: 0, second: 2, sector: 0 }
}

/// The seconds a track image of `len` bytes spans: its whole seconds of
/// sectors, and two more.
pub open spec fn file_seconds(len: nat) -> int {
    ((len / 2352) / 75 + 2) as int
}

/// The end of an image of `len` bytes: its length rounded down to whole
/// seconds, two seconds on.
pub open spec fn final_sector(len: nat) -> DriveLoc {
    DriveLoc { minute: (file_seconds(len) / 60) as u8, second: (file_seconds(len) % 60) as u8, sector: 0 }
}

/// The seconds that the first `i` images of `lens` span together.
pub open spec fn seconds_before(lens: Seq<u64>, i: int) -> int
    decreases i,
{
    if i <= 0 {
        0
    } else {
        seconds_before(lens, i - 1) + file_seconds(lens[i - 1] as nat)
    }
}

/// Images of these lengths, laid out one after the other from two seconds
/// in, end within 256 minutes, where positions can still be written.
pub open spec fn layout_fits(lens: Seq<u64>) -> bool {
    150 + 75 * seconds_before(lens, lens.len() as int) < 256 * 4500
}

/// Where a track lies on the disc: from its start up to (not including) its end.
#[derive(Clone, Copy, PartialEq, Eq, Structural, Debug)]
pub struct TrackSpan {
    pub num: u8,
    pub start: DriveLoc,
    pub end: DriveLoc,
}

/// `layout` lays out the tracks of a cue sheet whose images have lengths
/// `lens`: the first starts two seconds in, each ends where its image's
/// length, rounded down to whole seconds and two seconds on, takes it, and
/// the next starts where it ends.
pub open spec fn laid_out(layout: Seq<TrackSpan>, tracks: Seq<Track>, lens: Seq<u64>) -> bool {
    &&& layout.len() == tracks.len()
    &&& layout.len() > 0 ==> layout[0].start == disc_start()
    &&& forall|i: int| 0 < i < layout.len() ==> #[trigger] layout[i].start == layout[i - 1].end
    &&& forall|i: int| #![trigger layout[i]] 0 <= i < layout.len() ==> {
        &&& layout[i].num == tracks[i].num as u8
        &&& layout[i].end == loc_add(layout[i].start, final_sector(lens[i] as nat))
        &&& loc_index(layout[i].start) == 150 + 75 * seconds_before(lens, i)
        &&& loc_index(layout[i].end) == 150 + 75 * seconds_before(lens, i + 1)
        &&& layout[i].end == loc_of_index(150 + 75 * seconds_before(lens, i + 1))
    }
}

/// Among the first `k` tracks of `layout`, the last that starts at or before
/// sector `idx`; -1 where none does.
pub open spec fn last_start_at_or_before(layout: Seq<TrackSpan>, idx: int, k: int) -> int
    decreases k,
{
    if k <= 0 {
        -1
    } else if loc_index(layout[k - 1].start) <= idx {
        k - 1
    } else {
        last_start_at_or_before(layout, idx, k - 1)
    }
}

/// The track that holds sector `idx`: the last to start at or before it.
pub open spec fn track_of(layout: Seq<TrackSpan>, idx: int) -> int {
    last_start_at_or_before(layout, idx, layout.len() as int)
}

/// The number of the track that holds `pos`, and `pos` counted from that
/// track's start; none before the first track.
pub open spec fn track_at_spec(layout: Seq<TrackSpan>, pos: DriveLoc) -> Option<(u8, DriveLoc)> {
    let i = track_of(layout, loc_index(pos));
    if i < 0 {
        None
    } else {
        Some((layout[i].num, loc_of_index(loc_index(pos) - loc_index(layout[i].start))))
    }
}

proof fn lemma_loc_round_trip(i: int)
    requires
        0 <= i < 256 * 4500,
    ensures
        loc_index(loc_of_index(i)) == i,
        loc_of_index(i).second < 60,
        loc_of_index(i).sector < 75,
{
    assert(i / 4500 < 256);
    assert((i % 4500) / 75 < 60);
    assert(i == (i / 4500) * 4500 + ((i % 4500) / 75) * 75 + i % 75);
}

proof fn lemma_file_end_index(len: nat)
    requires
        file_seconds(len) < 256 * 60,
    ensures
        loc_index(final_sector(len)) == 75 * file_seconds(len),
{
    let s = file_seconds(len);
    assert(s == 60 * (s / 60) + s % 60);
}

proof fn lemma_seconds_before_mono(lens: Seq<u64>, i: int, j: int)
    requires
        0 <= i <= j,
    ensures
        seconds_before(lens, i) <= seconds_before(lens, j),
        seconds_before(lens, j) - seconds_before(lens, i) >= 2 * (j - i),
    decreases j,
{
    if i < j {
        lemma_seconds_before_mono(lens, i, j - 1);
    }
}

fn loc_sector_index(l: &DriveLoc) -> (r: u32)
    ensures
        r == loc_index(*l),
{
    (l.minute as u32) * 4500 + (l.second as u32) * 75 + l.sector as u32
}

fn loc_from_index(i: u32) -> (r: DriveLoc)
    ensures
        r == loc_of_index(i as int),
{
    DriveLoc { minute: (i / 4500) as u8, second: ((i % 4500) / 75) as u8, sector: (i % 75) as u8 }
}

impl DriveLoc {
    /// This position plus `other`, with carries.
    pub fn add(&self, other: &DriveLoc) -> (r: DriveLoc)
        ensures
            r == loc_add(*self, *other),
    {
        loc_from_index(loc_sector_index(self) + loc_sector_index(other))
    }

    /// This position counted from `start`, where it is not before `start`.
    pub fn relative_to(&self, start: &DriveLoc) -> (r: Option<DriveLoc>)
        ensures
            r == (if loc_index(*self) >= loc_index(*start) {
                Some(loc_of_index(loc_index(*self) - loc_index(*start)))
            } else {
                None::<DriveLoc>
            }),
    {
        let a = loc_sector_index(self);
        let b = loc_sector_index(start);
        if a >= b {
            Some(loc_from_index(a - b))
        } else {
            None
        }
    }
}

/// The end of an image of `file_len` bytes: its whole seconds of sectors,
/// two seconds on.
pub fn get_file_end_pos(file_len: u64) -> (r: DriveLoc)
    ensures
        r == final_sector(file_len as nat),
{
    let sector_count = file_len / 2352;
    let total_seconds = (sector_count / 75) + 2;
    let minute = (total_seconds / 60) as u8;
    let second = (total_seconds % 60) as u8;
    DriveLoc { minute, second, sector: 0 }
}

/// Whether images of lengths `file_lens` fit on a disc one after the other.
pub fn layout_fits_lens(file_lens: &Vec<u64>) -> (r: bool)
    ensures
        r == layout_fits(file_lens@),
{
    let mut total: u64 = 0;
    let mut i: usize = 0;
    while i < file_lens.len()
        invariant
            i <= file_lens.len(),
            total == seconds_before(file_lens@, i as int),
            150 + 75 * total < 256 * 4500,
        decreases file_lens.len() - i,
    {
        let secs = (file_lens[i] / 2352) / 75 + 2;
        if secs >= 15360 || total + secs >= 15358 {
            proof {
                lemma_seconds_before_mono(file_lens@, i as int + 1, file_lens@.len() as int);
            }
            return false;
        }
        total = total + secs;
        i = i + 1;
    }
    true
}

/// Lay out the tracks of a cue sheet, given the lengths of their images.
pub fn disc_layout(tracks: &Vec<Track>, file_lens: &Vec<u64>) -> (r: Vec<TrackSpan>)
    requires
        tracks.len() == file_lens.len(),
        layout_fits(file_lens@),
    ensures
        laid_out(r@, tracks@, file_lens@),
{
    let ghost lens = file_lens@;
    let mut r: Vec<TrackSpan> = Vec::new();
    let mut current = DriveLoc { minute: 0, second: 2, sector: 0 };
    let mut i: usize = 0;
    while i < tracks.len()
        invariant
            tracks.len() == file_lens.len(),
            lens == file_lens@,
            layout_fits(lens),
            i <= tracks.len(),
            r.len() == i,
            loc_index(current) == 150 + 75 * seconds_before(lens, i as int),
            i == 0 ==> current == disc_start(),
            i > 0 ==> current == r@[i - 1].end,
            forall|j: int| 0 < j < i ==> #[trigger] r@[j].start == r@[j - 1].end,
            i > 0 ==> r@[0].start == disc_start(),
            forall|j: int| #![trigger r@[j]] 0 <= j < i ==> {
                &&& r@[j].num == tracks@[j].num as u8
                &&& r@[j].end == loc_add(r@[j].start, final_sector(lens[j] as nat))
                &&& loc_index(r@[j].start) == 150 + 75 * seconds_before(lens, j)
                &&& loc_index(r@[j].end) == 150 + 75 * seconds_before(lens, j + 1)
                &&& r@[j].end == loc_of_index(150 + 75 * seconds_before(lens, j + 1))
            },
        decreases tracks.len() - i,
    {
        proof {
            lemma_seconds_before_mono(lens, i as int + 1, lens.len() as int);
            lemma_file_end_index(lens[i as int] as nat);
            lemma_loc_round_trip(150 + 75 * seconds_before(lens, i as int + 1));
        }
        let end = current.add(&get_file_end_pos(file_lens[i]));
        r.push(TrackSpan { num: tracks[i].num as u8, start: current, end });
        current = end;
        i = i + 1;
    }
    r
}

/// The number of the track that holds `pos`, and `pos` counted from its
/// start: the last track to start at or before `pos`, or none where `pos`
/// comes before the first track.
pub fn track_at(layout: &Vec<TrackSpan>, pos: DriveLoc) -> (r: Option<(u8, DriveLoc)>)
    ensures
        r == track_at_spec(layout@, pos),
{
    let idx = loc_sector_index(&pos);
    let mut k = layout.len();
    while k > 0
        invariant
            k <= layout.len(),
            idx == loc_index(pos),
            track_of(layout@, idx as int) == last_start_at_or_before(layout@, idx as int, k as int),
        decreases k,
    {
        let s = loc_sector_index(&layout[k - 1].start);
        if s <= idx {
            assert(last_start_at_or_before(layout@, idx as int, k as int) == k - 1);
            return Some((layout[k - 1].num, loc_from_index(idx - s)));
        }
        k = k - 1;
    }
    assert(last_start_at_or_before(layout@, idx as int, 0) == -1);
    None
}

proof fn lemma_last_start_skips(layout: Seq<TrackSpan>, idx: int, k: int, i: int)
    requires
        0 <= i < k <= layout.len(),
        loc_index(layout[i].start) <= idx,
        forall|j: int| i < j < k ==> loc_index(#[trigger] layout[j].start) > idx,
    ensures
        last_start_at_or_before(layout, idx, k) == i,
    decreases k,
{
    if k - 1 > i {
        lemma_last_start_skips(layout, idx, k - 1, i);
    }
}

/// In a layout where no track starts before an earlier one ends, a position
/// within a track's span is found in that track, counted from its start.
pub proof fn lemma_track_at_span(layout: Seq<TrackSpan>, pos: DriveLoc, i: int)
    requires
        forall|a: int, b: int| 0 <= a < b < layout.len()
            ==> loc_index(#[trigger] layout[a].end) <= loc_index(#[trigger] layout[b].start),
        0 <= i < layout.len(),
        loc_index(layout[i].start) <= loc_index(pos) < loc_index(layout[i].end),
    ensures
        track_at_spec(layout, pos) == Some((layout[i].num, loc_of_index(loc_index(pos) - loc_index(layout[i].start)))),
{
    assert forall|j: int| i < j < layout.len() implies loc_index(#[trigger] layout[j].start) > loc_index(pos) by {
        assert(loc_index(layout[i].end) <= loc_index(layout[j].start));
    }
    lemma_last_start_skips(layout, loc_index(pos), layout.len() as int, i);
}

/// A cue sheet's layout never starts a track before an earlier one ends.
pub proof fn lemma_laid_out_ordered(layout: Seq<TrackSpan>, tracks: Seq<Track>, lens: Seq<u64>)
    requires
        laid_out(layout, tracks, lens),
    ensures
        forall|a: int, b: int| 0 <= a < b < layout.len()
            ==> loc_index(#[trigger] layout[a].end) <= loc_index(#[trigger] layout[b].start),
{
    assert forall|a: int, b: int| 0 <= a < b < layout.len()
        implies loc_index(#[trigger] layout[a].end) <= loc_index(#[trigger] layout[b].start) by {
        lemma_seconds_before_mono(lens, a + 1, b);
    }
}

/// The lengths of the images.
pub open spec fn image_lens(images: Seq<Vec<u8>>) -> Seq<u64> {
    Seq::new(images.len(), |i: int| images[i]@.len() as u64)
}

/// A disc as the contracts speak of it: where each track lies, and the
/// bytes of each track's image.
pub struct DiscView {
    pub layout: Seq<TrackSpan>,
    pub images: Seq<Seq<u8>>,
}

/// A disc can be read: it has an image for each of its tracks (at least
/// one), the first starts two seconds in, and every track starts on a whole
/// second, none before the first.
pub open spec fn disc_ok(d: DiscView) -> bool {
    &&& d.layout.len() >= 1
    &&& d.images.len() == d.layout.len()
    &&& loc_index(d.layout[0].start) == 150
    &&& disc_end(d).second < 60
    &&& forall|i: int| 0 <= i < d.layout.len() ==> {
        &&& loc_index(#[trigger] d.layout[i].start) % 75 == 0
        &&& loc_index(d.layout[i].start) >= 150
    }
}

/// The end of the disc: the end of its last track.
pub open spec fn disc_end(d: DiscView) -> DriveLoc {
    d.layout.last().end
}

/// The track image that holds byte `offset` of the disc's data (which starts
/// two seconds in), and the byte's offset in that image.
pub open spec fn locate(d: DiscView, offset: int) -> Option<(int, int)> {
    let i = track_of(d.layout, offset / 2352 + 150);
    if i < 0 {
        None
    } else {
        Some((i, offset - (loc_index(d.layout[i].start) - 150) * 2352))
    }
}

/// A disc: where its tracks lie, and the image of each.
pub struct Disc {
    layout: Vec<TrackSpan>,
    images: Vec<Vec<u8>>,
}

impl View for Disc {
    type V = DiscView;

    closed spec fn view(&self) -> DiscView {
        DiscView { layout: self.layout@, images: Seq::new(self.images@.len(), |i: int| self.images@[i]@) }
    }
}

pub(crate) proof fn lemma_first_track_found(layout: Seq<TrackSpan>, idx: int, k: int)
    requires
        0 < k <= layout.len(),
        loc_index(layout[0].start) <= idx,
    ensures
        0 <= last_start_at_or_before(layout, idx, k) < k,
        loc_index(layout[last_start_at_or_before(layout, idx, k)].start) <= idx,
    decreases k,
{
    if k > 1 && loc_index(layout[k - 1].start) > idx {
        lemma_first_track_found(layout, idx, k - 1);
    }
}

impl Disc {
    #[verifier::type_invariant]
    pub(crate) open spec fn inv(self) -> bool {
        disc_ok(self@)
    }

    /// A disc of one track, from a raw image: the track starts two seconds in
    /// and ends with the image's whole seconds, two seconds on.
    pub fn new_from_bin(image: Vec<u8>) -> (r: Disc)
        ensures
            disc_ok(r@),
            r@.layout == seq![TrackSpan { num: 1, start: disc_start(), end: final_sector(image@.len()) }],
            r@.images == seq![image@],
    {
        let end = get_file_end_pos(image.len() as u64);
        let mut layout: Vec<TrackSpan> = Vec::new();
        layout.push(TrackSpan { num: 1, start: DriveLoc { minute: 0, second: 2, sector: 0 }, end });
        let mut images: Vec<Vec<u8>> = Vec::new();
        images.push(image);
        let d = Disc { layout, images };
        assert(d@.layout =~= seq![TrackSpan { num: 1, start: disc_start(), end: final_sector(image@.len()) }]);
        assert(d@.images =~= seq![image@]);
        d
    }

    /// A disc of the tracks of a cue sheet, given the image of each track,
    /// laid out one after the other from two seconds in; none where the
    /// sheet has no track or the images do not fit on a disc.
    pub fn new_from_cue(tracks: &Vec<Track>, images: Vec<Vec<u8>>) -> (r: Option<Disc>)
        requires
            tracks.len() == images.len(),
        ensures
            r is None <==> tracks.len() == 0 || !layout_fits(image_lens(images@)),
            r matches Some(d) ==> {
                &&& disc_ok(d@)
                &&& laid_out(d@.layout, tracks@, image_lens(images@))
                &&& d@.images == Seq::new(images@.len(), |i: int| images@[i]@)
            },
    {
        let mut lens: Vec<u64> = Vec::new();
        let mut i: usize = 0;
        while i < images.len()
            invariant
                i <= images.len(),
                lens@ == image_lens(images@).take(i as int),
            decreases images.len() - i,
        {
            lens.push(images[i].len() as u64);
            i = i + 1;
            assert(lens@ =~= image_lens(images@).take(i as int));
        }
        assert(lens@ =~= image_lens(images@));
        if tracks.len() == 0 || !layout_fits_lens(&lens) {
            return None;
        }
        let layout = disc_layout(tracks, &lens);
        proof {
            assert forall|j: int| 0 <= j < layout@.len() implies {
                &&& loc_index(#[trigger] layout@[j].start) % 75 == 0
                &&& loc_index(layout@[j].start) >= 150
            } by {
                let n = seconds_before(lens@, j);
                lemma_seconds_before_mono(lens@, 0, j);
                assert((150 + 75 * n) % 75 == 0) by (nonlinear_arith)
                    requires n >= 0;
            }
            let last = layout@.len() - 1;
            assert(layout@.len() == lens@.len());
            assert(layout_fits(lens@));
            assert(150 + 75 * seconds_before(lens@, last + 1) < 256 * 4500);
            lemma_seconds_before_mono(lens@, 0, last + 1);
            lemma_loc_round_trip(150 + 75 * seconds_before(lens@, last + 1));
        }
        let d = Disc { layout, images };
        Some(d)
    }

    /// The number of tracks.
    pub fn get_track_count(&self) -> (r: u8)
        ensures
            r == self@.layout.len() as u8,
    {
        self.layout.len() as u8
    }

    /// Where track `track` (counting from 1) starts.
    pub fn get_track_start_pos(&self, track: u8) -> (r: DriveLoc)
        requires
            1 <= track <= self@.layout.len(),
        ensures
            r == self@.layout[track - 1].start,
    {
        self.layout[(track - 1) as usize].start
    }

    /// Where track `track` (counting from 1) ends.
    pub fn get_track_end_pos(&self, track: u8) -> (r: DriveLoc)
        requires
            1 <= track <= self@.layout.len(),
        ensures
            r == self@.layout[track - 1].end,
    {
        self.layout[(track - 1) as usize].end
    }

    /// The end of the disc.
    pub fn get_end_pos(&self) -> (r: DriveLoc)
        ensures
            disc_ok(self@),
            r == disc_end(self@),
    {
        proof {
            use_type_invariant(self);
        }
        self.layout[self.layout.len() - 1].end
    }

    /// The image of track index `i`.
    pub fn image(&self, i: usize) -> (r: &Vec<u8>)
        requires
            i < self@.images.len(),
        ensures
            r@ == self@.images[i as int],
    {
        &self.images[i]
    }

    /// The track image holding byte `offset` of the disc's data, and the
    /// offset into that image.
    pub fn locate(&self, offset: u64) -> (r: (usize, u64))
        ensures
            disc_ok(self@),
            locate(self@, offset as int) == Some((r.0 as int, r.1 as int)),
            r.0 < self@.images.len(),
    {
        proof {
            use_type_invariant(self);
            lemma_first_track_found(self@.layout, offset / 2352 + 150, self@.layout.len() as int);
        }
        let idx = offset / 2352 + 150;
        let mut k = self.layout.len();
        while k > 1
            invariant
                1 <= k <= self.layout@.len(),
                idx == offset / 2352 + 150,
                disc_ok(self@),
                track_of(self.layout@, idx as int) == last_start_at_or_before(self.layout@, idx as int, k as int),
            decreases k,
        {
            let s = loc_sector_index(&self.layout[k - 1].start) as u64;
            if s <= idx {
                assert(last_start_at_or_before(self.layout@, idx as int, k as int) == k - 1);
                assert((s - 150) * 2352 <= (offset / 2352) * 2352) by (nonlinear_arith)
                    requires s - 150 <= offset / 2352, s >= 150;
                assert((offset / 2352) * 2352 <= offset) by (nonlinear_arith);
                return (k - 1, offset - (s - 150) * 2352);
            }
            k = k - 1;
        }
        assert(last_start_at_or_before(self.layout@, idx as int, 1) == 0);
        assert((offset / 2352) * 2352 <= offset) by (nonlinear_arith);
        (0, offset)
    }
}

} // verus!
