use phase::cdrom::cue::{parse_cue, CueFile, ParseError, TrackType};
use phase::cdrom::DriveLoc;
use phase::cdrom::disc::{disc_layout, track_at, layout_fits_lens, get_file_end_pos, Disc, TrackSpan};

const SHEET: &str = "FILE \"Game (Track 1).bin\" BINARY\n  TRACK 01 MODE2/2352\n    INDEX 01 00:00:00\nFILE \"Game (Track 2).bin\" BINARY\n  TRACK 02 AUDIO\n    INDEX 00 00:00:00\n    INDEX 01 00:02:00\n";

#[test]
fn cue_two_tracks() {
    let cue = CueFile::parse_from_str(SHEET).ok().unwrap();
    assert_eq!(cue.tracks.len(), 2);
    let t1 = &cue.tracks[0];
    assert_eq!(t1.num, 1);
    assert_eq!(t1.file_name, b"Game (Track 1).bin".to_vec());
    assert_eq!(t1.track_type, TrackType::DataMode2);
    assert_eq!(t1.indices.len(), 1);
    assert_eq!(t1.indices[0].num, 1);
    assert_eq!(t1.indices[0].start, DriveLoc { minute: 0, second: 0, sector: 0 });
    let t2 = &cue.tracks[1];
    assert_eq!(t2.num, 2);
    assert_eq!(t2.track_type, TrackType::Audio);
    assert_eq!(t2.indices.len(), 2);
    assert_eq!(t2.indices[1].start, DriveLoc { minute: 0, second: 2, sector: 0 });
}

#[test]
fn cue_crlf_and_blank_lines() {
    let text = "\r\nFILE \"a.bin\" BINARY\r\nTRACK 01 AUDIO\r\n\r\nFILE \"b.bin\" BINARY\r\nTRACK 02 AUDIO\r\nINDEX 01 00:16:00\r\n";
    let cue = CueFile::parse_from_str(text).ok().unwrap();
    assert_eq!(cue.tracks.len(), 2);
    assert_eq!(cue.tracks[0].indices.len(), 0);
    assert_eq!(cue.tracks[1].file_name, b"b.bin".to_vec());
    // The time fields are read as binary-coded decimal: "16" stands for 10.
    assert_eq!(cue.tracks[1].indices[0].start, DriveLoc { minute: 0, second: 10, sector: 0 });
}

#[test]
fn cue_empty_sheet() {
    let cue = CueFile::parse_from_str("").ok().unwrap();
    assert_eq!(cue.tracks.len(), 0);
}

#[test]
fn cue_errors() {
    assert_eq!(CueFile::parse_from_str("TRACK 01 AUDIO\n").err(), Some(ParseError::InvalidFileMarker));
    assert_eq!(CueFile::parse_from_str("FILE \"a.bin\" BINARY\n").err(), Some(ParseError::InvalidTrackMarker));
    assert_eq!(
        CueFile::parse_from_str("FILE \"a.bin\" BINARY\nTRACK 01 MODE1/2048\n").err(),
        Some(ParseError::InvalidTrackMarker)
    );
    assert_eq!(
        CueFile::parse_from_str("FILE \"a.bin\" BINARY\nTRACK 1 AUDIO\n").err(),
        Some(ParseError::InvalidTrackMarker)
    );
    assert_eq!(
        CueFile::parse_from_str("FILE \"a.bin\" BINARY\nTRACK 01 AUDIO\nINDEX 01 00:02\n").err(),
        Some(ParseError::InvalidIndexMarker)
    );
    assert_eq!(
        CueFile::parse_from_str("FILE \"a.bin\" BINARY\nTRACK 01 AUDIO\nPREGAP 00:02:00\n").err(),
        Some(ParseError::InvalidFileMarker)
    );
}

#[test]
fn cue_unreadable_time() {
    // "12" read as binary-coded decimal is 0x0C, which is no decimal digit pair.
    let text = b"FILE \"a.bin\" BINARY\nTRACK 01 AUDIO\nINDEX 01 00:12:00\n";
    assert!(parse_cue(text).is_none());
    assert!(parse_cue(b"FILE \"a.bin\" BINARY\nTRACK 01 AUDIO\nINDEX 01 00:09:00\n").is_some());
}

#[test]
fn drive_loc_offset() {
    let loc = DriveLoc { minute: 0, second: 2, sector: 0 };
    assert_eq!(loc.byte_offset(), 0);
    let loc = DriveLoc { minute: 1, second: 2, sector: 3 };
    assert_eq!(loc.byte_offset(), (60 * 75 + 3) * 2352);
}

fn loc(minute: u8, second: u8, sector: u8) -> DriveLoc {
    DriveLoc { minute, second, sector }
}

#[test]
fn disc_layout_of_two_tracks() {
    let cue = CueFile::parse_from_str(SHEET).ok().unwrap();
    // 10.5 seconds, then 70 seconds of sectors.
    let lens = vec![(10 * 75 + 37) * 2352, 70 * 75 * 2352 + 100];
    let layout = disc_layout(&cue.tracks, &lens);
    assert_eq!(layout, vec![
        TrackSpan { num: 1, start: loc(0, 2, 0), end: loc(0, 14, 0) },
        TrackSpan { num: 2, start: loc(0, 14, 0), end: loc(1, 26, 0) },
    ]);
    assert_eq!(track_at(&layout, loc(0, 1, 74)), None);
    assert_eq!(track_at(&layout, loc(0, 2, 0)), Some((1, loc(0, 0, 0))));
    assert_eq!(track_at(&layout, loc(0, 13, 74)), Some((1, loc(0, 11, 74))));
    assert_eq!(track_at(&layout, loc(0, 14, 0)), Some((2, loc(0, 0, 0))));
    assert_eq!(track_at(&layout, loc(1, 20, 5)), Some((2, loc(1, 6, 5))));
}

#[test]
fn drive_loc_add_and_relative() {
    assert_eq!(loc(0, 59, 74).add(&loc(0, 0, 1)), loc(1, 0, 0));
    assert_eq!(loc(1, 30, 40).add(&loc(2, 45, 50)), loc(4, 16, 15));
    assert_eq!(loc(1, 0, 0).relative_to(&loc(0, 2, 0)), Some(loc(0, 58, 0)));
    assert_eq!(loc(0, 1, 0).relative_to(&loc(0, 2, 0)), None);
    assert_eq!(get_file_end_pos(59 * 75 * 2352 + 2351), loc(1, 1, 0));
}

#[test]
fn disc_from_cue_needs_tracks_that_fit() {
    let cue = CueFile::parse_from_str(SHEET).ok().unwrap();
    assert!(layout_fits_lens(&vec![2352, 2352]));
    assert!(!layout_fits_lens(&vec![u64::MAX]));
    let empty = CueFile::parse_from_str("").ok().unwrap();
    assert!(Disc::new_from_cue(&empty.tracks, vec![]).is_none());
    let disc = Disc::new_from_cue(&cue.tracks, vec![vec![0; 2352], vec![0; 4704]]).unwrap();
    assert_eq!(disc.get_track_end_pos(1), loc(0, 4, 0));
    assert_eq!(disc.get_end_pos(), loc(0, 6, 0));
    let single = Disc::new_from_bin(vec![0; 3 * 75 * 2352]);
    assert_eq!(single.get_track_count(), 1);
    assert_eq!(single.get_end_pos(), loc(0, 5, 0));
}

#[test]
fn cue_unicode_whitespace() {
    // A no-break space after FILE, an ideographic space after TRACK and its
    // number, and an em space before INDEX.
    let text = "FILE\u{00A0}\"a.bin\" BINARY\n\u{3000}TRACK\u{3000}01\u{3000}AUDIO\n\u{2003}INDEX 01 00:02:00\n";
    let cue = CueFile::parse_from_str(text).ok().unwrap();
    assert_eq!(cue.tracks.len(), 1);
    assert_eq!(cue.tracks[0].file_name, b"a.bin".to_vec());
    assert_eq!(cue.tracks[0].track_type, TrackType::Audio);
    assert_eq!(cue.tracks[0].indices.len(), 1);
    assert_eq!(cue.tracks[0].indices[0].start, DriveLoc { minute: 0, second: 2, sector: 0 });
    // A character that is not whitespace still breaks the marker.
    assert!(CueFile::parse_from_str("FILE\u{00A9}\"a.bin\" BINARY\nTRACK 01 AUDIO\n").is_err());
}
