use phase::cdrom::xa::{resample_audio, VolumeMap, XAAudio};

#[test]
fn xa_volume_stereo() {
    let unity = VolumeMap { left_to_left: 0x80, left_to_right: 0, right_to_left: 0, right_to_right: 0x80 };
    assert_eq!(unity.apply_stereo(1000, -1000), [1000, -1000]);
    let half = VolumeMap { left_to_left: 0x40, left_to_right: 0, right_to_left: 0, right_to_right: 0 };
    // Rounded down: -3 / 2 is -2.
    assert_eq!(half.apply_stereo(-3, 7), [-2, 0]);
    let swap = VolumeMap { left_to_left: 0, left_to_right: 0x80, right_to_left: 0x80, right_to_right: 0 };
    assert_eq!(swap.apply_stereo(5, 9), [9, 5]);
    // The sum wraps to 16 bits.
    let loud = VolumeMap { left_to_left: 0xFF, left_to_right: 0, right_to_left: 0xFF, right_to_right: 0 };
    assert_eq!(loud.apply_stereo(32767, 32767), [-516, 0]);
}

#[test]
fn xa_volume_mono() {
    let v = VolumeMap { left_to_left: 0x80, left_to_right: 0x20, right_to_left: 0x80, right_to_right: 0x20 };
    assert_eq!(v.apply_mono(100), [200, 50]);
    assert_eq!(v.apply_mono(-1), [-2, -1]);
}

#[test]
fn xa_resample_six_to_seven() {
    let input: Vec<[i16; 2]> = (0..6).map(|k| [k * 1000, -k * 1000]).collect();
    let out = resample_audio(&input);
    assert_eq!(out.len(), 7);
    assert_eq!(out[0], [0, 0]);
    assert_eq!(out[1], [857, -858]);
    assert_eq!(out[5], [4285, -4286]);
    // The last sample blends with itself.
    assert_eq!(out[6], [5000, -5000]);
    let twelve: Vec<[i16; 2]> = (0..12).map(|_| [300, -300]).collect();
    let out = resample_audio(&twelve);
    assert_eq!(out.len(), 14);
    assert!(out.iter().all(|s| *s == [300, -300]));
    assert!(resample_audio(&[]).is_empty());
}

#[test]
fn xa_filters_and_volumes() {
    let mut xa = XAAudio::new();
    xa.set_filters(1, 3);
    assert_eq!(xa.get_filters(), (1, 3));
    assert!(xa.test_filter(1, 3));
    assert!(!xa.test_filter(1, 2));
    // Staged volumes apply only when bit 5 is written.
    xa.set_left_to_left(0x80);
    xa.set_right_to_right(0x80);
    xa.apply_changes(0x01);
    let silent: Vec<i16> = vec![1000, 1000, 1000, 1000, 1000, 1000, 1000, 1000, 1000, 1000, 1000, 1000];
    xa.write_audio_samples(&silent, 0x01);
    assert_eq!(xa.fetch_decoded_audio().unwrap(), vec![[0, 0]; 7]);
    assert!(xa.fetch_decoded_audio().is_none());
    xa.apply_changes(0x20);
    xa.write_audio_samples(&silent, 0x01);
    assert_eq!(xa.fetch_decoded_audio().unwrap(), vec![[1000, 1000]; 7]);
}

#[test]
fn xa_mono_samples() {
    let mut xa = XAAudio::new();
    xa.set_left_to_left(0x40);
    xa.set_right_to_left(0x40);
    xa.set_left_to_right(0x80);
    xa.apply_changes(0x20);
    let samples: Vec<i16> = vec![200; 6];
    xa.write_audio_samples(&samples, 0x00);
    let out = xa.fetch_decoded_audio().unwrap();
    assert_eq!(out.len(), 7);
    assert!(out.iter().all(|s| *s == [200, 200]));
}
