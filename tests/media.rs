use b2b::media::{downmix_to_mono, split_into_20ms_frames, PcmFrames};

#[test]
fn splits_into_20ms_frames_at_8k() {
    let pcm: Vec<i16> = (0..400).map(|i| i as i16).collect();
    let frames = split_into_20ms_frames(&pcm, 8000);
    assert_eq!(frames.len(), 3);
    assert_eq!(frames[0].len(), 160);
    assert_eq!(frames[1].len(), 160);
    assert_eq!(frames[2].len(), 80);
    assert_eq!(frames[1][0], 160);
    assert_eq!(frames.concat(), pcm);
}

#[test]
fn low_rate_uses_one_sample_frames() {
    let frames = split_into_20ms_frames(&[1, 2, 3], 10);
    assert_eq!(frames, vec![vec![1], vec![2], vec![3]]);
}

#[test]
fn empty_input_gives_no_frames() {
    assert!(split_into_20ms_frames(&[], 48000).is_empty());
}

#[test]
fn pcm_frames_hold_data() {
    let p = PcmFrames { data: vec![0; 960], sample_rate: 48000 };
    let frames = split_into_20ms_frames(&p.data, p.sample_rate);
    assert_eq!(frames.len(), 1);
    assert_eq!(frames[0].len(), 960);
}

#[test]
fn stereo_is_averaged_toward_zero() {
    let s = [2i16, 4, -3, -4, 5];
    assert_eq!(downmix_to_mono(&s, 2), vec![3, -3]);
}

#[test]
fn extreme_samples_stay_in_range() {
    let s = [i16::MAX, i16::MAX, i16::MAX, i16::MIN, i16::MIN, i16::MIN];
    assert_eq!(downmix_to_mono(&s, 3), vec![i16::MAX, i16::MIN]);
}

#[test]
fn mono_is_kept() {
    assert_eq!(downmix_to_mono(&[1, -2, 3], 1), vec![1, -2, 3]);
    assert_eq!(downmix_to_mono(&[1, -2, 3], 0), vec![1, -2, 3]);
}
