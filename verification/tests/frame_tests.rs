use deep_filter_rt::frame::AudioFrame;

#[test]
fn from_raw_accepts_exact_buffer() {
    let data: Vec<u32> = (0..6u32).collect();
    let frame = AudioFrame::from_raw(2, 3, data).expect("2 * 3 samples fit");
    assert_eq!(frame.channels(), 2);
    assert_eq!(frame.samples_per_channel(), 3);
    assert_eq!(frame.sample(0, 0), 0);
    assert_eq!(frame.sample(0, 2), 2);
    assert_eq!(frame.sample(1, 0), 3);
    assert_eq!(frame.sample(1, 2), 5);
}

#[test]
fn from_raw_rejects_short_buffer() {
    let data: Vec<u32> = vec![1, 2, 3, 4, 5];
    assert!(AudioFrame::from_raw(2, 3, data).is_none());
}

#[test]
fn from_raw_rejects_long_buffer() {
    let data: Vec<u32> = vec![0; 7];
    assert!(AudioFrame::from_raw(2, 3, data).is_none());
}

#[test]
fn from_raw_accepts_empty_shapes() {
    assert!(AudioFrame::from_raw(0, 3, Vec::new()).is_some());
    assert!(AudioFrame::from_raw(3, 0, Vec::new()).is_some());
    assert!(AudioFrame::from_raw(0, 0, Vec::new()).is_some());
}

#[test]
fn from_raw_rejects_overflowing_shape() {
    let data: Vec<u32> = vec![0; 4];
    assert!(AudioFrame::from_raw(usize::MAX, 2, data).is_none());
}

#[test]
fn zeroed_frame_is_all_zero() {
    let frame = AudioFrame::zeroed(3, 4);
    assert_eq!(frame.channels(), 3);
    assert_eq!(frame.samples_per_channel(), 4);
    for c in 0..3 {
        for i in 0..4 {
            assert_eq!(frame.sample(c, i), 0);
        }
    }
    assert_eq!(frame.raw().len(), 12);
}

#[test]
fn raw_round_trip_preserves_samples() {
    let data: Vec<u32> = vec![9, 8, 7, 6];
    let frame = AudioFrame::from_raw(2, 2, data.clone()).unwrap();
    assert_eq!(frame.raw(), &data);
    assert_eq!(frame.into_raw(), data);
}

#[test]
fn float_samples_survive_the_bit_representation() {
    let samples: Vec<f32> = vec![0.0, -1.5, 0.25, 3.125e-3];
    let bits: Vec<u32> = samples.iter().map(|v| v.to_bits()).collect();
    let frame = AudioFrame::from_raw(1, 4, bits).unwrap();
    for (i, v) in samples.iter().enumerate() {
        assert_eq!(f32::from_bits(frame.sample(0, i)), *v);
    }
}
