use loudness_meter::{resampling, RateError, RateNormalizer, Resampling};
use loudness_meter::{Intake, BLOCK_LEN};

#[test]
fn native_rate_passes_through() {
    assert_eq!(resampling(48000), Ok(Resampling::PassThrough));
}

#[test]
fn rate_above_native_is_rejected() {
    assert_eq!(resampling(48001), Err(RateError::TooHigh));
    assert_eq!(resampling(96000), Err(RateError::TooHigh));
    assert_eq!(resampling(u32::MAX), Err(RateError::TooHigh));
}

#[test]
fn rate_under_ten_hz_is_rejected() {
    assert_eq!(resampling(0), Err(RateError::TooLow));
    assert_eq!(resampling(9), Err(RateError::TooLow));
}

#[test]
fn lower_rates_use_tenth_second_blocks() {
    assert_eq!(resampling(16000), Ok(Resampling::Blocks { len: 1600 }));
    assert_eq!(resampling(44100), Ok(Resampling::Blocks { len: 4410 }));
    assert_eq!(resampling(10), Ok(Resampling::Blocks { len: 1 }));
    assert_eq!(resampling(47999), Ok(Resampling::Blocks { len: 4799 }));
}

#[test]
fn block_length_rounds_down() {
    assert_eq!(resampling(11025), Ok(Resampling::Blocks { len: 1102 }));
    assert_eq!(resampling(19), Ok(Resampling::Blocks { len: 1 }));
}

#[test]
fn normalizer_rejects_high_rate() {
    assert!(matches!(RateNormalizer::<f32>::new(48001), Err(RateError::TooHigh)));
    assert!(matches!(RateNormalizer::<f32>::new(5), Err(RateError::TooLow)));
}

#[test]
fn normalizer_pass_through_is_identity() {
    let mut n = RateNormalizer::<f32>::new(48000).unwrap();
    assert_eq!(n.mode(), Resampling::PassThrough);
    for x in [0.25f32, -1.0, 0.0, 0.999, -0.5] {
        match n.accept(x) {
            Intake::Forward(y) => assert_eq!(y.to_bits(), x.to_bits()),
            other => panic!("expected the sample back, got {:?}", other),
        }
        assert_eq!(n.pending(), 0);
    }
}

#[test]
fn normalizer_withholds_partial_block() {
    let mut n = RateNormalizer::<i32>::new(16000).unwrap();
    for i in 0..1599 {
        assert!(matches!(n.accept(i), Intake::Buffered));
        assert_eq!(n.pending(), (i + 1) as usize);
    }
}

#[test]
fn normalizer_hands_out_full_blocks_in_order() {
    let mut n = RateNormalizer::<i32>::new(16000).unwrap();
    let mut blocks: Vec<Vec<i32>> = Vec::new();
    for i in 0..6400 {
        match n.accept(i) {
            Intake::Block(b) => blocks.push(b),
            Intake::Buffered => (),
            Intake::Forward(_) => panic!("no pass-through below the native rate"),
        }
    }
    assert_eq!(blocks.len(), 4);
    for (k, b) in blocks.iter().enumerate() {
        let start = (k * 1600) as i32;
        assert_eq!(b.len(), 1600);
        assert_eq!(b[0], start);
        assert_eq!(b[1599], start + 1599);
    }
    assert_eq!(n.pending(), 0);
    assert!(blocks.len() * BLOCK_LEN == 19200);
}
