use minijam::sample::StereoSample;
use minijam::tones::Mix;
use minijam::tones::Operator;
use minijam::tones::OperatorKind;
use minijam::tones::Tone;
use minijam::tones::SINE_TABLE;

fn silence(len: usize) -> Vec<StereoSample> {
    vec![StereoSample { left: 0, right: 0 }; len]
}

#[test]
fn sine_purity() {
    let mut tone = Tone::new_sine(440_000, 44100);
    let mut buf = silence(44100);
    tone.fill_stereo_samples(&mut buf, Mix::Div1, &mut Operator { kind: OperatorKind::Off });
    let mut crossings = 0;
    for pair in buf.windows(2) {
        assert_eq!(pair[0].left, pair[0].right);
        if (pair[0].left >= 0) != (pair[1].left >= 0) {
            crossings += 1;
        }
    }
    assert!(crossings == 879 || crossings == 880, "crossings: {}", crossings);
}

#[test]
fn fade_in_peaks_do_not_fall() {
    let mut tone = Tone::new_sine(440_000, 44100);
    let mut buf = silence(3200);
    tone.fill_first_stereo_samples(&mut buf, Mix::Div1, &mut Operator { kind: OperatorKind::Off });
    let mut last_peak: i32 = 0;
    let mut peaks = 0;
    for chunk in buf.chunks(100) {
        let peak = chunk.iter().map(|s| (s.left as i32).abs()).max().unwrap();
        assert!(peak >= last_peak);
        last_peak = peak;
        peaks += 1;
    }
    assert_eq!(peaks, 32);
    assert!(last_peak > 32000);
}

#[test]
fn saw_samples_follow_the_phase() {
    // 440 Hz at 44100 samples per second: 2^32 * 440 / 44100 is 42852281.41.
    let mut tone = Tone::new_saw(440_000, 44100);
    let step: i64 = 42_852_281;
    for k in 0..1000i64 {
        let phase = (k * step) as i32;
        assert_eq!(tone.next_sample(), (phase >> 16) as i16);
    }
}

#[test]
fn quarter_rate_saw_wraps_round() {
    let mut tone = Tone::new_saw(11_025_000, 44100);
    let got: Vec<i16> = (0..6).map(|_| tone.next_sample()).collect();
    assert_eq!(got, vec![0, 16384, -32768, -16384, 0, 16384]);
}

#[test]
fn square_is_high_then_low() {
    let mut tone = Tone::new_square(11_025_000, 44100);
    let got: Vec<i16> = (0..5).map(|_| tone.next_sample()).collect();
    assert_eq!(got, vec![i16::MAX, i16::MAX, i16::MIN, i16::MIN, i16::MAX]);
}

#[test]
fn sine_reads_and_blends_the_table() {
    // One table entry per sample: 2^24 per step.
    let mut tone = Tone::new_sine(1_000_000, 256_000);
    for i in 0..512usize {
        assert_eq!(tone.next_sample(), SINE_TABLE[i % 256]);
    }
    // Half a table entry per sample: every other sample lies between two
    // entries.
    let mut slow = Tone::new_sine(500_000, 256_000);
    for i in 0..300usize {
        let got = slow.next_sample();
        let base = SINE_TABLE[(i / 2) % 256] as i32;
        let next = SINE_TABLE[(i / 2 + 1) % 256] as i32;
        let want = if i % 2 == 0 { base } else { (base * 128 + next * 128) >> 8 };
        assert_eq!(got as i32, want);
    }
}

#[test]
fn the_three_samplers_ignore_the_kind() {
    let mut a = Tone::new_saw(11_025_000, 44100);
    assert_eq!(a.next_sample_square(), i16::MAX);
    assert_eq!(a.next_sample_saw(), 16384);
    assert_eq!(a.next_sample_sine(), SINE_TABLE[128]);
    assert_eq!(a.next_sample_square(), i16::MIN);
}

#[test]
fn step_saturates_and_vanishes() {
    // At and above half the sample rate the step is the largest there is.
    let mut top = Tone::new_saw(22_050_000, 44100);
    assert_eq!(top.next_sample(), 0);
    assert_eq!(top.next_sample(), i16::MAX);
    let mut over = Tone::new_saw(4_000_000_000, 44100);
    over.next_sample();
    assert_eq!(over.next_sample(), i16::MAX);
    // Just below half the sample rate the step is rounded to the nearest.
    let mut below = Tone::new_saw(22_049_999, 44100);
    below.next_sample();
    assert_eq!(below.next_sample(), ((2_147_483_551i64) >> 16) as i16);
    let mut no_rate = Tone::new_saw(440_000, 0);
    no_rate.next_sample();
    assert_eq!(no_rate.next_sample(), i16::MAX);
    let mut still = Tone::new_saw(0, 44100);
    for _ in 0..10 {
        assert_eq!(still.next_sample(), 0);
    }
    let mut nothing = Tone::new_sine(0, 0);
    nothing.next_sample();
    assert_eq!(nothing.next_sample(), 0);
}

#[test]
fn fill_adds_with_wrap_on_both_channels() {
    let mut tone = Tone::new_square(1_000, 44100);
    let mut buf = vec![
        StereoSample { left: i16::MAX, right: 0 },
        StereoSample { left: 1, right: -5 },
        StereoSample { left: -32768, right: 100 },
    ];
    tone.fill_stereo_samples(&mut buf, Mix::Div1, &mut Operator { kind: OperatorKind::Off });
    assert_eq!(buf[0], StereoSample { left: -2, right: i16::MAX });
    assert_eq!(buf[1], StereoSample { left: -32768, right: 32762 });
    assert_eq!(buf[2], StereoSample { left: -1, right: -32669 });
}

#[test]
fn mix_divides_rounding_down() {
    for (mix, shift) in [(Mix::Div1, 0), (Mix::Div2, 1), (Mix::Div4, 2), (Mix::Div8, 3)] {
        let mut tone = Tone::new_square(11_025_000, 44100);
        let mut buf = silence(4);
        tone.fill_stereo_samples(&mut buf, mix, &mut Operator { kind: OperatorKind::Off });
        assert_eq!(buf[0].left, i16::MAX >> shift);
        assert_eq!(buf[1].right, i16::MAX >> shift);
        assert_eq!(buf[2].left, i16::MIN >> shift);
        assert_eq!(buf[3].right, i16::MIN >> shift);
    }
}

#[test]
fn fade_in_weights_by_chunk() {
    let mut tone = Tone::new_square(1_000, 44100);
    let mut buf = silence(64);
    tone.fill_first_stereo_samples(&mut buf, Mix::Div2, &mut Operator { kind: OperatorKind::Off });
    for (k, s) in buf.iter().enumerate() {
        let weight = (k / 2 + 1) as i32;
        let want = ((16383 * weight) >> 5) as i16;
        assert_eq!(s.left, want);
        assert_eq!(s.right, want);
    }
    assert_eq!(buf[63].left, 16383);
    assert_eq!(buf[0].left, 511);
}

#[test]
fn fade_out_weights_by_chunk() {
    let mut tone = Tone::new_square(1_000, 44100);
    let mut buf = silence(96);
    tone.fill_last_stereo_samples(&mut buf, Mix::Div1, &mut Operator { kind: OperatorKind::Off });
    for (k, s) in buf.iter().enumerate() {
        let weight = 32 - (k / 3) as i32;
        assert_eq!(s.left, ((32767 * weight) >> 5) as i16);
    }
    assert_eq!(buf[0].left, 32767);
    assert_eq!(buf[95].left, 1023);
}

#[test]
fn fade_in_of_odd_length_runs_past_full_volume() {
    // Forty samples make chunks of one sample: the weights run up to forty
    // thirty-seconds, and what leaves sixteen bits wraps round.
    let mut tone = Tone::new_square(1_000, 44100);
    let mut buf = silence(40);
    tone.fill_first_stereo_samples(&mut buf, Mix::Div1, &mut Operator { kind: OperatorKind::Off });
    assert_eq!(buf[31].left, 32767);
    assert_eq!(buf[32].left, ((32767 * 33) >> 5) as i16);
    assert_eq!(buf[39].left, ((32767 * 40) >> 5) as i16);
    let mut out = Tone::new_square(1_000, 44100);
    let mut tail = silence(40);
    out.fill_last_stereo_samples(&mut tail, Mix::Div1, &mut Operator { kind: OperatorKind::Off });
    assert_eq!(tail[32].left, 0);
    assert_eq!(tail[39].left, ((32767 * -7) >> 5) as i16);
}

#[test]
fn amplitude_lfo_scales_between_half_and_full() {
    // The slow tone is a square: high first, so the gain is 1023/1024, then
    // low, which makes it 511/1024.
    let lfo = Tone::new_square(11_025_000, 44100);
    let mut op = Operator { kind: OperatorKind::AmplitudeLfo(lfo) };
    assert_eq!(op.operate(32767), ((32767i32 * 1023) >> 10) as i16);
    assert_eq!(op.operate(-32768), ((-32768i32 * 1023) >> 10) as i16);
    assert_eq!(op.operate(32767), ((32767i32 * 511) >> 10) as i16);
    assert_eq!(op.operate(1000), ((1000i32 * 511) >> 10) as i16);
    let mut off = Operator { kind: OperatorKind::Off };
    assert_eq!(off.operate(1234), 1234);
    assert_eq!(off.operate(-1), -1);
}

#[test]
fn fill_uses_the_operator() {
    let lfo = Tone::new_square(11_025_000, 44100);
    let mut op = Operator { kind: OperatorKind::AmplitudeLfo(lfo) };
    let mut tone = Tone::new_square(1_000, 44100);
    let mut buf = silence(4);
    tone.fill_stereo_samples(&mut buf, Mix::Div1, &mut op);
    let high = ((32767i32 * 1023) >> 10) as i16;
    let low = ((32767i32 * 511) >> 10) as i16;
    assert_eq!(buf.iter().map(|s| s.left).collect::<Vec<i16>>(), vec![high, high, low, low]);
}

#[test]
fn stereo_sample_mix() {
    let mut s = StereoSample { left: 0, right: 0 };
    s.mix(100);
    s.mix(-300);
    assert_eq!(s, StereoSample { left: -200, right: -200 });
    let mut edge = StereoSample { left: i16::MIN, right: i16::MAX };
    edge.mix(-1);
    assert_eq!(edge, StereoSample { left: i16::MAX, right: 32766 });
}

#[test]
fn samples_as_little_endian_bytes() {
    assert_eq!(StereoSample { left: 0, right: 0 }.to_le_bytes(), [0, 0, 0, 0]);
    assert_eq!(StereoSample { left: 1, right: -1 }.to_le_bytes(), [1, 0, 0xFF, 0xFF]);
    assert_eq!(
        StereoSample { left: i16::MIN, right: i16::MAX }.to_le_bytes(),
        [0x00, 0x80, 0xFF, 0x7F]
    );
    assert_eq!(StereoSample { left: 0x1234, right: -2 }.to_le_bytes(), [0x34, 0x12, 0xFE, 0xFF]);
    for w in [-32768i16, -12345, -1, 0, 1, 255, 256, 32767] {
        let bytes = StereoSample { left: w, right: w }.to_le_bytes();
        assert_eq!([bytes[0], bytes[1]], w.to_le_bytes());
        assert_eq!([bytes[2], bytes[3]], w.to_le_bytes());
    }
}
