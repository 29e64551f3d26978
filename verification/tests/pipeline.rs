use spectra::audio_transform::{stride_samples_from_period, AudioStreamTransform};
use spectra::fft::{hann_window_weights, window_size_from_period, FastFourierTransform};
use spectra::interpolated_frequency_sample::InterpolatedFrequencySample;
use spectra::ring_buffer::SampleRingBuffer;
use spectra::sample::{deinterleave_stereo, mono_to_stereo, StereoSample};
use spectra::ConfigError;

fn sample(l: f32, r: f32) -> StereoSample {
    StereoSample {
        left: l.to_bits(),
        right: r.to_bits(),
    }
}

fn silence(n: usize) -> Vec<StereoSample> {
    vec![StereoSample::silence(); n]
}

fn tone(n: usize, rate: f32, freq: f32, left_gain: f32, right_gain: f32) -> Vec<StereoSample> {
    (0..n)
        .map(|t| {
            let v = (std::f32::consts::TAU * freq * t as f32 / rate).sin();
            sample(left_gain * v, right_gain * v)
        })
        .collect()
}

fn left_magnitude(s: &InterpolatedFrequencySample, freq: f32) -> f32 {
    f32::from_bits(s.magnitude_at(freq.to_bits()).re)
}

fn right_magnitude(s: &InterpolatedFrequencySample, freq: f32) -> f32 {
    f32::from_bits(s.magnitude_at(freq.to_bits()).im)
}

#[test]
fn construction_rejects_bad_configuration() {
    assert!(matches!(
        FastFourierTransform::new(0, 64),
        Err(ConfigError::InvalidSampleRate)
    ));
    assert!(matches!(
        FastFourierTransform::new(44100, 0),
        Err(ConfigError::InvalidWindowSize)
    ));
    let fft = FastFourierTransform::new(8, 4).unwrap();
    let rb = SampleRingBuffer::new(16);
    assert!(matches!(
        AudioStreamTransform::new(rb, fft, 0),
        Err(ConfigError::InvalidStride)
    ));
}

#[test]
fn transform_reports_configuration() {
    let fft = FastFourierTransform::new(48000, 256).unwrap();
    assert_eq!(fft.sample_rate(), 48000);
    assert_eq!(fft.num_input_samples(), 256);
    assert_eq!(fft.num_output_frequencies(), 257);
}

#[test]
fn transform_needs_a_full_window() {
    let mut fft = FastFourierTransform::new(8000, 32).unwrap();
    assert!(fft.process(&silence(31)).is_none());
    let spectrum = fft.process(&silence(32)).unwrap();
    assert_eq!(spectrum.magnitudes.len(), 33);
    assert_eq!(spectrum.sample_rate, 8000);
}

#[test]
fn hann_window_matches_its_formula() {
    let n = 8usize;
    let w = hann_window_weights(n);
    assert_eq!(w.len(), n);
    for (i, bits) in w.iter().enumerate() {
        let expected = 0.5 * (1.0 - (std::f32::consts::TAU * i as f32 / n as f32).cos());
        assert_eq!(f32::from_bits(*bits), expected, "weight {}", i);
    }
    // The taper starts at zero and rises toward the middle of the window.
    assert_eq!(f32::from_bits(w[0]), 0.0);
    assert!(f32::from_bits(w[n / 2]) > 0.9);
}

#[test]
fn silence_transforms_to_silence() {
    let mut fft = FastFourierTransform::new(8000, 64).unwrap();
    let spectrum = fft.process(&silence(64)).unwrap();
    for bin in &spectrum.magnitudes {
        assert!(f32::from_bits(bin.re).abs() < 1.0e-6);
        assert!(f32::from_bits(bin.im).abs() < 1.0e-6);
    }
}

#[test]
fn sine_tone_concentrates_at_its_frequency() {
    // A pure tone with an integer number of cycles in the window shows up
    // decisively stronger at its own frequency than at twice it.
    let n = 64usize;
    let rate = 6400.0f32;
    let freq = 800.0f32; // 8 cycles per window
    let mut fft = FastFourierTransform::new(rate as u32, n).unwrap();
    let spectrum = fft.process(&tone(n, rate, freq, 1.0, 1.0)).unwrap();
    let at_tone = left_magnitude(&spectrum, freq);
    let at_double = left_magnitude(&spectrum, 2.0 * freq);
    assert!(at_tone > 0.05, "tone magnitude {}", at_tone);
    assert!(
        at_tone > 10.0 * at_double,
        "tone {} vs double {}",
        at_tone,
        at_double
    );
}

#[test]
fn stereo_channels_separate() {
    let n = 64usize;
    let rate = 6400.0f32;
    let freq = 800.0f32;
    let mut fft = FastFourierTransform::new(rate as u32, n).unwrap();

    let left_only = fft.process(&tone(n, rate, freq, 1.0, 0.0)).unwrap();
    let l = left_magnitude(&left_only, freq);
    let r = right_magnitude(&left_only, freq);
    assert!(l > 0.05, "left magnitude {}", l);
    assert!(r < l / 100.0, "left-only tone leaked {} into right of {}", r, l);

    let right_only = fft.process(&tone(n, rate, freq, 0.0, 1.0)).unwrap();
    let l2 = left_magnitude(&right_only, freq);
    let r2 = right_magnitude(&right_only, freq);
    assert!(r2 > 0.05, "right magnitude {}", r2);
    assert!(l2 < r2 / 100.0, "right-only tone leaked {} into left of {}", l2, r2);
}

#[test]
fn driver_yields_one_spectrum_per_stride() {
    // Feeding k * stride + window samples yields exactly k + 1 spectra.
    let window = 16usize;
    let stride = 4usize;
    let k = 5usize;
    let fft = FastFourierTransform::new(1600, window).unwrap();
    let rb = SampleRingBuffer::new(256);
    let mut driver = AudioStreamTransform::new(rb, fft, stride).unwrap();
    driver.push_samples(&silence(k * stride + window));
    let spectra = driver.process();
    assert_eq!(spectra.len(), k + 1);
    assert_eq!(driver.available(), window - stride);
}

#[test]
fn driver_yields_nothing_below_one_window() {
    let window = 16usize;
    let fft = FastFourierTransform::new(1600, window).unwrap();
    let rb = SampleRingBuffer::new(256);
    let mut driver = AudioStreamTransform::new(rb, fft, 4).unwrap();
    driver.push_samples(&silence(window - 1));
    assert!(driver.process().is_empty());
    // The samples stay buffered: one more completes a window.
    assert_eq!(driver.available(), window - 1);
    driver.push_samples(&silence(1));
    assert_eq!(driver.process().len(), 1);
}

#[test]
fn driver_is_restartable_across_calls() {
    let window = 16usize;
    let stride = 8usize;
    let fft = FastFourierTransform::new(1600, window).unwrap();
    let rb = SampleRingBuffer::new(256);
    let mut driver = AudioStreamTransform::new(rb, fft, stride).unwrap();
    driver.push_samples(&silence(window));
    assert_eq!(driver.process().len(), 1);
    driver.push_samples(&silence(stride));
    assert_eq!(driver.process().len(), 1);
    driver.push_samples(&silence(stride - 1));
    assert_eq!(driver.process().len(), 0);
    driver.push_samples(&silence(1));
    assert_eq!(driver.process().len(), 1);
}

#[test]
fn end_to_end_silence_scenario() {
    // Stereo capture at 44100 Hz, a window of 0.0464 seconds, a stride of
    // 128 samples, 10000 samples of silence.
    let rate = 44100u32;
    let window = (0.0464f32 * rate as f32) as usize;
    let stride = 128usize;
    let total = 10000usize;
    let fft = FastFourierTransform::new(rate, window).unwrap();
    let rb = SampleRingBuffer::new(16384);
    let mut driver = AudioStreamTransform::new(rb, fft, stride).unwrap();
    assert_eq!(driver.push_samples(&silence(total)), total);

    let spectra = driver.process();
    let expected = (total - window) / stride + 1;
    assert_eq!(spectra.len(), expected);
    assert_eq!(driver.available(), total - expected * stride);

    for spectrum in &spectra {
        assert_eq!(spectrum.sample_rate, rate);
        assert_eq!(spectrum.magnitudes.len(), window + 1);
        for bin in &spectrum.magnitudes {
            assert!(f32::from_bits(bin.re).abs() < 1.0e-6);
            assert!(f32::from_bits(bin.im).abs() < 1.0e-6);
        }
    }
}

#[test]
fn overfilled_buffer_drops_newest_and_recovers() {
    // When the producer outruns the consumer the newest samples are dropped;
    // the driver still processes what fits, without corruption.
    let window = 16usize;
    let fft = FastFourierTransform::new(1600, window).unwrap();
    let rb = SampleRingBuffer::new(24);
    let mut driver = AudioStreamTransform::new(rb, fft, 8).unwrap();
    let accepted = driver.push_samples(&silence(100));
    assert_eq!(accepted, 24);
    assert_eq!(driver.available(), 24);
    let spectra = driver.process();
    assert_eq!(spectra.len(), 2);
    assert_eq!(driver.available(), 8);
}

#[test]
fn deinterleaving_groups_frames() {
    let raw: Vec<u32> = [0.1f32, 0.2, 0.3, 0.4, 0.5, 0.6]
        .iter()
        .map(|v| v.to_bits())
        .collect();
    let frames = deinterleave_stereo(&raw);
    assert_eq!(frames, vec![sample(0.1, 0.2), sample(0.3, 0.4), sample(0.5, 0.6)]);
}

#[test]
fn mono_upmix_duplicates_the_channel() {
    let raw: Vec<u32> = [0.25f32, -0.5].iter().map(|v| v.to_bits()).collect();
    let frames = mono_to_stereo(&raw);
    assert_eq!(frames, vec![sample(0.25, 0.25), sample(-0.5, -0.5)]);
}

#[test]
fn configuration_conversions_follow_the_host_floats() {
    // Window size truncates period * rate; the stride rounds to the nearest
    // whole sample.
    assert_eq!(
        window_size_from_period(0.0464f32.to_bits(), 44100),
        (0.0464f32 * 44100.0) as usize
    );
    assert_eq!(
        stride_samples_from_period(0.0232f32.to_bits(), 44100),
        (0.0232f32 * 44100.0).round() as usize
    );
    assert_eq!(window_size_from_period(0.0f32.to_bits(), 44100), 0);
}

#[test]
fn spectra_are_never_negative() {
    // Every bin of a produced spectrum has a clear sign bit: magnitudes are
    // norms scaled by positive factors.
    let n = 64usize;
    let rate = 6400.0f32;
    let mut fft = FastFourierTransform::new(rate as u32, n).unwrap();
    let spectrum = fft.process(&tone(n, rate, 523.0, 0.7, -0.9)).unwrap();
    for bin in &spectrum.magnitudes {
        assert_eq!(bin.re & 0x8000_0000, 0);
        assert_eq!(bin.im & 0x8000_0000, 0);
        assert!(f32::from_bits(bin.re) >= 0.0);
        assert!(f32::from_bits(bin.im) >= 0.0);
    }
}
