//! The resample stage's contract: one native-rate window in, one
//! model-rate window out, with the output length fixed by the rates
//! alone — for every call.

use rubato::audioadapter_buffers::owned::InterleavedOwned;
use rubato::{FixedSync, Resampler};
use wakeword::{CAPTURE_RATE, MODEL_RATE, WINDOW_SECONDS};

fn sine_window(len: usize) -> Vec<f32> {
    (0..len)
        .map(|i| (i as f32 * 2.0 * std::f32::consts::PI * 440.0 / CAPTURE_RATE as f32).sin())
        .collect()
}

#[test]
fn resampled_window_length_is_exact_on_every_call() {
    let native_len = CAPTURE_RATE * WINDOW_SECONDS;
    let model_len = MODEL_RATE * WINDOW_SECONDS;
    let mut resampler =
        rubato::Fft::<f32>::new(native_len, model_len, native_len, 1, FixedSync::Both)
            .expect("fixed-size resampler for one window per call");
    assert_eq!(resampler.input_frames_next(), native_len);
    for _ in 0..2 {
        let input = InterleavedOwned::new_from(sine_window(native_len), 1, native_len)
            .expect("one mono channel");
        let output = resampler.process(&input, None).expect("same block length every call");
        assert_eq!(output.take_data().len(), model_len);
    }
}
