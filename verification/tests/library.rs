use audio::clamp_to_i16;
use audio::compress;
use audio::AudioError;
use audio::Decoder;
use audio::DecoderConfig;
use audio::Precision;

#[test]
fn precision_strides() {
    assert_eq!(Precision::Ultralow.value(), 5000);
    assert_eq!(Precision::Low.value(), 1000);
    assert_eq!(Precision::Medium.value(), 500);
    assert_eq!(Precision::High.value(), 100);
    assert_eq!(Precision::Max.value(), 1);
}

#[test]
fn config_default_values() {
    let cfg = DecoderConfig::default();
    assert_eq!(cfg.packets_limit, 100000);
    assert_eq!(cfg.precision, Precision::Max);
}

#[test]
fn config_new_stores_values() {
    let cfg = DecoderConfig::new(42, Precision::Low);
    assert_eq!(cfg.packets_limit, 42);
    assert_eq!(cfg.precision, Precision::Low);
}

#[test]
fn decoder_new_stores_path_and_config() {
    let decoder = Decoder::new("audio.mp3", DecoderConfig::new(7, Precision::High));
    assert_eq!(decoder.file_path, "audio.mp3");
    assert_eq!(decoder.config.packets_limit, 7);
    assert_eq!(decoder.config.precision, Precision::High);
}

fn ramp(len: usize) -> Vec<i16> {
    let mut v = Vec::new();
    let mut i: usize = 0;
    while i < len {
        v.push(i as i16);
        i += 1;
    }
    v
}

#[test]
fn compress_keeps_every_nth() {
    let v = ramp(250);
    let out = compress(v, Precision::High);
    assert_eq!(out, vec![0i16, 100, 200]);
}

#[test]
fn compress_length_rounds_up() {
    assert_eq!(compress(ramp(200), Precision::High).len(), 2);
    assert_eq!(compress(ramp(201), Precision::High).len(), 3);
    assert_eq!(compress(ramp(1001), Precision::Medium), vec![0i16, 500, 1000]);
    assert_eq!(compress(ramp(1001), Precision::Low), vec![0i16, 1000]);
}

#[test]
fn compress_max_is_identity() {
    let v = vec![3i16, -7, 12000, -32768, 32767];
    assert_eq!(compress(v.clone(), Precision::Max), v);
}

#[test]
fn compress_empty_input() {
    assert_eq!(compress(Vec::new(), Precision::Ultralow), Vec::<i16>::new());
    assert_eq!(compress(Vec::new(), Precision::Max), Vec::<i16>::new());
}

#[test]
fn compress_input_shorter_than_stride() {
    let v = vec![9i16, 8, 7, 6];
    assert_eq!(compress(v, Precision::Ultralow), vec![9i16]);
}

#[test]
fn clamp_passes_the_16_bit_range_through() {
    assert_eq!(clamp_to_i16(0), 0);
    assert_eq!(clamp_to_i16(-12345), -12345);
    assert_eq!(clamp_to_i16(32767), 32767);
    assert_eq!(clamp_to_i16(-32768), -32768);
}

#[test]
fn clamp_saturates_out_of_range_values() {
    assert_eq!(clamp_to_i16(32768), 32767);
    assert_eq!(clamp_to_i16(-32769), -32768);
    assert_eq!(clamp_to_i16(i64::MAX), 32767);
    assert_eq!(clamp_to_i16(i64::MIN), -32768);
}

#[test]
fn float_samples_scale_into_the_valid_range() {
    // The scaling a driver applies to 32-bit float samples, including the
    // boundary value 1.0: every result stays in the 16-bit signed range.
    let samples: [f32; 6] = [-1.0, -0.5, 0.0, 0.25, 0.999, 1.0];
    let mut scaled = Vec::new();
    for v in samples {
        scaled.push(clamp_to_i16((v * i16::MAX as f32) as i64));
    }
    assert_eq!(scaled, vec![-32767i16, -16383, 0, 8191, 32734, 32767]);
}

#[test]
fn error_messages_name_each_failure() {
    assert_eq!(AudioError::FileNotFound.message(), "file not found");
    assert_eq!(AudioError::IoError.message(), "could not open file");
    assert_eq!(AudioError::FormatError.message(), "container could not be demuxed");
    assert_eq!(AudioError::NoAudioTrack.message(), "audio track not found");
    assert_eq!(AudioError::UnsupportedCodec.message(), "no decoder for this codec");
    assert_eq!(AudioError::DecodeError.message(), "packet failed to decode");
    assert_eq!(AudioError::UnsupportedFormat.message(), "unsupported sample format");
}

#[test]
fn error_variants_are_distinct() {
    assert_ne!(AudioError::FileNotFound, AudioError::IoError);
    assert_ne!(AudioError::FormatError, AudioError::NoAudioTrack);
    assert_ne!(AudioError::UnsupportedCodec, AudioError::DecodeError);
    assert_ne!(AudioError::DecodeError, AudioError::UnsupportedFormat);
}
