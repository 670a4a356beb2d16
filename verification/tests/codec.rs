use oidn_wgpu::codec::decode;
use oidn_wgpu::codec::encode;
use oidn_wgpu::error::Error;
use oidn_wgpu::wgpu_integration::DenoiseTextureFormat;

fn single_bytes(values: &[f32]) -> Vec<u8> {
    values.iter().flat_map(|v| v.to_le_bytes()).collect()
}

fn half_bytes(values: &[f32]) -> Vec<u8> {
    values.iter().flat_map(|v| half::f16::from_f32(*v).to_bits().to_le_bytes()).collect()
}

fn half_words(values: &[f32]) -> Vec<u32> {
    values.iter().map(|v| half::f16::from_f32(*v).to_bits() as u32).collect()
}

fn single_words(values: &[f32]) -> Vec<u32> {
    values.iter().map(|v| v.to_bits()).collect()
}

#[test]
fn decode_splits_colour_and_alpha_of_32_bit_pixels() {
    let raw = single_bytes(&[0.1, 0.2, 0.3, 1.0, 0.4, 0.5, 0.6, 0.25]);
    let buffers = decode(&raw, DenoiseTextureFormat::Rgba32Float, 2).expect("decode");
    assert_eq!(buffers.color, single_words(&[0.1, 0.2, 0.3, 0.4, 0.5, 0.6]));
    assert_eq!(buffers.alpha, single_words(&[1.0, 0.25]));
}

#[test]
fn decode_splits_colour_and_alpha_of_16_bit_pixels() {
    let raw = half_bytes(&[0.5, 1.0, 2.0, 1.0, -1.0, 0.0, 4.0, 0.5]);
    let buffers = decode(&raw, DenoiseTextureFormat::Rgba16Float, 2).expect("decode");
    assert_eq!(buffers.color, half_words(&[0.5, 1.0, 2.0, -1.0, 0.0, 4.0]));
    assert_eq!(buffers.alpha, half_words(&[1.0, 0.5]));
    assert_eq!(buffers.color[0], 0x3800);
    assert_eq!(buffers.alpha[0], 0x3c00);
}

#[test]
fn decode_reads_words_least_significant_byte_first() {
    let raw = [0x01, 0x02, 0x03, 0x04, 0x05, 0x06, 0x07, 0x08, 0x09, 0x0a, 0x0b, 0x0c, 0x0d, 0x0e, 0x0f, 0x10];
    let wide = decode(&raw, DenoiseTextureFormat::Rgba32Float, 1).expect("decode");
    assert_eq!(wide.color, vec![0x0403_0201, 0x0807_0605, 0x0c0b_0a09]);
    assert_eq!(wide.alpha, vec![0x100f_0e0d]);
    let narrow = decode(&raw, DenoiseTextureFormat::Rgba16Float, 2).expect("decode");
    assert_eq!(narrow.color, vec![0x0201, 0x0403, 0x0605, 0x0a09, 0x0c0b, 0x0e0d]);
    assert_eq!(narrow.alpha, vec![0x0807, 0x100f]);
}

#[test]
fn decode_of_no_pixels_is_empty() {
    let buffers = decode(&[], DenoiseTextureFormat::Rgba32Float, 0).expect("decode");
    assert!(buffers.color.is_empty());
    assert!(buffers.alpha.is_empty());
}

#[test]
fn decode_rejects_a_buffer_of_the_wrong_length() {
    let raw = vec![0u8; 31];
    assert!(matches!(decode(&raw, DenoiseTextureFormat::Rgba32Float, 2), Err(Error::InvalidDimensions)));
    let raw = vec![0u8; 32];
    assert!(matches!(decode(&raw, DenoiseTextureFormat::Rgba32Float, 1), Err(Error::InvalidDimensions)));
    assert!(matches!(decode(&raw, DenoiseTextureFormat::Rgba32Float, 3), Err(Error::InvalidDimensions)));
    assert!(matches!(decode(&raw, DenoiseTextureFormat::Rgba16Float, 2), Err(Error::InvalidDimensions)));
    assert!(decode(&raw, DenoiseTextureFormat::Rgba16Float, 4).is_ok());
    assert!(matches!(decode(&[], DenoiseTextureFormat::Rgba16Float, usize::MAX), Err(Error::InvalidDimensions)));
}

#[test]
fn encode_interleaves_colour_and_alpha() {
    let color = single_words(&[0.1, 0.2, 0.3, 0.4, 0.5, 0.6]);
    let alpha = single_words(&[1.0, 0.25]);
    let raw = encode(&color, &alpha, DenoiseTextureFormat::Rgba32Float, 2).expect("encode");
    assert_eq!(raw, single_bytes(&[0.1, 0.2, 0.3, 1.0, 0.4, 0.5, 0.6, 0.25]));

    let color = half_words(&[0.5, 1.0, 2.0, -1.0, 0.0, 4.0]);
    let alpha = half_words(&[1.0, 0.5]);
    let raw = encode(&color, &alpha, DenoiseTextureFormat::Rgba16Float, 2).expect("encode");
    assert_eq!(raw, half_bytes(&[0.5, 1.0, 2.0, 1.0, -1.0, 0.0, 4.0, 0.5]));
}

#[test]
fn encode_writes_words_least_significant_byte_first() {
    let raw = encode(&[0x0403_0201, 0x0807_0605, 0x0c0b_0a09], &[0x100f_0e0d], DenoiseTextureFormat::Rgba32Float, 1)
        .expect("encode");
    assert_eq!(raw, vec![0x01, 0x02, 0x03, 0x04, 0x05, 0x06, 0x07, 0x08, 0x09, 0x0a, 0x0b, 0x0c, 0x0d, 0x0e, 0x0f, 0x10]);
    let raw = encode(&[0x0201, 0x0403, 0x0605], &[0x0807], DenoiseTextureFormat::Rgba16Float, 1).expect("encode");
    assert_eq!(raw, vec![0x01, 0x02, 0x03, 0x04, 0x05, 0x06, 0x07, 0x08]);
}

#[test]
fn encode_keeps_the_low_half_of_a_16_bit_word() {
    let raw = encode(&[0xabcd_0201, 0x0001_0403, 0x0605], &[0xffff_0807], DenoiseTextureFormat::Rgba16Float, 1)
        .expect("encode");
    assert_eq!(raw, vec![0x01, 0x02, 0x03, 0x04, 0x05, 0x06, 0x07, 0x08]);
}

#[test]
fn encode_fills_missing_alpha_with_one() {
    let color = single_words(&[0.1, 0.2, 0.3, 0.4, 0.5, 0.6, 0.7, 0.8, 0.9]);
    let raw = encode(&color, &single_words(&[0.5]), DenoiseTextureFormat::Rgba32Float, 3).expect("encode");
    assert_eq!(raw, single_bytes(&[0.1, 0.2, 0.3, 0.5, 0.4, 0.5, 0.6, 1.0, 0.7, 0.8, 0.9, 1.0]));
    let raw = encode(&color, &[], DenoiseTextureFormat::Rgba32Float, 3).expect("encode");
    assert_eq!(raw, single_bytes(&[0.1, 0.2, 0.3, 1.0, 0.4, 0.5, 0.6, 1.0, 0.7, 0.8, 0.9, 1.0]));

    let color = half_words(&[0.5, 0.25, 2.0, 4.0, 8.0, 16.0]);
    let raw = encode(&color, &half_words(&[0.5]), DenoiseTextureFormat::Rgba16Float, 2).expect("encode");
    assert_eq!(raw, half_bytes(&[0.5, 0.25, 2.0, 0.5, 4.0, 8.0, 16.0, 1.0]));
    assert_eq!(&raw[14..16], &[0x00, 0x3c]);
}

#[test]
fn encode_ignores_alpha_beyond_the_pixels() {
    let color = single_words(&[0.1, 0.2, 0.3]);
    let raw = encode(&color, &single_words(&[0.5, 0.75]), DenoiseTextureFormat::Rgba32Float, 1).expect("encode");
    assert_eq!(raw, single_bytes(&[0.1, 0.2, 0.3, 0.5]));
}

#[test]
fn encode_rejects_colour_of_the_wrong_length() {
    let color = single_words(&[0.1, 0.2, 0.3, 0.4]);
    assert!(matches!(encode(&color, &[], DenoiseTextureFormat::Rgba32Float, 1), Err(Error::InvalidDimensions)));
    assert!(matches!(encode(&color, &[], DenoiseTextureFormat::Rgba32Float, 2), Err(Error::InvalidDimensions)));
    assert!(matches!(encode(&[], &[], DenoiseTextureFormat::Rgba16Float, 1), Err(Error::InvalidDimensions)));
    assert!(matches!(encode(&[], &[], DenoiseTextureFormat::Rgba16Float, usize::MAX), Err(Error::InvalidDimensions)));
    assert_eq!(encode(&[], &[], DenoiseTextureFormat::Rgba16Float, 0).expect("encode"), Vec::<u8>::new());
}

#[test]
fn decode_then_encode_gives_back_32_bit_bytes() {
    let values = [0.0f32, 1.0, 0.5, -2.5, f32::INFINITY, f32::NEG_INFINITY, -0.0, 65504.0, 1.0e-40, f32::MAX, f32::MIN_POSITIVE, 3.0];
    let raw = single_bytes(&values);
    let buffers = decode(&raw, DenoiseTextureFormat::Rgba32Float, 3).expect("decode");
    let again = encode(&buffers.color, &buffers.alpha, DenoiseTextureFormat::Rgba32Float, 3).expect("encode");
    assert_eq!(again, raw);
}

#[test]
fn decode_then_encode_gives_back_16_bit_bytes() {
    let values = [0.0f32, 1.0, 0.5, -2.5, f32::INFINITY, f32::NEG_INFINITY, -0.0, 65504.0];
    let raw = half_bytes(&values);
    let buffers = decode(&raw, DenoiseTextureFormat::Rgba16Float, 2).expect("decode");
    let again = encode(&buffers.color, &buffers.alpha, DenoiseTextureFormat::Rgba16Float, 2).expect("encode");
    assert_eq!(again, raw);
}

#[test]
fn exact_halves_survive_widening_and_narrowing() {
    let values = [0.0f32, 1.0, 0.5, -2.5, f32::INFINITY, f32::NEG_INFINITY, -0.0, 65504.0, 6.1035156e-5, 5.9604645e-8];
    let mut padded = values.to_vec();
    padded.extend([1.0, 1.0]);
    let raw = half_bytes(&padded);
    let buffers = decode(&raw, DenoiseTextureFormat::Rgba16Float, 3).expect("decode");
    // the numbers that the engine is given, and the words that come back from it
    let widen = |words: &[u32]| -> Vec<f32> { words.iter().map(|&w| half::f16::from_bits(w as u16).to_f32()).collect() };
    let color = widen(&buffers.color);
    let alpha = widen(&buffers.alpha);
    assert_eq!(&color[..3], &[0.0, 1.0, 0.5]);
    assert_eq!(color[3], f32::INFINITY);
    assert_eq!(alpha, vec![-2.5, 65504.0, 1.0]);
    let again = encode(&half_words(&color), &half_words(&alpha), DenoiseTextureFormat::Rgba16Float, 3).expect("encode");
    assert_eq!(again, raw);
}

#[test]
fn decode_then_encode_gives_back_any_bytes() {
    let raw: Vec<u8> = (0..480u32).map(|i| (i * 37 % 256) as u8).collect();
    for (format, pixels) in [(DenoiseTextureFormat::Rgba32Float, 30), (DenoiseTextureFormat::Rgba16Float, 60)] {
        let buffers = decode(&raw, format, pixels).expect("decode");
        let again = encode(&buffers.color, &buffers.alpha, format, pixels).expect("encode");
        assert_eq!(again, raw);
    }
}

#[test]
fn encode_then_decode_gives_back_the_words() {
    let color = half_words(&[0.5, 0.25, 2.0, 4.0, 8.0, 16.0]);
    let raw = encode(&color, &half_words(&[0.5]), DenoiseTextureFormat::Rgba16Float, 2).expect("encode");
    let buffers = decode(&raw, DenoiseTextureFormat::Rgba16Float, 2).expect("decode");
    assert_eq!(buffers.color, color);
    assert_eq!(buffers.alpha, half_words(&[0.5, 1.0]));
}

#[test]
fn the_word_of_one_is_the_float_one() {
    assert_eq!(DenoiseTextureFormat::Rgba32Float.one_word(), 1.0f32.to_bits());
    assert_eq!(DenoiseTextureFormat::Rgba16Float.one_word(), half::f16::from_f32(1.0).to_bits() as u32);
    assert_eq!(DenoiseTextureFormat::Rgba32Float.bytes_per_pixel(), 16);
    assert_eq!(DenoiseTextureFormat::Rgba16Float.bytes_per_pixel(), 8);
    assert_eq!(DenoiseTextureFormat::Rgba32Float.channel_bytes(), 4);
    assert_eq!(DenoiseTextureFormat::Rgba16Float.channel_bytes(), 2);
}

#[test]
fn from_wgpu_knows_the_two_encodings() {
    assert_eq!(DenoiseTextureFormat::from_wgpu(wgpu::TextureFormat::Rgba32Float), Some(DenoiseTextureFormat::Rgba32Float));
    assert_eq!(DenoiseTextureFormat::from_wgpu(wgpu::TextureFormat::Rgba16Float), Some(DenoiseTextureFormat::Rgba16Float));
    assert_eq!(DenoiseTextureFormat::from_wgpu(wgpu::TextureFormat::Rgba8Unorm), None);
    assert_eq!(DenoiseTextureFormat::from_wgpu(wgpu::TextureFormat::R32Float), None);
}
