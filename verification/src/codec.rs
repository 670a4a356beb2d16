//! The pixel codec.
//!
//! A surface holds its pixels interleaved: red, green, blue and alpha of the
//! first pixel, then those of the second, each channel one word of the
//! surface's encoding. The engine takes the three colour channels of all
//! pixels in one sequence and knows nothing of alpha. [`decode`] splits a
//! surface's bytes into the colour words and the alpha words; [`encode`]
//! puts them together again.
//!
//! A word of the 32-bit encoding is a whole `u32`; a word of the 16-bit
//! encoding is held in the low 16 bits of a `u32`.

use crate::bits::bytes_of_half_word;
use crate::bits::bytes_of_word;
use crate::bits::half_word_bytes;
use crate::bits::half_word_of_bytes;
use crate::bits::lemma_bytes_of_their_half_word;
use crate::bits::lemma_bytes_of_their_word;
use crate::bits::lemma_half_word_of_its_bytes;
use crate::bits::lemma_word_of_its_bytes;
use crate::bits::read_half_word;
use crate::bits::read_word;
use crate::bits::word_bytes;
use crate::bits::word_of_bytes;
use crate::error::Error;
use crate::wgpu_integration::DenoiseTextureFormat;
use vstd::arithmetic::div_mod::lemma_fundamental_div_mod_converse;
use vstd::prelude::*;
use vstd::slice::slice_subrange;

verus! {

/// The channels of an image, split for the engine: the colour words of all
/// pixels, three to a pixel in the order red, green, blue, and the alpha
/// words, one to a pixel.
#[derive(Debug)]
pub struct ChannelBuffers {
    /// Red, green and blue of each pixel, row by row.
    pub color: Vec<u32>,
    /// Alpha of each pixel, row by row.
    pub alpha: Vec<u32>,
}

/// Channel `k` of the surface bytes `raw`, counting every channel of every
/// pixel: the word whose bytes stand at that place.
pub open spec fn channel_word(raw: Seq<u8>, format: DenoiseTextureFormat, k: int) -> u32 {
    match format {
        DenoiseTextureFormat::Rgba32Float => word_of_bytes(raw.subrange(4 * k, 4 * k + 4)),
        DenoiseTextureFormat::Rgba16Float => half_word_of_bytes(
            raw.subrange(2 * k, 2 * k + 2),
        ) as u32,
    }
}

/// The colour words of the `pixel_count` pixels in `raw`: channels 0, 1 and
/// 2 of each pixel.
pub open spec fn decoded_color(
    raw: Seq<u8>,
    format: DenoiseTextureFormat,
    pixel_count: nat,
) -> Seq<u32> {
    Seq::new(3 * pixel_count, |j: int| channel_word(raw, format, 4 * (j / 3) + j % 3))
}

/// The alpha words of the `pixel_count` pixels in `raw`: channel 3 of each
/// pixel.
pub open spec fn decoded_alpha(
    raw: Seq<u8>,
    format: DenoiseTextureFormat,
    pixel_count: nat,
) -> Seq<u32> {
    Seq::new(pixel_count, |i: int| channel_word(raw, format, 4 * i + 3))
}

/// The alpha word of pixel `pixel`: the word that `alpha` has for it, or the
/// word of the value one where `alpha` has none.
pub open spec fn alpha_or_one(alpha: Seq<u32>, format: DenoiseTextureFormat, pixel: int) -> u32 {
    if pixel < alpha.len() {
        alpha[pixel]
    } else {
        format.spec_one_word()
    }
}

/// The word that encoding writes as channel `k`, counting every channel of
/// every pixel: a colour word, or the pixel's alpha word.
pub open spec fn pixel_word(
    color: Seq<u32>,
    alpha: Seq<u32>,
    format: DenoiseTextureFormat,
    k: int,
) -> u32 {
    if k % 4 < 3 {
        color[3 * (k / 4) + k % 4]
    } else {
        alpha_or_one(alpha, format, k / 4)
    }
}

/// Byte `b` of a channel word in the surface: of a 32-bit word all four
/// bytes are written, of a 16-bit word the two bytes of its low half.
pub open spec fn word_byte(word: u32, format: DenoiseTextureFormat, b: int) -> u8 {
    match format {
        DenoiseTextureFormat::Rgba32Float => bytes_of_word(word)[b],
        DenoiseTextureFormat::Rgba16Float => bytes_of_half_word((word % 0x1_0000) as u16)[b],
    }
}

/// The surface bytes of `pixel_count` pixels with the colour words `color`
/// and the alpha words `alpha`.
pub open spec fn encoded(
    color: Seq<u32>,
    alpha: Seq<u32>,
    format: DenoiseTextureFormat,
    pixel_count: nat,
) -> Seq<u8> {
    Seq::new(
        (pixel_count * format.spec_bytes_per_pixel()) as nat,
        |j: int|
            word_byte(
                pixel_word(color, alpha, format, j / format.spec_channel_bytes()),
                format,
                j % format.spec_channel_bytes(),
            ),
    )
}

/// Whether every word fits the encoding: any word fits 32 bits, a word of
/// the 16-bit encoding is below `0x1_0000`.
pub open spec fn words_fit(words: Seq<u32>, format: DenoiseTextureFormat) -> bool {
    format == DenoiseTextureFormat::Rgba16Float ==> forall|i: int|
        0 <= i < words.len() ==> words[i] < 0x1_0000
}

/// Reads channel `k` of `raw`.
fn read_channel(raw: &[u8], format: DenoiseTextureFormat, k: usize) -> (word: u32)
    requires
        (k + 1) * format.spec_channel_bytes() <= raw@.len(),
    ensures
        word == channel_word(raw@, format, k as int),
{
    assert(raw@.len() <= usize::MAX) by {
        vstd::slice::axiom_spec_len(raw);
    }
    match format {
        DenoiseTextureFormat::Rgba32Float => {
            let at: usize = 4 * k;
            read_word(slice_subrange(raw, at, at + 4))
        },
        DenoiseTextureFormat::Rgba16Float => {
            let at: usize = 2 * k;
            read_half_word(slice_subrange(raw, at, at + 2)) as u32
        },
    }
}

/// Appends the bytes of a channel word to `out`.
fn write_channel(out: &mut Vec<u8>, format: DenoiseTextureFormat, word: u32)
    ensures
        final(out)@.len() == old(out)@.len() + format.spec_channel_bytes(),
        forall|j: int| 0 <= j < old(out)@.len() ==> final(out)@[j] == old(out)@[j],
        forall|b: int|
            0 <= b < format.spec_channel_bytes() ==> final(out)@[old(out)@.len() + b]
                == word_byte(word, format, b),
{
    match format {
        DenoiseTextureFormat::Rgba32Float => {
            let bytes: [u8; 4] = word_bytes(word);
            out.push(bytes[0]);
            out.push(bytes[1]);
            out.push(bytes[2]);
            out.push(bytes[3]);
        },
        DenoiseTextureFormat::Rgba16Float => {
            let bytes: [u8; 2] = half_word_bytes((word % 0x1_0000) as u16);
            out.push(bytes[0]);
            out.push(bytes[1]);
        },
    }
}

/// Splits the bytes of a surface of `pixel_count` pixels into colour words
/// and alpha words. Fails with `InvalidDimensions` exactly when `raw` does
/// not have the length of `pixel_count` pixels.
pub fn decode(raw: &[u8], format: DenoiseTextureFormat, pixel_count: usize) -> (r: Result<
    ChannelBuffers,
    Error,
>)
    ensures
        r.is_ok() <==> raw@.len() == pixel_count * format.spec_bytes_per_pixel(),
        r matches Ok(buffers) ==> {
            &&& buffers.color@ == decoded_color(raw@, format, pixel_count as nat)
            &&& buffers.alpha@ == decoded_alpha(raw@, format, pixel_count as nat)
        },
        r matches Err(e) ==> e == Error::InvalidDimensions,
{
    let size: usize = format.channel_bytes();
    let len: usize = raw.len();
    if len % (4 * size) != 0 || len / (4 * size) != pixel_count {
        proof {
            if len == pixel_count * (4 * size) {
                lemma_fundamental_div_mod_converse(
                    len as int,
                    4 * size as int,
                    pixel_count as int,
                    0,
                );
            }
        }
        return Err(Error::InvalidDimensions);
    }
    proof {
        vstd::arithmetic::div_mod::lemma_fundamental_div_mod(len as int, 4 * size as int);
    }
    let mut color: Vec<u32> = Vec::new();
    let mut alpha: Vec<u32> = Vec::new();
    let mut i: usize = 0;
    while i < pixel_count
        invariant
            i <= pixel_count,
            size == format.spec_channel_bytes(),
            raw@.len() == pixel_count * (4 * size),
            raw@.len() == len,
            color@.len() == 3 * i,
            alpha@.len() == i,
            forall|j: int|
                0 <= j < 3 * i ==> color@[j] == channel_word(raw@, format, 4 * (j / 3) + j % 3),
            forall|j: int| 0 <= j < i ==> alpha@[j] == channel_word(raw@, format, 4 * j + 3),
        decreases pixel_count - i,
    {
        proof {
            assert((4 * i + 4) * size <= pixel_count * (4 * size)) by (nonlinear_arith)
                requires
                    i < pixel_count,
                    size > 0,
            ;
            assert((4 * i + 1) * size <= (4 * i + 4) * size && (4 * i + 2) * size <= (4 * i + 4)
                * size && (4 * i + 3) * size <= (4 * i + 4) * size) by (nonlinear_arith)
                requires
                    size > 0,
            ;
        }
        let base: usize = 4 * i;
        color.push(read_channel(raw, format, base));
        color.push(read_channel(raw, format, base + 1));
        color.push(read_channel(raw, format, base + 2));
        alpha.push(read_channel(raw, format, base + 3));
        i += 1;
    }
    proof {
        assert(color@ =~= decoded_color(raw@, format, pixel_count as nat));
        assert(alpha@ =~= decoded_alpha(raw@, format, pixel_count as nat));
    }
    Ok(ChannelBuffers { color, alpha })
}

/// Puts colour words and alpha words together into the bytes of a surface of
/// `pixel_count` pixels. A pixel for which `alpha` has no word gets the alpha
/// value one. Fails with `InvalidDimensions` exactly when `color` does not
/// hold three words for each pixel, or the surface would have more bytes
/// than can be addressed.
pub fn encode(
    color: &[u32],
    alpha: &[u32],
    format: DenoiseTextureFormat,
    pixel_count: usize,
) -> (r: Result<Vec<u8>, Error>)
    ensures
        r.is_ok() <==> color@.len() == 3 * pixel_count && pixel_count
            * format.spec_bytes_per_pixel() <= usize::MAX,
        r matches Ok(bytes) ==> bytes@ == encoded(color@, alpha@, format, pixel_count as nat),
        r matches Err(e) ==> e == Error::InvalidDimensions,
{
    let size: usize = format.channel_bytes();
    let channels: usize = match pixel_count.checked_mul(4) {
        Some(n) => n,
        None => { return Err(Error::InvalidDimensions); },
    };
    if channels.checked_mul(size).is_none() {
        return Err(Error::InvalidDimensions);
    }
    if color.len() % 3 != 0 || color.len() / 3 != pixel_count {
        return Err(Error::InvalidDimensions);
    }
    let mut out: Vec<u8> = Vec::new();
    let mut k: usize = 0;
    while k < channels
        invariant
            k <= channels,
            channels == 4 * pixel_count,
            size == format.spec_channel_bytes(),
            color@.len() == 3 * pixel_count,
            out@.len() == k * size,
            forall|j: int|
                0 <= j < k * size ==> out@[j] == word_byte(
                    pixel_word(color@, alpha@, format, j / (size as int)),
                    format,
                    j % (size as int),
                ),
        decreases channels - k,
    {
        let pixel: usize = k / 4;
        let channel: usize = k % 4;
        let word: u32 = if channel < 3 {
            color[3 * pixel + channel]
        } else if pixel < alpha.len() {
            alpha[pixel]
        } else {
            format.one_word()
        };
        let ghost before = out@;
        write_channel(&mut out, format, word);
        proof {
            assert(k * size + size == (k + 1) * size) by (nonlinear_arith);
            assert forall|j: int| 0 <= j < (k + 1) * size implies out@[j] == word_byte(
                pixel_word(color@, alpha@, format, j / (size as int)),
                format,
                j % (size as int),
            ) by {
                if j >= k * size {
                    let b = j - k * size;
                    lemma_fundamental_div_mod_converse(
                        j,
                        size as int,
                        k as int,
                        b,
                    );
                    assert(out@[before.len() + b] == word_byte(word, format, b));
                } else {
                    assert(out@[j] == before[j]);
                }
            }
        }
        k += 1;
    }
    proof {
        assert(channels * size == pixel_count * format.spec_bytes_per_pixel()) by (nonlinear_arith)
            requires
                channels == 4 * pixel_count,
                format.spec_bytes_per_pixel() == 4 * size,
        ;
        assert(out@ =~= encoded(color@, alpha@, format, pixel_count as nat));
    }
    Ok(out)
}

/// The word that the surface keeps of a channel word: all of a 32-bit word,
/// the low half of a 16-bit one.
pub open spec fn stored_word(word: u32, format: DenoiseTextureFormat) -> u32 {
    match format {
        DenoiseTextureFormat::Rgba32Float => word,
        DenoiseTextureFormat::Rgba16Float => (word % 0x1_0000) as u32,
    }
}

/// Channel `k` of an encoded surface holds the word that encoding wrote
/// there.
pub proof fn lemma_channel_of_encoded(
    color: Seq<u32>,
    alpha: Seq<u32>,
    format: DenoiseTextureFormat,
    pixel_count: nat,
    k: int,
)
    requires
        0 <= k < 4 * pixel_count,
    ensures
        channel_word(encoded(color, alpha, format, pixel_count), format, k) == stored_word(
            pixel_word(color, alpha, format, k),
            format,
        ),
{
    let bytes = encoded(color, alpha, format, pixel_count);
    let word = pixel_word(color, alpha, format, k);
    match format {
        DenoiseTextureFormat::Rgba32Float => {
            let part = bytes.subrange(4 * k, 4 * k + 4);
            lemma_word_of_its_bytes(word);
            assert forall|b: int| 0 <= b < 4 implies part[b] == bytes_of_word(word)[b] by {
                lemma_fundamental_div_mod_converse(4 * k + b, 4, k, b);
            }
            assert(part =~= bytes_of_word(word));
        },
        DenoiseTextureFormat::Rgba16Float => {
            let part = bytes.subrange(2 * k, 2 * k + 2);
            let low = (word % 0x1_0000) as u16;
            lemma_half_word_of_its_bytes(low);
            assert forall|b: int| 0 <= b < 2 implies part[b] == bytes_of_half_word(low)[b] by {
                lemma_fundamental_div_mod_converse(2 * k + b, 2, k, b);
            }
            assert(part =~= bytes_of_half_word(low));
        },
    }
}

/// Colour word `j` is channel `4 * (j / 3) + j % 3`, and that channel is
/// colour word `j` again.
proof fn lemma_color_channel(j: int)
    requires
        0 <= j,
    ensures
        0 <= 4 * (j / 3) + j % 3,
        (4 * (j / 3) + j % 3) / 4 == j / 3,
        (4 * (j / 3) + j % 3) % 4 == j % 3,
        (4 * (j / 3) + j % 3) % 4 < 3,
        3 * (j / 3) + j % 3 == j,
{
    lemma_fundamental_div_mod_converse(4 * (j / 3) + j % 3, 4, j / 3, j % 3);
}

/// Channel `k`, where it is a colour channel, is colour word
/// `3 * (k / 4) + k % 4`, and that colour word is channel `k` again.
proof fn lemma_channel_color(k: int)
    requires
        0 <= k,
        k % 4 < 3,
    ensures
        0 <= 3 * (k / 4) + k % 4,
        (3 * (k / 4) + k % 4) / 3 == k / 4,
        (3 * (k / 4) + k % 4) % 3 == k % 4,
        4 * (k / 4) + k % 4 == k,
{
    lemma_fundamental_div_mod_converse(3 * (k / 4) + k % 4, 3, k / 4, k % 4);
}

/// The word that encoding writes as channel `k` of what was decoded from
/// `raw` is channel `k` of `raw`.
proof fn lemma_pixel_word_of_decoded(
    raw: Seq<u8>,
    format: DenoiseTextureFormat,
    pixel_count: nat,
    k: int,
)
    requires
        0 <= k < 4 * pixel_count,
    ensures
        pixel_word(
            decoded_color(raw, format, pixel_count),
            decoded_alpha(raw, format, pixel_count),
            format,
            k,
        ) == channel_word(raw, format, k),
{
    if k % 4 < 3 {
        lemma_channel_color(k);
    }
}

/// Byte `b` of the word at channel `k` of `raw` is the byte of `raw` at that
/// place.
proof fn lemma_byte_of_channel(raw: Seq<u8>, format: DenoiseTextureFormat, k: int, b: int)
    requires
        0 <= k,
        0 <= b < format.spec_channel_bytes(),
        (k + 1) * format.spec_channel_bytes() <= raw.len(),
    ensures
        word_byte(channel_word(raw, format, k), format, b) == raw[k * format.spec_channel_bytes()
            + b],
{
    match format {
        DenoiseTextureFormat::Rgba32Float => {
            let part = raw.subrange(4 * k, 4 * k + 4);
            lemma_bytes_of_their_word(part);
            assert(part[b] == raw[4 * k + b]);
        },
        DenoiseTextureFormat::Rgba16Float => {
            let part = raw.subrange(2 * k, 2 * k + 2);
            lemma_bytes_of_their_half_word(part);
            assert(part[b] == raw[2 * k + b]);
        },
    }
}

/// Decoding and then encoding gives back the surface bytes, whatever they
/// are: for every encoding, pixel count and byte buffer of that many pixels.
pub proof fn lemma_encode_decoded(raw: Seq<u8>, format: DenoiseTextureFormat, pixel_count: nat)
    requires
        raw.len() == pixel_count * format.spec_bytes_per_pixel(),
    ensures
        encoded(
            decoded_color(raw, format, pixel_count),
            decoded_alpha(raw, format, pixel_count),
            format,
            pixel_count,
        ) == raw,
{
    let color = decoded_color(raw, format, pixel_count);
    let alpha = decoded_alpha(raw, format, pixel_count);
    let again = encoded(color, alpha, format, pixel_count);
    let size = format.spec_channel_bytes();
    assert(again.len() == raw.len());
    assert forall|j: int| 0 <= j < raw.len() implies again[j] == raw[j] by {
        let k = j / size;
        let b = j % size;
        lemma_index_split(j, size, 4 * (pixel_count as int));
        lemma_pixel_word_of_decoded(raw, format, pixel_count, k);
        lemma_byte_of_channel(raw, format, k, b);
    }
    assert(again =~= raw);
}

/// An index below `size * count` splits into a part below `count` and a rest
/// below `size`.
proof fn lemma_index_split(j: int, size: int, count: int)
    requires
        size > 0,
        0 <= j < count * size,
    ensures
        0 <= j / size < count,
        0 <= j % size < size,
        j == (j / size) * size + j % size,
        (j / size + 1) * size <= count * size,
{
    vstd::arithmetic::div_mod::lemma_fundamental_div_mod(j, size);
    vstd::arithmetic::div_mod::lemma_mod_bound(j, size);
    let q = j / size;
    assert(size * q == q * size) by (nonlinear_arith);
    assert(q >= 0) by (nonlinear_arith)
        requires
            q * size + size > 0,
            size > 0,
    ;
    assert(q < count) by (nonlinear_arith)
        requires
            q * size < count * size,
            size > 0,
    ;
    assert((q + 1) * size <= count * size) by (nonlinear_arith)
        requires
            q + 1 <= count,
            size > 0,
    ;
}

/// Encoding and then decoding gives back the colour words, and for each
/// pixel its alpha word, or the word of the value one where `alpha` has
/// none: for all words that fit the encoding.
pub proof fn lemma_decode_encoded(
    color: Seq<u32>,
    alpha: Seq<u32>,
    format: DenoiseTextureFormat,
    pixel_count: nat,
)
    requires
        color.len() == 3 * pixel_count,
        words_fit(color, format),
        words_fit(alpha, format),
    ensures
        decoded_color(encoded(color, alpha, format, pixel_count), format, pixel_count) == color,
        decoded_alpha(encoded(color, alpha, format, pixel_count), format, pixel_count)
            == Seq::new(pixel_count, |i: int| alpha_or_one(alpha, format, i)),
{
    let bytes = encoded(color, alpha, format, pixel_count);
    let color_again = decoded_color(bytes, format, pixel_count);
    let alpha_again = decoded_alpha(bytes, format, pixel_count);
    assert forall|j: int| 0 <= j < color.len() implies color_again[j] == color[j] by {
        lemma_decoded_color_word(color, alpha, format, pixel_count, j);
    }
    assert(color_again =~= color);
    let alpha_filled = Seq::new(pixel_count, |i: int| alpha_or_one(alpha, format, i));
    assert forall|i: int| 0 <= i < pixel_count implies alpha_again[i] == alpha_filled[i] by {
        lemma_decoded_alpha_word(color, alpha, format, pixel_count, i);
    }
    assert(alpha_again =~= alpha_filled);
}

/// Colour word `j` of an encoded surface is the colour word that was
/// encoded, where that fits the encoding.
proof fn lemma_decoded_color_word(
    color: Seq<u32>,
    alpha: Seq<u32>,
    format: DenoiseTextureFormat,
    pixel_count: nat,
    j: int,
)
    requires
        color.len() == 3 * pixel_count,
        0 <= j < 3 * pixel_count,
        words_fit(color, format),
    ensures
        channel_word(encoded(color, alpha, format, pixel_count), format, 4 * (j / 3) + j % 3)
            == color[j],
{
    let k = 4 * (j / 3) + j % 3;
    lemma_color_channel(j);
    assert(k < 4 * pixel_count);
    lemma_channel_of_encoded(color, alpha, format, pixel_count, k);
    assert(pixel_word(color, alpha, format, k) == color[j]);
    assert(stored_word(color[j], format) == color[j]);
}

/// The alpha word of pixel `pixel` of an encoded surface is the alpha word
/// that was encoded, where that fits the encoding.
proof fn lemma_decoded_alpha_word(
    color: Seq<u32>,
    alpha: Seq<u32>,
    format: DenoiseTextureFormat,
    pixel_count: nat,
    pixel: int,
)
    requires
        0 <= pixel < pixel_count,
        words_fit(alpha, format),
    ensures
        channel_word(encoded(color, alpha, format, pixel_count), format, 4 * pixel + 3)
            == alpha_or_one(alpha, format, pixel),
{
    let k = 4 * pixel + 3;
    assert(k / 4 == pixel && k % 4 == 3);
    lemma_channel_of_encoded(color, alpha, format, pixel_count, k);
    let word = alpha_or_one(alpha, format, pixel);
    assert(pixel_word(color, alpha, format, k) == word);
    assert(stored_word(word, format) == word);
}

/// Decoded words fit the encoding that they were decoded from.
pub proof fn lemma_decoded_words_fit(raw: Seq<u8>, format: DenoiseTextureFormat, pixel_count: nat)
    ensures
        words_fit(decoded_color(raw, format, pixel_count), format),
        words_fit(decoded_alpha(raw, format, pixel_count), format),
{
}

/// Every pixel for which `alpha` has no word is encoded with the alpha value
/// one.
pub proof fn lemma_alpha_default(
    color: Seq<u32>,
    alpha: Seq<u32>,
    format: DenoiseTextureFormat,
    pixel_count: nat,
    pixel: int,
)
    requires
        alpha.len() <= pixel < pixel_count,
    ensures
        channel_word(encoded(color, alpha, format, pixel_count), format, 4 * pixel + 3)
            == format.spec_one_word(),
{
    lemma_channel_of_encoded(color, alpha, format, pixel_count, 4 * pixel + 3);
}

} // verus!
