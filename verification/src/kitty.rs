use vstd::prelude::*;

verus! {

/// Largest payload piece of one Kitty graphics escape sequence.
pub const KITTY_CHUNK: usize = 4096;

/// Character `v` (below 64) of the standard base64 alphabet: `A`-`Z`,
/// `a`-`z`, `0`-`9`, `+`, `/`.
pub open spec fn base64_char(v: int) -> char {
    if v < 26 {
        (65 + v) as char
    } else if v < 52 {
        (97 + v - 26) as char
    } else if v < 62 {
        (48 + v - 52) as char
    } else if v == 62 {
        '+'
    } else {
        '/'
    }
}

/// The padded standard base64 text of `data` (RFC 4648): each group of
/// three bytes as four characters of six bits each, most significant
/// first; a last group of one or two bytes filled with zero bits and
/// padded with `=` to four characters.
pub open spec fn base64_standard(data: Seq<u8>) -> Seq<char>
    decreases data.len(),
{
    if data.len() == 0 {
        Seq::empty()
    } else if data.len() == 1 {
        let n = data[0] as int;
        seq![base64_char(n / 4), base64_char((n % 4) * 16), '=', '=']
    } else if data.len() == 2 {
        let n = data[0] as int * 256 + data[1] as int;
        seq![base64_char(n / 1024), base64_char((n / 16) % 64), base64_char((n % 16) * 4), '=']
    } else {
        let n = data[0] as int * 65536 + data[1] as int * 256 + data[2] as int;
        seq![base64_char(n / 262144), base64_char((n / 4096) % 64), base64_char((n / 64) % 64), base64_char(n % 64)]
            + base64_standard(data.subrange(3, data.len() as int))
    }
}

/// `base64::engine::general_purpose::STANDARD.encode`: the result is the
/// padded standard encoding of `data`, four characters per started group
/// of three bytes, all ASCII. The crate panics when that length overflows
/// `usize`, which `requires` rules out.
#[verifier::external_body]
fn base64_encode(data: &[u8]) -> (r: String)
    requires
        data@.len() / 3 * 4 + 4 <= usize::MAX,
    ensures
        r@ == base64_standard(data@),
        r@.len() == 4 * ((data@.len() + 2) / 3),
        r.is_ascii(),
{
    base64::Engine::encode(&base64::engine::general_purpose::STANDARD, data)
}

/// Byte `i` of the RGBA image of packed `0x00RRGGBB` pixels (alpha 0xFF).
pub open spec fn rgba_byte(pixels: Seq<u32>, i: int) -> u8 {
    let px = pixels[i / 4];
    let c = i % 4;
    if c == 0 {
        ((px / 0x1_0000) % 0x100) as u8
    } else if c == 1 {
        ((px / 0x100) % 0x100) as u8
    } else if c == 2 {
        (px % 0x100) as u8
    } else {
        0xFF
    }
}

/// RGBA bytes of packed RGB pixels.
pub fn rgba_from_pixels(pixels: &[u32]) -> (r: Vec<u8>)
    requires
        pixels@.len() * 4 <= usize::MAX,
    ensures
        r@.len() == pixels@.len() * 4,
        forall|i: int| 0 <= i < r@.len() ==> #[trigger] r@[i] == rgba_byte(pixels@, i),
{
    let mut rgba: Vec<u8> = Vec::with_capacity(pixels.len() * 4);
    let mut k: usize = 0;
    while k < pixels.len()
        invariant
            k <= pixels@.len(),
            pixels@.len() * 4 <= usize::MAX,
            rgba@.len() == k * 4,
            forall|i: int| 0 <= i < rgba@.len() ==> #[trigger] rgba@[i] == rgba_byte(pixels@, i),
        decreases pixels@.len() - k,
    {
        let px = pixels[k];
        let r = ((px >> 16u32) & 0xFF) as u8;
        let g = ((px >> 8u32) & 0xFF) as u8;
        let b = (px & 0xFF) as u8;
        proof {
            crate::bits::lemma_u32_low(px >> 16u32);
            crate::bits::lemma_u32_low(px >> 8u32);
            crate::bits::lemma_u32_low(px);
            crate::bits::lemma_u32_shifts(px);
        }
        rgba.push(r);
        rgba.push(g);
        rgba.push(b);
        rgba.push(0xFF);
        proof {
            assert forall|i: int| 0 <= i < rgba@.len() implies #[trigger] rgba@[i] == rgba_byte(pixels@, i) by {
                if i >= k * 4 {
                    assert(i / 4 == k as int);
                }
            }
        }
        k = k + 1;
    }
    rgba
}

/// Splits ASCII text into consecutive pieces of `KITTY_CHUNK` characters
/// (the last one shorter).
pub fn split_chunks(text: &str) -> (r: Vec<String>)
    requires
        text.is_ascii(),
    ensures
        r@.len() == (text@.len() + KITTY_CHUNK - 1) / (KITTY_CHUNK as int),
        forall|j: int|
            0 <= j < r@.len() ==> #[trigger] r@[j]@ == text@.subrange(
                j * KITTY_CHUNK,
                if (j + 1) * KITTY_CHUNK <= text@.len() { (j + 1) * KITTY_CHUNK } else { text@.len() as int },
            ),
{
    let len = text.unicode_len();
    let mut out: Vec<String> = Vec::new();
    let mut start: usize = 0;
    while start < len
        invariant
            text.is_ascii(),
            len == text@.len(),
            start <= len,
            start % KITTY_CHUNK == 0,
            out@.len() == start / KITTY_CHUNK,
            forall|j: int|
                0 <= j < out@.len() ==> #[trigger] out@[j]@ == text@.subrange(
                    j * KITTY_CHUNK,
                    if (j + 1) * KITTY_CHUNK <= text@.len() { (j + 1) * KITTY_CHUNK } else { text@.len() as int },
                ),
        decreases len - start,
    {
        let end = if len - start > KITTY_CHUNK { start + KITTY_CHUNK } else { len };
        let piece = String::from_str(text.substring_ascii(start, end));
        proof {
            assert((start / KITTY_CHUNK) * KITTY_CHUNK == start);
            assert((start / KITTY_CHUNK + 1) * KITTY_CHUNK == start + KITTY_CHUNK);
        }
        out.push(piece);
        start = end;
        if end == len && len % KITTY_CHUNK != 0 {
            proof {
                assert(out@.len() == (len + KITTY_CHUNK - 1) / (KITTY_CHUNK as int));
            }
            return out;
        }
    }
    proof {
        assert(out@.len() == (len + KITTY_CHUNK - 1) / (KITTY_CHUNK as int));
    }
    out
}

/// Payload pieces of the Kitty graphics escape sequences that show
/// `pixels`: the base64 text of their RGBA bytes, cut into pieces of
/// `KITTY_CHUNK` characters.
pub fn kitty_payload(pixels: &[u32]) -> (r: Vec<String>)
    requires
        pixels@.len() * 4 <= usize::MAX,
        pixels@.len() * 4 / 3 * 4 + 4 <= usize::MAX,
    ensures
        ({
            let text = base64_standard(Seq::new(pixels@.len() * 4, |i: int| rgba_byte(pixels@, i)));
            &&& r@.len() == (text.len() + KITTY_CHUNK - 1) / (KITTY_CHUNK as int)
            &&& forall|j: int|
                0 <= j < r@.len() ==> #[trigger] r@[j]@ == text.subrange(
                    j * KITTY_CHUNK,
                    if (j + 1) * KITTY_CHUNK <= text.len() { (j + 1) * KITTY_CHUNK } else { text.len() as int },
                )
        }),
{
    let rgba = rgba_from_pixels(pixels);
    assert(rgba@ =~= Seq::new(pixels@.len() * 4, |i: int| rgba_byte(pixels@, i)));
    let encoded = base64_encode(rgba.as_slice());
    split_chunks(encoded.as_str())
}

} // verus!
