//! Byte codecs the clip store relies on: standard Base64 (image previews and
//! the screenshot editor hand-off) and PNG (clipboard images are stored as
//! PNG and turned back into RGBA pixels when pasted).

use vstd::prelude::*;

verus! {

/// The character of the standard Base64 alphabet for a 6-bit value `n`:
/// `A`-`Z`, `a`-`z`, `0`-`9`, `+`, `/`.
pub open spec fn base64_char(n: int) -> char {
    if n < 26 {
        (65 + n) as char
    } else if n < 52 {
        (71 + n) as char
    } else if n < 62 {
        (n - 4) as char
    } else if n == 62 {
        '+'
    } else {
        '/'
    }
}

/// The standard (padded) Base64 encoding of `data`: each group of three
/// bytes becomes four characters of six bits each, high bits first; a final
/// group of one or two bytes is zero-filled and padded with `=` to four.
pub open spec fn spec_base64_encode(data: Seq<u8>) -> Seq<char>
    decreases data.len(),
{
    if data.len() == 0 {
        Seq::empty()
    } else if data.len() == 1 {
        let a = data[0] as int;
        seq![base64_char(a / 4), base64_char((a % 4) * 16), '=', '=']
    } else if data.len() == 2 {
        let a = data[0] as int;
        let b = data[1] as int;
        seq![base64_char(a / 4), base64_char((a % 4) * 16 + b / 16), base64_char((b % 16) * 4), '=']
    } else {
        let a = data[0] as int;
        let b = data[1] as int;
        let c = data[2] as int;
        seq![
            base64_char(a / 4),
            base64_char((a % 4) * 16 + b / 16),
            base64_char((b % 16) * 4 + c / 64),
            base64_char(c % 64),
        ] + spec_base64_encode(data.subrange(3, data.len() as int))
    }
}

/// The bytes that the standard Base64 text `input` (given as its bytes)
/// decodes to, or `None` when it is not valid standard Base64.
/// The standard decoder requires canonical padding and rejects stray bits in
/// the last character, so it accepts exactly the texts that the encoder
/// produces, and gives back the bytes they encode.
pub open spec fn spec_base64_decode(input: Seq<u8>) -> Option<Seq<u8>> {
    if exists|d: Seq<u8>| #[trigger] base64_text_bytes(d) == input {
        Some(choose|d: Seq<u8>| #[trigger] base64_text_bytes(d) == input)
    } else {
        None
    }
}

/// The bytes of the standard Base64 text of `d`.
pub open spec fn base64_text_bytes(d: Seq<u8>) -> Seq<u8> {
    vstd::utf8::encode_utf8(spec_base64_encode(d))
}

/// The PNG file that encodes a `width` x `height` RGBA8 image with the given
/// pixel bytes, or `None` when the encoder refuses it.
pub uninterp spec fn spec_png_encode_rgba8(width: u32, height: u32, pixels: Seq<u8>) -> Option<Seq<u8>>;

/// A 6-bit value's Base64 character is never the padding character `=`,
/// and distinct 6-bit values have distinct characters.
proof fn lemma_base64_char(n: int, m: int)
    requires
        0 <= n < 64,
        0 <= m < 64,
    ensures
        base64_char(n) != '=',
        base64_char(n) == base64_char(m) ==> n == m,
{
}

/// The Base64 text of `n` bytes has `4 * ceil(n / 3)` characters.
pub proof fn lemma_base64_encode_len(d: Seq<u8>)
    ensures
        spec_base64_encode(d).len() == 4 * ((d.len() + 2) / 3),
    decreases d.len(),
{
    if d.len() > 2 {
        lemma_base64_encode_len(d.subrange(3, d.len() as int));
    }
}

proof fn lemma_group3(a: u8, b: u8, c: u8, x: u8, y: u8, z: u8)
    by (bit_vector)
    requires
        a / 4 == x / 4,
        (a % 4) * 16 + b / 16 == (x % 4) * 16 + y / 16,
        (b % 16) * 4 + c / 64 == (y % 16) * 4 + z / 64,
        c % 64 == z % 64,
    ensures
        a == x && b == y && c == z,
{
}

proof fn lemma_group2(a: u8, b: u8, x: u8, y: u8)
    by (bit_vector)
    requires
        a / 4 == x / 4,
        (a % 4) * 16 + b / 16 == (x % 4) * 16 + y / 16,
        (b % 16) * 4 == (y % 16) * 4,
    ensures
        a == x && b == y,
{
}

proof fn lemma_group1(a: u8, x: u8)
    by (bit_vector)
    requires
        a / 4 == x / 4,
        (a % 4) * 16 == (x % 4) * 16,
    ensures
        a == x,
{
}

proof fn lemma_sixbit(a: u8, b: u8, c: u8)
    by (bit_vector)
    ensures
        0 <= a / 4 < 64,
        0 <= (a % 4) * 16 + b / 16 < 64,
        0 <= (b % 16) * 4 + c / 64 < 64,
        0 <= c % 64 < 64,
        0 <= (a % 4) * 16 < 64,
        0 <= (b % 16) * 4 < 64,
{
}

/// Different bytes never have the same Base64 text.
pub proof fn lemma_base64_encode_injective(d1: Seq<u8>, d2: Seq<u8>)
    requires
        spec_base64_encode(d1) == spec_base64_encode(d2),
    ensures
        d1 == d2,
    decreases d1.len(),
{
    let e = spec_base64_encode(d1);
    lemma_base64_encode_len(d1);
    lemma_base64_encode_len(d2);
    if d1.len() == 0 {
        assert(d2.len() == 0);
        assert(d1 =~= d2);
        return;
    }
    assert(d2.len() > 0);
    let a = d1[0];
    let x = d2[0];
    if d1.len() > 3 {
        assert(d2.len() > 3);
        let b = d1[1];
        let c = d1[2];
        let y = d2[1];
        let z = d2[2];
        let r1 = d1.subrange(3, d1.len() as int);
        let r2 = d2.subrange(3, d2.len() as int);
        let q1 = seq![
            base64_char(a as int / 4),
            base64_char((a as int % 4) * 16 + b as int / 16),
            base64_char((b as int % 16) * 4 + c as int / 64),
            base64_char(c as int % 64),
        ];
        let q2 = seq![
            base64_char(x as int / 4),
            base64_char((x as int % 4) * 16 + y as int / 16),
            base64_char((y as int % 16) * 4 + z as int / 64),
            base64_char(z as int % 64),
        ];
        assert(spec_base64_encode(d1) == q1 + spec_base64_encode(r1));
        assert(spec_base64_encode(d2) == q2 + spec_base64_encode(r2));
        assert((q1 + spec_base64_encode(r1)).subrange(4, e.len() as int) =~= spec_base64_encode(r1));
        assert((q2 + spec_base64_encode(r2)).subrange(4, e.len() as int) =~= spec_base64_encode(r2));
        assert(q1 =~= e.subrange(0, 4));
        assert(q2 =~= e.subrange(0, 4));
        lemma_sixbit(a, b, c);
        lemma_sixbit(x, y, z);
        lemma_base64_char(a as int / 4, x as int / 4);
        lemma_base64_char((a as int % 4) * 16 + b as int / 16, (x as int % 4) * 16 + y as int / 16);
        lemma_base64_char((b as int % 16) * 4 + c as int / 64, (y as int % 16) * 4 + z as int / 64);
        lemma_base64_char(c as int % 64, z as int % 64);
        assert(q1[0] == q2[0] && q1[1] == q2[1] && q1[2] == q2[2] && q1[3] == q2[3]);
        lemma_group3(a, b, c, x, y, z);
        lemma_base64_encode_injective(r1, r2);
        assert(d1 =~= d2) by {
            assert forall|k: int| 0 <= k < d1.len() implies d1[k] == d2[k] by {
                if k >= 3 {
                    assert(d1[k] == r1[k - 3]);
                    assert(d2[k] == r2[k - 3]);
                }
            }
        }
    } else {
        assert(d2.len() <= 3);
        if d1.len() == 1 {
            lemma_sixbit(a, 0, 0);
            lemma_sixbit(x, 0, 0);
            assert(e[2] == '=');
            if d2.len() > 1 {
                let y = d2[1];
                lemma_sixbit(x, y, 0);
                lemma_base64_char((y as int % 16) * 4, 0);
                if d2.len() == 3 {
                    let z = d2[2];
                    lemma_sixbit(x, y, z);
                    lemma_base64_char((y as int % 16) * 4 + z as int / 64, 0);
                }
                assert(false);
            }
            lemma_base64_char(a as int / 4, x as int / 4);
            lemma_base64_char((a as int % 4) * 16, (x as int % 4) * 16);
            lemma_group1(a, x);
            assert(d1 =~= d2);
        } else if d1.len() == 2 {
            let b = d1[1];
            lemma_sixbit(a, b, 0);
            lemma_base64_char((b as int % 16) * 4, 0);
            assert(e[2] != '=');
            assert(e[3] == '=');
            if d2.len() == 1 {
                assert(false);
            }
            let y = d2[1];
            lemma_sixbit(x, y, 0);
            if d2.len() == 3 {
                let z = d2[2];
                lemma_sixbit(x, y, z);
                lemma_base64_char(z as int % 64, 0);
                assert(false);
            }
            lemma_base64_char(a as int / 4, x as int / 4);
            lemma_base64_char((a as int % 4) * 16 + b as int / 16, (x as int % 4) * 16 + y as int / 16);
            lemma_base64_char((b as int % 16) * 4, (y as int % 16) * 4);
            lemma_group2(a, b, x, y);
            assert(d1 =~= d2);
        } else {
            let b = d1[1];
            let c = d1[2];
            lemma_sixbit(a, b, c);
            lemma_base64_char((b as int % 16) * 4 + c as int / 64, 0);
            lemma_base64_char(c as int % 64, 0);
            assert(d1.subrange(3, 3) =~= Seq::<u8>::empty());
            assert(e[2] != '=');
            assert(e[3] != '=');
            if d2.len() == 1 {
                assert(false);
            }
            let y = d2[1];
            if d2.len() == 2 {
                lemma_sixbit(x, y, 0);
                assert(false);
            }
            let z = d2[2];
            lemma_sixbit(x, y, z);
            assert(d2.subrange(3, 3) =~= Seq::<u8>::empty());
            lemma_base64_char(a as int / 4, x as int / 4);
            lemma_base64_char((a as int % 4) * 16 + b as int / 16, (x as int % 4) * 16 + y as int / 16);
            lemma_base64_char((b as int % 16) * 4 + c as int / 64, (y as int % 16) * 4 + z as int / 64);
            lemma_base64_char(c as int % 64, z as int % 64);
            lemma_group3(a, b, c, x, y, z);
            assert(d1 =~= d2);
        }
    }
}

/// Decoding gives back what was encoded: the Base64 text of any bytes
/// decodes to exactly those bytes.
pub proof fn lemma_base64_round_trip(d: Seq<u8>)
    ensures
        spec_base64_decode(base64_text_bytes(d)) == Some(d),
{
    let input = base64_text_bytes(d);
    assert(base64_text_bytes(d) == input);
    let d2 = choose|d2: Seq<u8>| #[trigger] base64_text_bytes(d2) == input;
    assert(base64_text_bytes(d2) == input);
    vstd::utf8::encode_utf8_decode_utf8(spec_base64_encode(d));
    vstd::utf8::encode_utf8_decode_utf8(spec_base64_encode(d2));
    lemma_base64_encode_injective(d2, d);
}

/// Whether the padded Base64 text of `n` bytes has a length that fits in
/// `usize` (the Base64 encoder panics otherwise).
pub open spec fn base64_len_fits(n: nat) -> bool {
    (n / 3) * 4 + (if n % 3 == 0 { 0int } else { 4int }) <= usize::MAX
}

/// The number of RGBA8 bytes a `width` x `height` image takes.
pub open spec fn rgba8_len(width: u32, height: u32) -> int {
    4 * width * height
}

/// Calls `base64::engine::general_purpose::STANDARD.encode`. Trusted: the
/// result is the padded standard Base64 text of `data`, as
/// `spec_base64_encode` spells it out; the length bound is the one under
/// which the encoder's buffer-size computation does not overflow.
#[verifier::external_body]
fn base64_encode_raw(data: &[u8]) -> (r: String)
    requires
        base64_len_fits(data@.len()),
    ensures
        r@ == spec_base64_encode(data@),
{
    base64::Engine::encode(&base64::engine::general_purpose::STANDARD, data)
}

/// Calls `base64::engine::general_purpose::STANDARD.decode` on the bytes of
/// `input`. Trusted: it succeeds exactly when `input` is the padded standard
/// Base64 text of some bytes, and returns those bytes (`spec_base64_decode`;
/// the engine's configuration requires canonical padding and rejects
/// trailing bits). The text of the error is the crate's own message and is
/// not stated.
#[verifier::external_body]
fn base64_decode_raw(input: &str) -> (r: Result<Vec<u8>, String>)
    ensures
        r is Ok <==> spec_base64_decode(vstd::utf8::encode_utf8(input@)) is Some,
        r matches Ok(v) ==> spec_base64_decode(vstd::utf8::encode_utf8(input@)) == Some(v@),
{
    base64::Engine::decode(&base64::engine::general_purpose::STANDARD, input).map_err(|e| e.to_string())
}

/// Calls `image::write_buffer_with_format` with the PNG format and the
/// RGBA8 color type, writing into an in-memory cursor. Trusted: the result
/// is the named encoding `spec_png_encode_rgba8` of the arguments; the
/// length requirement is the encoder's own assertion.
#[verifier::external_body]
fn png_encode_rgba8_raw(width: u32, height: u32, pixels: &[u8]) -> (r: Option<Vec<u8>>)
    requires
        pixels@.len() == rgba8_len(width, height),
    ensures
        r matches Some(v) ==> spec_png_encode_rgba8(width, height, pixels@) == Some(v@),
        r is None ==> spec_png_encode_rgba8(width, height, pixels@) is None,
{
    let mut out = std::io::Cursor::new(Vec::new());
    image::write_buffer_with_format(
        &mut out,
        pixels,
        width,
        height,
        image::ExtendedColorType::Rgba8,
        image::ImageFormat::Png,
    ).ok()?;
    Some(out.into_inner())
}

/// Calls `image::load_from_memory`, then converts the decoded image to RGBA8
/// (`to_rgba8`) and takes its dimensions and raw bytes. The outcome is not a
/// function of `data` alone: the `image` crate consults process-wide format
/// detection and decoding hooks that any code may register between calls.
/// Trusted: on success the raw bytes cover the whole image, at least
/// `4 * width * height` of them (every `ImageBuffer` holds at least that
/// many). What the pixels are, and when decoding fails, is not stated; the
/// error text is the crate's own message. The hook lookups unwrap a lock
/// and panic if another thread panicked while registering a hook.
#[verifier::external_body]
fn decode_image_rgba8_raw(data: &[u8]) -> (r: Result<(u32, u32, Vec<u8>), String>)
    ensures
        r matches Ok(t) ==> t.2@.len() >= rgba8_len(t.0, t.1),
{
    let img = image::load_from_memory(data).map_err(|e| e.to_string())?;
    let rgba = img.to_rgba8();
    let (w, h) = rgba.dimensions();
    Ok((w, h, rgba.into_raw()))
}

/// Standard Base64 text of `data`.
pub fn base64_encode(data: &[u8]) -> (r: String)
    requires
        base64_len_fits(data@.len()),
    ensures
        r@ == spec_base64_encode(data@),
{
    base64_encode_raw(data)
}

/// Decodes standard Base64 text; `Err` carries the decoder's message.
pub fn base64_decode(input: &str) -> (r: Result<Vec<u8>, String>)
    ensures
        r is Ok <==> spec_base64_decode(vstd::utf8::encode_utf8(input@)) is Some,
        r matches Ok(v) ==> spec_base64_decode(vstd::utf8::encode_utf8(input@)) == Some(v@),
{
    base64_decode_raw(input)
}

/// Whether Base64 text for `n` bytes can be produced (its length fits in
/// `usize`).
pub fn base64_encodable(n: usize) -> (b: bool)
    ensures
        b == base64_len_fits(n as nat),
{
    let n128 = n as u128;
    let rem: u128 = if n128 % 3 == 0 { 0 } else { 4 };
    (n128 / 3) * 4 + rem <= usize::MAX as u128
}

/// Encodes raw RGBA8 pixels as a PNG file. `None` when `rgba` holds fewer
/// than `4 * width * height` bytes, or when the encoder refuses the image;
/// bytes beyond the image are ignored.
pub fn encode_rgba_to_png(width: u32, height: u32, rgba: &[u8]) -> (r: Option<Vec<u8>>)
    ensures
        rgba@.len() < rgba8_len(width, height) ==> r is None,
        rgba@.len() >= rgba8_len(width, height) ==> ({
            let pixels = rgba@.take(rgba8_len(width, height));
            match r {
                Some(v) => spec_png_encode_rgba8(width, height, pixels) == Some(v@),
                None => spec_png_encode_rgba8(width, height, pixels) is None,
            }
        }),
{
    let w = width as u128;
    let h = height as u128;
    assert(w * h <= 0xffff_ffff_ffff_ffff) by (nonlinear_arith)
        requires
            w <= 0xffff_ffff,
            h <= 0xffff_ffff,
    ;
    let need: u128 = 4 * (w * h);
    assert(need == rgba8_len(width, height)) by (nonlinear_arith)
        requires
            need == 4 * (w * h),
            w == width,
            h == height,
    ;
    if need > rgba.len() as u128 {
        return None;
    }
    let n = need as usize;
    let mut pixels: Vec<u8> = Vec::with_capacity(n);
    let mut i: usize = 0;
    while i < n
        invariant
            n == rgba8_len(width, height),
            n <= rgba@.len(),
            i <= n,
            pixels@ == rgba@.take(i as int),
        decreases n - i,
    {
        pixels.push(rgba[i]);
        i = i + 1;
        assert(pixels@ =~= rgba@.take(i as int));
    }
    png_encode_rgba8_raw(width, height, pixels.as_slice())
}

/// A decoded image: its width, height and RGBA8 pixel bytes, and (in
/// proofs only) the image-file bytes it was decoded from.
pub struct RgbaPixels {
    pub width: u32,
    pub height: u32,
    pub bytes: Vec<u8>,
    pub source: Ghost<Seq<u8>>,
}

/// Decodes an image file (PNG, the format this build of the decoder reads,
/// or a format that a registered hook handles) to RGBA8 pixels; `Err`
/// carries the decoder's message. On success the bytes cover the whole
/// image, and `source` records `data` as the file that was decoded.
pub fn decode_image_rgba8(data: &[u8]) -> (r: Result<RgbaPixels, String>)
    ensures
        r matches Ok(p) ==> p.bytes@.len() >= rgba8_len(p.width, p.height) && p.source@ == data@,
{
    match decode_image_rgba8_raw(data) {
        Ok((w, h, bytes)) => Ok(RgbaPixels { width: w, height: h, bytes, source: Ghost(data@) }),
        Err(e) => Err(e),
    }
}

} // verus!
