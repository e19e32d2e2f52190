use vstd::prelude::*;

verus! {

/// ASCII `0`; the digit `d` is `ASCII_ZERO + d`.
pub const ASCII_ZERO: u8 = 48;

/// ASCII `-`.
pub const ASCII_MINUS: u8 = 45;

/// ASCII space, between the numbers of a line.
pub const ASCII_SPACE: u8 = 32;

/// ASCII line feed, after each line.
pub const ASCII_NEWLINE: u8 = 10;

/// ASCII `P`, the first byte of the magic number `P3`.
pub const ASCII_P: u8 = 80;

/// The format number after `P`: plain (text) RGB.
pub const PLAIN_RGB: u64 = 3;

/// The largest channel value, written in the header.
pub const MAX_CHANNEL: u64 = 255;

/// The decimal digits of `n`, most significant first, as ASCII bytes; no
/// leading zeros, and `0` is the single digit `"0"`.
pub open spec fn digits(n: nat) -> Seq<u8>
    decreases n,
{
    if n < 10 {
        seq![(ASCII_ZERO + n) as u8]
    } else {
        digits(n / 10) + seq![(ASCII_ZERO + n % 10) as u8]
    }
}

/// `n` written in decimal, with a leading `-` when it is negative.
pub open spec fn decimal(n: int) -> Seq<u8> {
    if n < 0 {
        seq![ASCII_MINUS] + digits((-n) as nat)
    } else {
        digits(n as nat)
    }
}

/// Each channel of the pixel lies in `0 ..= 255`.
pub open spec fn channels_fit(rgb: (u32, u32, u32)) -> bool {
    rgb.0 <= MAX_CHANNEL && rgb.1 <= MAX_CHANNEL && rgb.2 <= MAX_CHANNEL
}

/// One pixel as plain-PPM text: `"r g b"`.
pub open spec fn pixel_text(rgb: (u32, u32, u32)) -> Seq<u8> {
    decimal(rgb.0 as int) + seq![ASCII_SPACE] + decimal(rgb.1 as int) + seq![ASCII_SPACE] + decimal(rgb.2 as int)
}

/// The plain-PPM header: `"P3\n<width> <height>\n255\n"`.
pub open spec fn header_text(width: int, height: int) -> Seq<u8> {
    seq![ASCII_P] + digits(PLAIN_RGB as nat) + seq![ASCII_NEWLINE] + decimal(width) + seq![ASCII_SPACE]
        + decimal(height) + seq![ASCII_NEWLINE] + digits(MAX_CHANNEL as nat) + seq![ASCII_NEWLINE]
}

/// One line `"r g b\n"` per pixel, in the order given.
pub open spec fn body_text(pixels: Seq<(u32, u32, u32)>) -> Seq<u8>
    decreases pixels.len(),
{
    if pixels.len() == 0 {
        seq![]
    } else {
        body_text(pixels.drop_last()) + pixel_text(pixels.last()) + seq![ASCII_NEWLINE]
    }
}

/// A whole plain-PPM image: the header, then the pixel lines.
pub open spec fn ppm_text(pixels: Seq<(u32, u32, u32)>, width: int, height: int) -> Seq<u8> {
    header_text(width, height) + body_text(pixels)
}

/// Appends the decimal digits of `n`.
fn push_digits(out: &mut Vec<u8>, n: u64)
    ensures
        final(out)@ == old(out)@ + digits(n as nat),
    decreases n,
{
    if n >= 10 {
        push_digits(out, n / 10);
    }
    out.push(ASCII_ZERO + (n % 10) as u8);
    proof {
        if n < 10 {
            assert(n % 10 == n);
        }
        assert(final(out)@ =~= old(out)@ + digits(n as nat));
    }
}

/// Appends `n` in decimal, signed.
fn push_decimal(out: &mut Vec<u8>, n: i64)
    ensures
        final(out)@ == old(out)@ + decimal(n as int),
{
    if n < 0 {
        out.push(ASCII_MINUS);
        let magnitude: u64 = (-(n + 1)) as u64 + 1;
        push_digits(out, magnitude);
        assert(final(out)@ =~= old(out)@ + decimal(n as int));
    } else {
        push_digits(out, n as u64);
    }
}

/// Appends a pixel as `"r g b"`.
fn push_pixel(out: &mut Vec<u8>, rgb: (u32, u32, u32))
    ensures
        final(out)@ == old(out)@ + pixel_text(rgb),
{
    push_decimal(out, rgb.0 as i64);
    out.push(ASCII_SPACE);
    push_decimal(out, rgb.1 as i64);
    out.push(ASCII_SPACE);
    push_decimal(out, rgb.2 as i64);
    assert(final(out)@ =~= old(out)@ + pixel_text(rgb));
}

/// A pixel's three 8-bit channels as the text `"r g b"`.
pub fn format_pixel(rgb: (u32, u32, u32)) -> (text: Vec<u8>)
    requires
        channels_fit(rgb),
    ensures
        text@ == pixel_text(rgb),
{
    let mut text: Vec<u8> = Vec::new();
    push_pixel(&mut text, rgb);
    assert(text@ =~= pixel_text(rgb));
    text
}

/// The plain-PPM encoding of an image: the header `P3`, `<width> <height>`,
/// `255`, then one `r g b` line per pixel in the order given.
pub fn encode_ppm(pixel_colors: &Vec<(u32, u32, u32)>, image_width: i32, image_height: i32) -> (text:
    Vec<u8>)
    requires
        forall|k: int| 0 <= k < pixel_colors@.len() ==> channels_fit(#[trigger] pixel_colors@[k]),
    ensures
        text@ == ppm_text(pixel_colors@, image_width as int, image_height as int),
{
    let mut text: Vec<u8> = Vec::new();
    text.push(ASCII_P);
    push_digits(&mut text, PLAIN_RGB);
    text.push(ASCII_NEWLINE);
    push_decimal(&mut text, image_width as i64);
    text.push(ASCII_SPACE);
    push_decimal(&mut text, image_height as i64);
    text.push(ASCII_NEWLINE);
    push_digits(&mut text, MAX_CHANNEL);
    text.push(ASCII_NEWLINE);
    let ghost header = header_text(image_width as int, image_height as int);
    assert(text@ =~= header);
    assert(pixel_colors@.subrange(0, 0) =~= Seq::<(u32, u32, u32)>::empty());
    let mut i: usize = 0;
    while i < pixel_colors.len()
        invariant
            0 <= i <= pixel_colors@.len(),
            header == header_text(image_width as int, image_height as int),
            text@ == header + body_text(pixel_colors@.subrange(0, i as int)),
        decreases pixel_colors@.len() - i,
    {
        push_pixel(&mut text, pixel_colors[i]);
        text.push(ASCII_NEWLINE);
        proof {
            let done = pixel_colors@.subrange(0, i + 1);
            assert(done.drop_last() =~= pixel_colors@.subrange(0, i as int));
            assert(done.last() == pixel_colors@[i as int]);
            assert(text@ =~= header + body_text(done));
        }
        i = i + 1;
    }
    assert(pixel_colors@.subrange(0, pixel_colors@.len() as int) =~= pixel_colors@);
    text
}

} // verus!
