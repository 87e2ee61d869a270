//! The engine of this service that draws pictures without a model.
use crate::asset;
use crate::digest;
use vstd::prelude::*;
use vstd::string::*;
use vstd::utf8::encode_utf8;

verus! {

/// How many pixels a side of a picture has.
pub const SIDE: u32 = 1024;

/// How many pixels a picture has.
pub const PIXELS: usize = 1048576;

// ---------------------------------------------------------------------------
// Colours
// ---------------------------------------------------------------------------

/// A part of a colour that is not too dark.
pub open spec fn lifted(part: u8) -> u8 {
    if part < 32 {
        32
    } else {
        part
    }
}

/// The colour of a prompt: the first bytes of its digest, none too dark.
pub open spec fn palette_of(prompt: Seq<char>) -> Seq<u8> {
    let digest = digest::sha256(encode_utf8(prompt));
    seq![lifted(digest[0]), lifted(digest[1]), lifted(digest[2])]
}

fn lift(part: u8) -> (result: u8)
    ensures
        result == lifted(part),
{
    if part < 32 {
        32
    } else {
        part
    }
}

/// The engine of this service that draws pictures.
#[derive(Debug)]
pub struct CanvasEngine;

impl CanvasEngine {
    /// The colour of a prompt.
    pub fn palette(prompt: &str) -> (palette: [u8; 3])
        ensures
            palette@ == palette_of(prompt@),
    {
        let digest = digest::sha256_of(prompt.as_bytes());
        let palette = [lift(digest[0]), lift(digest[1]), lift(digest[2])];
        assert(palette@ =~= palette_of(prompt@));
        palette
    }
}

/// A sum that stays in range.
pub open spec fn brighter(part: u8, by: u8) -> u8 {
    if part + by > 255 {
        255
    } else {
        (part + by) as u8
    }
}

/// A difference that stays in range.
pub open spec fn darker(part: u8, by: u8) -> u8 {
    if part < by {
        0
    } else {
        (part - by) as u8
    }
}

fn brighten(part: u8, by: u8) -> (result: u8)
    ensures
        result == brighter(part, by),
{
    match part.checked_add(by) {
        Some(sum) => sum,
        None => 255,
    }
}

fn darken(part: u8, by: u8) -> (result: u8)
    ensures
        result == darker(part, by),
{
    if part < by {
        0
    } else {
        part - by
    }
}

// ---------------------------------------------------------------------------
// Drawing from a prompt
// ---------------------------------------------------------------------------

/// A pixel of a picture that is drawn from a prompt, where a wave and a glow have
/// these values.
pub open spec fn shaded(palette: Seq<u8>, light: (u8, u8)) -> Seq<u8> {
    let (wave, glow) = light;
    seq![
        darker(brighter(palette[0], wave / 3), glow / 3),
        darker(brighter(palette[1], wave / 4), glow / 4),
        darker(brighter(palette[2], wave / 2), glow / 5),
    ]
}

/// A picture that is drawn from a prompt, pixel by pixel.
pub open spec fn composed(palette: Seq<u8>, lights: Seq<(u8, u8)>) -> Seq<u8> {
    Seq::new(3 * lights.len(), |i: int| shaded(palette, lights[i / 3])[i % 3])
}

/// Draws a picture in a colour. `lights` are the values of the wave and of the
/// glow at each pixel, row by row.
pub fn compose(palette: &[u8; 3], lights: &Vec<(u8, u8)>) -> (pixels: Vec<u8>)
    requires
        3 * lights@.len() <= usize::MAX,
    ensures
        pixels@ == composed(palette@, lights@),
{
    let mut pixels: Vec<u8> = Vec::new();
    for k in 0..lights.len()
        invariant
            pixels@ == composed(palette@, lights@.take(k as int)),
    {
        let (wave, glow): (u8, u8) = lights[k];
        let ghost before = pixels@;
        let ghost shade = shaded(palette@, lights@[k as int]);
        pixels.push(darken(brighten(palette[0], wave / 3), glow / 3));
        pixels.push(darken(brighten(palette[1], wave / 4), glow / 4));
        pixels.push(darken(brighten(palette[2], wave / 2), glow / 5));
        proof {
            let longer = composed(palette@, lights@.take(k + 1));
            assert(pixels@ =~= before.push(shade[0]).push(shade[1]).push(shade[2]));
            assert forall|i: int| 0 <= i < longer.len() implies longer[i] == pixels@[i] by {
                if i < 3 * k {
                    assert(lights@.take(k + 1)[i / 3] == lights@.take(k as int)[i / 3]);
                    assert(before[i] == longer[i]);
                } else {
                    assert(i / 3 == k && i % 3 == i - 3 * k);
                }
            }
            assert(longer =~= pixels@);
        }
    }
    assert(lights@.take(lights@.len() as int) =~= lights@);
    pixels
}

// ---------------------------------------------------------------------------
// Drawing from a picture
// ---------------------------------------------------------------------------

/// The light at a pixel of a picture.
pub open spec fn light_at(pixel: int) -> u8 {
    ((((pixel % 1024) + (pixel / 1024)) % 255) / 8) as u8
}

/// A part of a pixel, with a quarter of a colour and some light.
pub open spec fn tinted(part: u8, tint: u8, light: u8) -> u8 {
    brighter(((part * 3 + tint) / 4) as u8, light)
}

/// A picture in the colour of a prompt.
pub open spec fn retouched(pixels: Seq<u8>, palette: Seq<u8>) -> Seq<u8> {
    Seq::new(pixels.len(), |i: int| tinted(pixels[i], palette[i % 3], light_at(i / 3)))
}

fn tint_part(part: u8, tint: u8, light: u8) -> (result: u8)
    ensures
        result == tinted(part, tint, light),
{
    let mixed: u16 = (part as u16 * 3 + tint as u16) / 4;
    brighten(mixed as u8, light)
}

/// Puts a picture in a colour. The picture has 1024 pixels a row, of three bytes
/// each.
pub fn retouch(pixels: &Vec<u8>, palette: &[u8; 3]) -> (result: Vec<u8>)
    ensures
        result@ == retouched(pixels@, palette@),
{
    let mut result: Vec<u8> = Vec::new();
    for i in 0..pixels.len()
        invariant
            result@ == retouched(pixels@, palette@).take(i as int),
    {
        let pixel: usize = i / 3;
        let light: u8 = (((pixel % 1024 + pixel / 1024) % 255) / 8) as u8;
        result.push(tint_part(pixels[i], palette[i % 3], light));
    }
    result
}

// ---------------------------------------------------------------------------
// Pictures as files
// ---------------------------------------------------------------------------

/// The name given to the PNG file that the `image` crate writes for a picture of
/// given sides whose pixels have three bytes each, or to what it says where it
/// writes none.
pub uninterp spec fn encoded_png(width: u32, height: u32, pixels: Seq<u8>) -> Result<
    Seq<u8>,
    Seq<char>,
>;

/// What the encoding of a picture says.
pub open spec fn encoding(result: Result<Vec<u8>, String>) -> Result<Seq<u8>, Seq<char>> {
    match result {
        Ok(content) => Ok(content@),
        Err(cause) => Err(cause@),
    }
}

/// The name given to what the `image` crate may answer where it makes the picture
/// in some bytes fill a square: whether these pixels are among the answers. More
/// than one answer may be right for the same bytes.
pub uninterp spec fn fills_square(content: Seq<u8>, pixels: Seq<u8>) -> bool;

/// Whether bytes hold a square picture that can only be read with given pixels.
pub open spec fn reads_back(content: Seq<u8>, pixels: Seq<u8>) -> bool {
    &&& asset::decoded(content) == Ok::<(u32, u32), Seq<char>>((SIDE, SIDE))
    &&& forall|back: Seq<u8>| #[trigger] fills_square(content, back) ==> back == pixels
}

/// `image::DynamicImage::write_to` with the format PNG, on the picture that
/// `image::RgbImage::from_raw` makes of the pixels, or the text of its error. It
/// depends on the sides and the pixels alone. A square picture of 1024 pixels a
/// side reads back with its pixels: PNG loses nothing, and a picture of that size
/// is copied, not filtered.
#[verifier::external_body]
fn encode_png(width: u32, height: u32, pixels: Vec<u8>) -> (result: Result<Vec<u8>, String>)
    requires
        pixels@.len() == 3 * width * height,
    ensures
        encoding(result) == encoded_png(width, height, pixels@),
        result matches Ok(content) ==> width == SIDE && height == SIDE ==> reads_back(
            content@,
            pixels@,
        ),
{
    let picture = image::RgbImage::from_raw(width, height, pixels).unwrap_or_default();
    let mut cursor = std::io::Cursor::new(Vec::new());
    let written = image::DynamicImage::ImageRgb8(picture).write_to(&mut cursor, image::ImageFormat::Png);
    written.map_err(|cause| cause.to_string())?;
    Ok(cursor.into_inner())
}

/// Whether a picture can be made to fill a square: it has sides, and neither is
/// so much longer than the other that the filling picture has no sides of 32 bits.
pub open spec fn fillable(sides: (u32, u32)) -> bool {
    &&& sides.0 > 0 && sides.1 > 0
    &&& 1024 * sides.0 <= u32::MAX * sides.1
    &&& 1024 * sides.1 <= u32::MAX * sides.0
}

/// `image::DynamicImage::resize_to_fill` and `to_rgb8`, on the picture that
/// `image::load_from_memory` decodes: 1024 pixels a side of three bytes each, which
/// are an answer for these bytes. Which of the answers comes back is left open: the
/// filter computes with floating-point sines whose last digits are those of the
/// machine, and the decoder of JPEG has code of its own for each kind of processor.
#[verifier::external_body]
fn fill_square(content: &[u8]) -> (result: Result<Vec<u8>, String>)
    requires
        asset::decoded(content@) matches Ok(sides) ==> fillable(sides),
    ensures
        match result {
            Ok(pixels) => asset::decoded(content@) is Ok && pixels@.len() == 3 * PIXELS
                && fills_square(content@, pixels@),
            Err(cause) => asset::decoded(content@) == Err::<(u32, u32), Seq<char>>(cause@),
        },
{
    let source = image::load_from_memory(content).map_err(|cause| cause.to_string())?;
    let filled = source.resize_to_fill(1024, 1024, image::imageops::FilterType::Lanczos3);
    Ok(filled.to_rgb8().into_raw())
}

/// A square picture in the colour of a prompt, as a PNG file.
pub open spec fn drawn_over(prompt: Seq<char>, pixels: Seq<u8>) -> Result<Seq<u8>, Seq<char>> {
    encoded_png(SIDE, SIDE, retouched(pixels, palette_of(prompt)))
}

/// Whether a file, or the lack of one, is what may be drawn over the picture in
/// some bytes: its pixels, made to fill a square, in the colour of a prompt. Such a
/// file reads back as it was drawn.
pub open spec fn is_drawn_over(
    file: Result<Seq<u8>, Seq<char>>,
    prompt: Seq<char>,
    content: Seq<u8>,
) -> bool {
    exists|pixels: Seq<u8>| #[trigger]
        fills_square(content, pixels) && pixels.len() == 3 * PIXELS && file == drawn_over(
            prompt,
            pixels,
        ) && (file matches Ok(drawn) ==> reads_back(drawn, retouched(pixels, palette_of(prompt))))
}

/// Draws over the pixels of a square picture, as a PNG file: in the colour of a
/// prompt.
pub fn draw_over(prompt: &str, pixels: &Vec<u8>) -> (result: Result<Vec<u8>, String>)
    requires
        pixels@.len() == 3 * PIXELS,
    ensures
        encoding(result) == drawn_over(prompt@, pixels@),
        result matches Ok(file) ==> reads_back(
            file@,
            retouched(pixels@, palette_of(prompt@)),
        ),
{
    let palette = CanvasEngine::palette(prompt);
    let drawn = retouch(pixels, &palette);
    encode_png(SIDE, SIDE, drawn)
}

impl CanvasEngine {
    /// Draws a picture from a prompt, as a PNG file. `lights` are the values of
    /// the wave and of the glow at each pixel, row by row.
    pub fn text_to_image(prompt: &str, lights: &Vec<(u8, u8)>) -> (result: Result<Vec<u8>, String>)
        requires
            lights@.len() == PIXELS,
        ensures
            encoding(result) == encoded_png(SIDE, SIDE, composed(palette_of(prompt@), lights@)),
            result matches Ok(file) ==> reads_back(
                file@,
                composed(palette_of(prompt@), lights@),
            ),
    {
        let palette = CanvasEngine::palette(prompt);
        let pixels = compose(&palette, lights);
        encode_png(SIDE, SIDE, pixels)
    }

    /// Draws a picture from a picture, as a PNG file: in the colour of a prompt.
    /// Bytes that hold no picture are refused with what the decoder says.
    pub fn image_to_image(prompt: &str, input: &[u8]) -> (result: Result<Vec<u8>, String>)
        requires
            asset::decoded(input@) matches Ok(sides) ==> fillable(sides),
        ensures
            match asset::decoded(input@) {
                Err(cause) => encoding(result) == Err::<Seq<u8>, Seq<char>>(cause),
                Ok(_) => is_drawn_over(encoding(result), prompt@, input@),
            },
    {
        match fill_square(input) {
            Err(cause) => Err(cause),
            Ok(pixels) => draw_over(prompt, &pixels),
        }
    }

    /// Draws a picture from a picture, where it can be made to fill a square; `None`
    /// where it cannot.
    pub fn try_image_to_image(prompt: &str, input: &[u8]) -> (result: Option<
        Result<Vec<u8>, String>,
    >)
        ensures
            match asset::decoded(input@) {
                Err(cause) => result matches Some(drawn) && encoding(drawn) == Err::<
                    Seq<u8>,
                    Seq<char>,
                >(cause),
                Ok(sides) => if fillable(sides) {
                    result matches Some(drawn) && is_drawn_over(encoding(drawn), prompt@, input@)
                } else {
                    result is None
                },
            },
    {
        match asset::decode_sides(input) {
            Err(cause) => Some(Err(cause)),
            Ok(sides) => {
                let (width, height): (u32, u32) = sides;
                let largest: u64 = 4294967295;
                if width == 0 || height == 0 || 1024 * (width as u64) > largest * (height as u64)
                    || 1024 * (height as u64) > largest * (width as u64) {
                    return None;
                }
                Some(CanvasEngine::image_to_image(prompt, input))
            },
        }
    }
}

/// No part of the colour of a prompt is too dark.
pub proof fn law_colours_are_never_dark(prompt: Seq<char>, part: int)
    requires
        0 <= part < 3,
    ensures
        palette_of(prompt)[part] >= 32,
{
}

/// One prompt has one colour, and two prompts differ in colour exactly where the
/// first three bytes of their digests do once none of these is too dark.
pub proof fn law_colours_follow_the_digest(one: Seq<char>, other: Seq<char>)
    ensures
        one == other ==> palette_of(one) == palette_of(other),
        palette_of(one) == palette_of(other) <==> forall|part: int|
            0 <= part < 3 ==> lifted(#[trigger] digest::sha256(encode_utf8(one))[part]) == lifted(
                digest::sha256(encode_utf8(other))[part],
            ),
{
    let left = digest::sha256(encode_utf8(one));
    let right = digest::sha256(encode_utf8(other));
    assert(palette_of(one)[0] == lifted(left[0]) && palette_of(one)[1] == lifted(left[1])
        && palette_of(one)[2] == lifted(left[2]));
    assert(palette_of(other)[0] == lifted(right[0]) && palette_of(other)[1] == lifted(right[1])
        && palette_of(other)[2] == lifted(right[2]));
    if forall|part: int| 0 <= part < 3 ==> lifted(#[trigger] left[part]) == lifted(right[part]) {
        assert(palette_of(one) =~= palette_of(other));
    }
}

/// A picture in a colour has as many pixels as before, and one that is drawn has
/// one for each value of the light.
pub proof fn law_drawing_keeps_the_size(pixels: Seq<u8>, palette: Seq<u8>, lights: Seq<(u8, u8)>)
    ensures
        retouched(pixels, palette).len() == pixels.len(),
        composed(palette, lights).len() == 3 * lights.len(),
{
}

/// A square picture that this engine drew is drawn over as it is, pixel by pixel,
/// and needs nothing to fill the square.
pub proof fn law_drawn_pictures_are_drawn_over_as_they_are(
    content: Seq<u8>,
    pixels: Seq<u8>,
    prompt: Seq<char>,
    file: Result<Seq<u8>, Seq<char>>,
)
    requires
        reads_back(content, pixels),
        is_drawn_over(file, prompt, content),
    ensures
        asset::decoded(content) matches Ok(sides) && fillable(sides),
        file == drawn_over(prompt, pixels),
{
}

/// The colour of a prompt is that of the first bytes of its digest, of which none
/// is taken darker than 32.
pub proof fn law_colours_are_those_of_the_digest(prompt: Seq<char>, part: int)
    requires
        0 <= part < 3,
    ensures
        ({
            let byte = digest::sha256(encode_utf8(prompt))[part];
            &&& byte >= 32 ==> palette_of(prompt)[part] == byte
            &&& byte < 32 ==> palette_of(prompt)[part] == 32
        }),
        palette_of(prompt).len() == 3,
{
}

/// A drawn pixel is the colour, made brighter by its share of the wave and darker by
/// its share of the glow, and stays in range.
pub proof fn law_pixels_are_drawn_in_the_light(
    palette: Seq<u8>,
    lights: Seq<(u8, u8)>,
    pixel: int,
)
    requires
        0 <= pixel < lights.len(),
        palette.len() == 3,
    ensures
        ({
            let drawn = composed(palette, lights);
            let (wave, glow) = lights[pixel];
            let lit = |part: int, by: int| if palette[part] + by > 255 {
                255
            } else {
                palette[part] + by
            };
            let shaded = |value: int, by: int| if value < by {
                0
            } else {
                value - by
            };
            &&& drawn.len() == 3 * lights.len()
            &&& drawn[3 * pixel] == shaded(lit(0, wave as int / 3), glow as int / 3)
            &&& drawn[3 * pixel + 1] == shaded(lit(1, wave as int / 4), glow as int / 4)
            &&& drawn[3 * pixel + 2] == shaded(lit(2, wave as int / 2), glow as int / 5)
        }),
{
    assert((3 * pixel) / 3 == pixel && (3 * pixel) % 3 == 0);
    assert((3 * pixel + 1) / 3 == pixel && (3 * pixel + 1) % 3 == 1);
    assert((3 * pixel + 2) / 3 == pixel && (3 * pixel + 2) % 3 == 2);
}

/// A retouched pixel is three quarters of itself and a quarter of the colour, with
/// the light of its place, and stays in range.
pub proof fn law_pictures_keep_three_quarters(
    pixels: Seq<u8>,
    palette: Seq<u8>,
    row: int,
    column: int,
    part: int,
)
    requires
        0 <= column < 1024,
        0 <= row,
        0 <= part < 3,
        3 * (1024 * row + column) + part < pixels.len(),
    ensures
        ({
            let at = 3 * (1024 * row + column) + part;
            let mixed = (3 * pixels[at] + palette[part]) / 4;
            let light = ((column + row) % 255) / 8;
            retouched(pixels, palette)[at] == if mixed + light > 255 {
                255
            } else {
                mixed + light
            }
        }),
        retouched(pixels, palette).len() == pixels.len(),
{
    let pixel = 1024 * row + column;
    let at = 3 * pixel + part;
    assert(at / 3 == pixel && at % 3 == part);
    assert(pixel / 1024 == row && pixel % 1024 == column) by (nonlinear_arith)
        requires
            pixel == 1024 * row + column,
            0 <= column < 1024,
            0 <= row,
    ;
}

/// A picture can be made to fill the square where it has sides and neither is out of
/// all proportion to the other; any picture that is not too large has such sides.
pub proof fn law_ordinary_pictures_fill_the_square(wide: u32, high: u32)
    ensures
        fillable((wide, high)) ==> wide > 0 && high > 0,
        0 < wide <= 4194303 && 0 < high <= 4194303 ==> fillable((wide, high)),
{
}

} // verus!
