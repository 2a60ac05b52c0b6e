use vstd::prelude::*;

use crate::pixel::Pixel;

verus! {

/// The PNG encoding of a `width x height` image given as row-major
/// RGBA bytes, as the `image` crate's PNG encoder with its default
/// settings produces it. The byte stream itself would take pages to
/// state, but it is a function of the inputs alone, so the contracts
/// speak of it only through this name.
pub uninterp spec fn png_encoding_of(width: nat, height: nat, rgba: Seq<u8>) -> Seq<u8>;

/// The row-major RGBA byte stream of a pixel sequence: four bytes per
/// pixel, red, green, blue, alpha.
pub open spec fn rgba_bytes_of(s: Seq<Pixel>) -> Seq<u8> {
    Seq::new((4 * s.len()) as nat, |i: int| s[i / 4].channel(i % 4))
}

/// Flattens a pixel buffer to its row-major RGBA byte stream.
pub fn rgba_bytes(pixels: &Vec<Pixel>) -> (r: Vec<u8>)
    ensures
        r@ == rgba_bytes_of(pixels@),
{
    let mut r: Vec<u8> = Vec::new();
    let mut i: usize = 0;
    while i < pixels.len()
        invariant
            i <= pixels@.len(),
            r@.len() == 4 * i as int,
            forall|j: int| 0 <= j < r@.len() ==> r@[j] == pixels@[j / 4].channel(j % 4),
        decreases pixels@.len() - i,
    {
        let p = pixels[i];
        r.push(p.r);
        r.push(p.g);
        r.push(p.b);
        r.push(p.a);
        proof {
            let base = 4 * (i as int);
            assert((base + 0) / 4 == i as int && (base + 0) % 4 == 0 && (base + 1) / 4
                == i as int && (base + 1) % 4 == 1 && (base + 2) / 4 == i as int && (base
                + 2) % 4 == 2 && (base + 3) / 4 == i as int && (base + 3) % 4 == 3)
                by (nonlinear_arith)
                requires
                    base == 4 * (i as int),
                    0 <= (i as int),
            ;
        }
        i = i + 1;
    }
    proof {
        assert(r@ =~= rgba_bytes_of(pixels@));
    }
    r
}

/// Relies on `image::ImageReader`: `with_guessed_format` detects the
/// image format from the leading bytes of the buffer, `decode` reads
/// the image, and `to_rgba8` yields a `width x height` buffer of RGBA
/// samples whose `pixels` iterator runs row-major from the top left,
/// one sample per coordinate. Format detection may consult a
/// process-wide hook registry, so nothing beyond the shape of the
/// result is stated; `None` comes back when the reader fails to
/// decode, e.g. on an unrecognized format, malformed bytes, or an
/// image beyond the reader's default allocation limits.
#[verifier::external_body]
pub(crate) fn decode_rgba(data: &[u8]) -> (r: Option<(u32, u32, Vec<Pixel>)>)
    ensures
        r matches Some(t) ==> t.2@.len() == t.0 as int * t.1 as int,
{
    let reader = match image::ImageReader::new(std::io::Cursor::new(data)).with_guessed_format() {
        Ok(reader) => reader,
        Err(_) => return None,
    };
    let img = match reader.decode() {
        Ok(img) => img,
        Err(_) => return None,
    };
    let buf = img.to_rgba8();
    let (w, h) = (buf.width(), buf.height());
    let pixels = buf.pixels().map(|p| Pixel::new(p.0[0], p.0[1], p.0[2], p.0[3])).collect();
    Some((w, h, pixels))
}

/// Relies on `image::write_buffer_with_format` with the PNG format: it
/// hands the RGBA byte buffer to the `image` crate's PNG encoder, which
/// writes the PNG encoding of the buffer into the in-memory writer, or
/// returns an error, e.g. on a zero width or height. The encoder
/// panics when the buffer length does not match the dimensions, so the
/// precondition keeps that input out.
#[verifier::external_body]
pub(crate) fn encode_png(width: u32, height: u32, bytes: &Vec<u8>) -> (r: Option<Vec<u8>>)
    requires
        bytes@.len() == 4 * (width as int) * (height as int),
    ensures
        r matches Some(v) ==> v@ == png_encoding_of(width as nat, height as nat, bytes@),
{
    let mut writer = std::io::Cursor::new(Vec::new());
    match image::write_buffer_with_format(
        &mut writer,
        bytes.as_slice(),
        width,
        height,
        image::ExtendedColorType::Rgba8,
        image::ImageFormat::Png,
    ) {
        Ok(()) => Some(writer.into_inner()),
        Err(_) => None,
    }
}

} // verus!
