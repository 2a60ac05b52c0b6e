//! A stylization filter for raster images: every output pixel is an
//! aggregate of the colors in a square window anchored at that pixel,
//! which posterizes the image toward an oil-painting look.
//!
//! The core is the windowed mode aggregation over a pixel grid,
//! together with the clipping of windows at the right and bottom
//! edges. Decoding and encoding of image bytes go through trusted
//! wrappers around the `image` crate.

use vstd::prelude::*;

pub mod codec;
pub mod filter;
pub mod grid;
pub mod mode;
pub mod pixel;
pub mod window;

use crate::codec::decode_rgba;
use crate::codec::encode_png;
use crate::codec::png_encoding_of;
use crate::codec::rgba_bytes;
use crate::codec::rgba_bytes_of;
use crate::filter::apply_mode_filter;
use crate::filter::mode_filter_spec;
use crate::grid::Grid;

verus! {

/// The error kinds of one filter invocation. Each is unrecoverable for
/// that invocation: the caller surfaces it instead of producing a
/// partial image.
#[derive(Clone, Copy, Debug, PartialEq, Eq, Structural)]
pub enum OliError {
    /// The configuration is invalid: the window size is zero.
    Config,
    /// The input bytes are malformed or their format is unrecognized.
    Decode,
    /// The output image could not be encoded.
    Encode,
}

/// `out` is the PNG encoding of the mode-filtered rendering of the
/// well-formed source grid `g` under the given window size.
pub open spec fn stylized_output(g: Grid, window: int, out: Seq<u8>) -> bool {
    &&& g.wf()
    &&& out == png_encoding_of(
        g.width as nat,
        g.height as nat,
        rgba_bytes_of(mode_filter_spec(g, window)),
    )
}

/// `out` is the stylized rendering of some well-formed source grid:
/// what `get_oli_style` promises of its successful result, whose
/// source grid came out of the decoder and so cannot be pinned to the
/// input bytes by a contract.
pub open spec fn some_stylized_output(window: int, out: Seq<u8>) -> bool {
    exists|g: Grid| #[trigger] stylized_output(g, window, out)
}

/// The library entry point: decodes `data` into a pixel grid, replaces
/// every pixel by the dominant color of its clipped window, and
/// re-encodes the result as PNG bytes. A window size of zero is a
/// configuration error; undecodable bytes are a decode error.
pub fn get_oli_style(data: &[u8], window: u32) -> (r: Result<Vec<u8>, OliError>)
    ensures
        window == 0 <==> r == Err::<Vec<u8>, OliError>(OliError::Config),
        r matches Ok(out) ==> window >= 1 && some_stylized_output(window as int, out@),
{
    if window == 0 {
        return Err(OliError::Config);
    }
    let (w, h, pixels) = match decode_rgba(data) {
        Some(t) => t,
        None => return Err(OliError::Decode),
    };
    let g = match Grid::new(w, h, pixels) {
        Some(g) => g,
        None => return Err(OliError::Decode),
    };
    let out = apply_mode_filter(&g, window);
    let bytes = rgba_bytes(&out.pixels);
    proof {
        assert(bytes@.len() == 4 * (out.width as int) * (out.height as int))
            by (nonlinear_arith)
            requires
                bytes@.len() == 4 * out.pixels@.len(),
                out.pixels@.len() == out.width as int * out.height as int,
        ;
    }
    match encode_png(out.width, out.height, &bytes) {
        Some(v) => {
            proof {
                assert(stylized_output(g, window as int, v@));
                assert(some_stylized_output(window as int, v@));
            }
            Ok(v)
        },
        None => Err(OliError::Encode),
    }
}

} // verus!
