//! Icon pixel buffers and their transport encoding.
//!
//! The unverified shell copies a window icon out of the operating system as a
//! 32-bit blue-green-red-alpha buffer.  This module checks the buffer against
//! its declared dimensions, reorders it to red-green-blue-alpha, and encodes
//! it for transport: raw bytes in standard base64, or a PNG image in base64.

use vstd::prelude::*;

use crate::WinError;

verus! {

/// A decoded icon: a row-major RGBA8 pixel buffer and its dimensions.
#[derive(Clone, Debug)]
pub struct IconImage {
    pub width: u32,
    pub height: u32,
    pub rgba: Vec<u8>,
}

impl IconImage {
    /// A well-formed icon has a non-degenerate size and exactly four bytes
    /// per pixel.
    pub open spec fn wf(self) -> bool {
        &&& self.width > 0
        &&& self.height > 0
        &&& self.rgba@.len() == self.width * self.height * 4
    }
}

/// The buffer with the blue and red channel of each pixel exchanged.
pub open spec fn spec_swap_channels(b: Seq<u8>) -> Seq<u8> {
    Seq::new(
        b.len(),
        |i: int|
            if i % 4 == 0 {
                b[i + 2]
            } else if i % 4 == 2 {
                b[i - 2]
            } else {
                b[i]
            },
    )
}

/// Builds an icon from a bitmap copied out of the operating system:
/// validates the buffer length against the dimensions and swaps the native
/// blue-green-red-alpha byte order to red-green-blue-alpha.  A zero-sized
/// bitmap or a buffer that does not match its dimensions is refused.
pub fn icon_from_bgra(width: u32, height: u32, bgra: Vec<u8>) -> (r: Result<IconImage, WinError>)
    ensures
        r is Ok <==> (width > 0 && height > 0 && bgra@.len() == width * height * 4),
        r is Ok ==> (r->Ok_0.width == width && r->Ok_0.height == height && r->Ok_0.rgba@
            == spec_swap_channels(bgra@) && r->Ok_0.wf()),
        r is Err ==> r->Err_0 == WinError::IconError,
{
    proof {
        assert((width as int) * (height as int) * 4 <= 0xffff_ffff * 0xffff_ffff * 4)
            by (nonlinear_arith)
            requires
                0 <= width as int <= 0xffff_ffff,
                0 <= height as int <= 0xffff_ffff,
        ;
    }
    let expected: u128 = (width as u128) * (height as u128) * 4;
    if width == 0 || height == 0 || (bgra.len() as u128) != expected {
        return Err(WinError::IconError);
    }
    let mut px = bgra;
    let ghost orig: Seq<u8> = px@;
    let n = px.len();
    proof {
        assert(n as int == (width as int * height as int) * 4);
        vstd::arithmetic::div_mod::lemma_mod_multiples_basic(width as int * height as int, 4);
        vstd::arithmetic::div_mod::lemma_fundamental_div_mod(n as int, 4);
    }
    let quads = n / 4;
    for j in 0..quads
        invariant
            n == px@.len(),
            n == orig.len(),
            quads == n as int / 4,
            4 * quads == n,
            forall|i: int| #![trigger px@[i]]
                0 <= i < n ==> px@[i] == (if i < 4 * j {
                    spec_swap_channels(orig)[i]
                } else {
                    orig[i]
                }),
    {
        let ghost before: Seq<u8> = px@;
        let lo: usize = 4 * j;
        let b = px[lo];
        let r = px[lo + 2];
        px[lo] = r;
        px[lo + 2] = b;
        proof {
            let l = 4 * j as int;
            assert(px@ =~= before.update(l, before[l + 2]).update(l + 2, before[l]));
            assert(spec_swap_channels(orig)[l] == orig[l + 2]) by {
                assert(l % 4 == 0);
            }
            assert(spec_swap_channels(orig)[l + 2] == orig[l]) by {
                assert((l + 2) % 4 == 2);
            }
            assert forall|i: int| 0 <= i < n implies px@[i] == (if i < l + 4 {
                spec_swap_channels(orig)[i]
            } else {
                orig[i]
            }) by {
                if i == l {
                    assert(px@[i] == before[l + 2]);
                    assert(before[l + 2] == orig[l + 2]);
                } else if i == l + 2 {
                    assert(px@[i] == before[l]);
                    assert(before[l] == orig[l]);
                } else {
                    assert(px@[i] == before[i]);
                    if i < l {
                        assert(before[i] == spec_swap_channels(orig)[i]);
                    } else if i == l + 1 {
                        assert((l + 1) % 4 == 1);
                        assert(spec_swap_channels(orig)[i] == orig[i]);
                        assert(before[i] == orig[i]);
                    } else if i == l + 3 {
                        assert((l + 3) % 4 == 3);
                        assert(spec_swap_channels(orig)[i] == orig[i]);
                        assert(before[i] == orig[i]);
                    } else {
                        assert(before[i] == orig[i]);
                    }
                }
            }
        }
    }
    proof {
        assert(px@ =~= spec_swap_channels(orig));
    }
    Ok(IconImage { width, height, rgba: px })
}

/// The alphabet of standard base64, in value order.
pub const B64_CHARS: [char; 64] = ['A', 'B', 'C', 'D', 'E', 'F', 'G', 'H', 'I', 'J', 'K', 'L', 'M',
    'N', 'O', 'P', 'Q', 'R', 'S', 'T', 'U', 'V', 'W', 'X', 'Y', 'Z', 'a', 'b', 'c', 'd', 'e', 'f',
    'g', 'h', 'i', 'j', 'k', 'l', 'm', 'n', 'o', 'p', 'q', 'r', 's', 't', 'u', 'v', 'w', 'x', 'y',
    'z', '0', '1', '2', '3', '4', '5', '6', '7', '8', '9', '+', '/'];

/// The standard, padded base64 encoding of a byte sequence: each group of
/// three bytes becomes four alphabet characters, and a final group of one or
/// two bytes is padded with `=`.
pub open spec fn spec_base64(bs: Seq<u8>) -> Seq<char>
    decreases bs.len(),
{
    if bs.len() == 0 {
        Seq::<char>::empty()
    } else if bs.len() == 1 {
        let b0 = bs[0];
        seq![
            B64_CHARS@[(b0 >> 2) as int],
            B64_CHARS@[((b0 & 3) << 4) as int],
            '=',
            '=',
        ]
    } else if bs.len() == 2 {
        let b0 = bs[0];
        let b1 = bs[1];
        seq![
            B64_CHARS@[(b0 >> 2) as int],
            B64_CHARS@[(((b0 & 3) << 4) | (b1 >> 4)) as int],
            B64_CHARS@[((b1 & 0xf) << 2) as int],
            '=',
        ]
    } else {
        let b0 = bs[0];
        let b1 = bs[1];
        let b2 = bs[2];
        seq![
            B64_CHARS@[(b0 >> 2) as int],
            B64_CHARS@[(((b0 & 3) << 4) | (b1 >> 4)) as int],
            B64_CHARS@[((((b1 & 0xf) << 2) | (b2 >> 6))) as int],
            B64_CHARS@[(b2 & 0x3f) as int],
        ] + spec_base64(bs.skip(3))
    }
}

/// Relies on the standard padded engine of the base64 crate: `encode`
/// produces exactly the standard base64 text of its input.  It cannot fail
/// for any byte buffer a program can hold, since the output length stays
/// within an address space for every input that fits in one.
#[verifier::external_body]
fn base64_encode(bytes: &Vec<u8>) -> (r: String)
    ensures
        r@ == spec_base64(bytes@),
{
    base64::Engine::encode(&base64::engine::general_purpose::STANDARD, bytes)
}

/// The PNG serialization of a row-major RGBA8 buffer with the given
/// dimensions.  Stated as a name only: the result is a function of the
/// arguments alone, but writing the format out here would restate the
/// encoder.
pub uninterp spec fn png_bytes_of(width: u32, height: u32, rgba: Seq<u8>) -> Seq<u8>;

/// Relies on the image crate: `ImageBuffer::from_raw` accepts every buffer
/// at least as large as the dimensions ask, `write_to` with the PNG format
/// serializes the pixels as PNG, deterministically in the dimensions and
/// bytes, and writing into an in-memory buffer fails only for a zero width
/// or height.  So on a well-sized buffer with non-zero dimensions the call
/// succeeds; every failure of either step is reported as `None`.
#[verifier::external_body]
fn png_encode(width: u32, height: u32, rgba: &Vec<u8>) -> (r: Option<Vec<u8>>)
    ensures
        r is Some ==> r->0@ == png_bytes_of(width, height, rgba@),
        width > 0 && height > 0 && rgba@.len() == width * height * 4 ==> r is Some,
{
    let img = match image::ImageBuffer::<image::Rgba<u8>, Vec<u8>>::from_raw(
        width,
        height,
        rgba.clone(),
    ) {
        Some(img) => img,
        None => {
            return None;
        },
    };
    let mut png: Vec<u8> = Vec::new();
    match img.write_to(&mut std::io::Cursor::new(&mut png), image::ImageFormat::Png) {
        Ok(()) => Some(png),
        Err(_) => None,
    }
}

impl IconImage {
    /// Checks well-formedness of the buffer against the dimensions.
    pub fn is_wf(&self) -> (b: bool)
        ensures
            b == self.wf(),
    {
        proof {
            assert((self.width as int) * (self.height as int) * 4 <= 0xffff_ffff * 0xffff_ffff * 4)
                by (nonlinear_arith)
                requires
                    0 <= self.width as int <= 0xffff_ffff,
                    0 <= self.height as int <= 0xffff_ffff,
            ;
        }
        let expected: u128 = (self.width as u128) * (self.height as u128) * 4;
        self.width > 0 && self.height > 0 && (self.rgba.len() as u128) == expected
    }
}

/// Encodes an icon's raw pixel bytes as base64 text, with no image
/// compression.
pub fn get_icon_base64(icon: &IconImage) -> (r: String)
    ensures
        r@ == spec_base64(icon.rgba@),
{
    base64_encode(&icon.rgba)
}

/// Encodes an icon as a PNG image and then as base64 text, the form in
/// which icons travel to the consumer.  Every well-formed icon encodes;
/// only a malformed one is an icon error.
pub fn get_png_base64(icon: &IconImage) -> (r: Result<String, WinError>)
    ensures
        r is Ok <==> icon.wf(),
        r is Ok ==> r->Ok_0@ == spec_base64(png_bytes_of(icon.width, icon.height, icon.rgba@)),
        r is Err ==> r->Err_0 == WinError::IconError,
{
    if !icon.is_wf() {
        return Err(WinError::IconError);
    }
    match png_encode(icon.width, icon.height, &icon.rgba) {
        Option::Some(png) => Ok(base64_encode(&png)),
        Option::None => Err(WinError::IconError),
    }
}

} // verus!

