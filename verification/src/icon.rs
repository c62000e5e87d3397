//! Icon representation: a validated RGBA pixel buffer plus dimensions, and
//! the derived forms the platform drivers need (PNG bytes for macOS and the
//! staged GTK icon file, a BGRA buffer plus AND mask for the Windows bitmap).

use vstd::prelude::*;

use crate::error::{BadIcon, Error};

verus! {

/// Bytes per RGBA pixel.
pub const PIXEL_SIZE: usize = 4;

/// A single RGBA pixel.
#[derive(Clone, Copy, Debug, PartialEq, Eq, Structural)]
pub struct Pixel {
    pub r: u8,
    pub g: u8,
    pub b: u8,
    pub a: u8,
}

impl Pixel {
    /// Swaps the red and blue channels, turning an RGBA pixel into the BGRA
    /// layout the Windows bitmap API expects.
    pub fn convert_to_bgra(&mut self)
        ensures
            *final(self) == (Pixel {
                r: old(self).b,
                g: old(self).g,
                b: old(self).r,
                a: old(self).a,
            }),
    {
        let t = self.r;
        self.r = self.b;
        self.b = t;
    }
}

/// The mathematical content of an icon: its pixel bytes and dimensions.
#[verifier::ext_equal]
pub ghost struct IconView {
    pub rgba: Seq<u8>,
    pub width: u32,
    pub height: u32,
}

/// A well-formed icon holds exactly `width * height * 4` pixel bytes.
pub open spec fn icon_view_wf(v: IconView) -> bool {
    v.rgba.len() == v.width * v.height * 4
}

/// Whether an icon has nonzero dimensions: the condition under which its
/// PNG encoding is guaranteed to succeed (the format admits no zero-sized
/// image).
pub open spec fn icon_encodable(v: IconView) -> bool {
    v.width > 0 && v.height > 0
}

/// [`icon_encodable`] lifted over an optional icon: an absent icon needs
/// no encoding.
pub open spec fn opt_icon_encodable(v: Option<IconView>) -> bool {
    match v {
        Some(iv) => icon_encodable(iv),
        None => true,
    }
}

/// A validated RGBA pixel buffer with its dimensions, in the form shared by
/// all platform drivers.
#[derive(Debug)]
pub struct PlatformIcon {
    rgba: Vec<u8>,
    width: u32,
    height: u32,
}

impl View for PlatformIcon {
    type V = IconView;

    closed spec fn view(&self) -> IconView {
        IconView { rgba: self.rgba@, width: self.width, height: self.height }
    }
}

#[verifier::type_invariant]
pub open spec fn platform_icon_inv(icon: PlatformIcon) -> bool {
    icon_view_wf(icon@)
}

impl PlatformIcon {
    /// Builds an icon from an RGBA byte buffer and its dimensions. Succeeds
    /// exactly when the buffer holds `width * height * 4` bytes; any other
    /// length is rejected.
    pub fn from_rgba(rgba: Vec<u8>, width: u32, height: u32) -> (r: Result<Self, BadIcon>)
        ensures
            rgba@.len() == width * height * 4 ==> (r matches Ok(icon) && icon@ == (IconView {
                rgba: rgba@,
                width,
                height,
            })),
            rgba@.len() != width * height * 4 ==> r == Err::<Self, _>(BadIcon::InvalidBuffer {
                width,
                height,
                len: rgba@.len() as usize,
            }),
    {
        proof {
            assert((width as int) * (height as int) * 4 <= 0xffff_ffff * 0xffff_ffff * 4)
                by (nonlinear_arith)
                requires
                    width <= 0xffff_ffffu32,
                    height <= 0xffff_ffffu32,
            ;
        }
        let expected: u128 = (width as u128) * (height as u128) * 4;
        if (rgba.len() as u128) == expected {
            Ok(PlatformIcon { rgba, width, height })
        } else {
            Err(BadIcon::InvalidBuffer { width, height, len: rgba.len() })
        }
    }

    /// The icon's dimensions.
    pub fn get_size(&self) -> (r: (u32, u32))
        ensures
            r == (self@.width, self@.height),
    {
        (self.width, self.height)
    }

    /// The raw RGBA bytes.
    pub fn rgba(&self) -> (r: &Vec<u8>)
        ensures
            r@ == self@.rgba,
    {
        &self.rgba
    }

    /// Encodes the icon as PNG bytes. The encoding is a pure function of
    /// the stored buffer: repeated calls yield the same bytes. Succeeds on
    /// every icon with nonzero dimensions; only a zero-sized icon, which
    /// the PNG format cannot represent, is refused.
    pub fn to_png(&self) -> (r: Result<Vec<u8>, Error>)
        ensures
            r matches Ok(b) ==> b@ == png_of(self@.rgba, self@.width, self@.height),
            r matches Err(e) ==> e is PngEncodingError,
            r is Ok <==> icon_encodable(self@),
    {
        proof {
            use_type_invariant(self);
        }
        match encode_png(&self.rgba, self.width, self.height) {
            Ok(b) => Ok(b),
            Err(m) => Err(Error::PngEncodingError(m)),
        }
    }
}

impl Clone for PlatformIcon {
    fn clone(&self) -> (r: Self)
        ensures
            r@ == self@,
    {
        proof {
            use_type_invariant(self);
        }
        PlatformIcon {
            rgba: clone_bytes(&self.rgba),
            width: self.width,
            height: self.height,
        }
    }
}

/// Copies a byte vector element by element.
fn clone_bytes(v: &Vec<u8>) -> (r: Vec<u8>)
    ensures
        r@ == v@,
{
    let mut out: Vec<u8> = Vec::new();
    let mut i: usize = 0;
    while i < v.len()
        invariant
            i <= v@.len(),
            out@ == v@.subrange(0, i as int),
        decreases v@.len() - i,
    {
        out.push(v[i]);
        i = i + 1;
        proof {
            assert(out@ =~= v@.subrange(0, i as int));
        }
    }
    proof {
        assert(out@ =~= v@);
    }
    out
}

/// The PNG encoding of an RGBA image, as produced by the PNG encoder for
/// 8-bit RGBA color: a function of the pixel bytes and dimensions alone.
pub uninterp spec fn png_of(rgba: Seq<u8>, width: u32, height: u32) -> Seq<u8>;

/// Relies on png::Encoder and png::Writer: encodes an 8-bit RGBA image into
/// in-memory PNG bytes. The result depends on the buffer and dimensions
/// alone; on failure the encoder's message is returned. For this fixed
/// configuration (8-bit RGBA, default compression, written to memory) the
/// encoder's only error paths are a zero width or height and a buffer
/// whose length disagrees with the dimensions, so every well-formed
/// nonzero-dimension image encodes successfully.
#[verifier::external_body]
fn encode_png(rgba: &Vec<u8>, width: u32, height: u32) -> (r: Result<Vec<u8>, String>)
    ensures
        r matches Ok(b) ==> b@ == png_of(rgba@, width, height),
        rgba@.len() == width * height * 4 && width > 0 && height > 0 ==> r is Ok,
        r is Ok ==> width > 0 && height > 0,
{
    let mut out: Vec<u8> = Vec::new();
    let mut enc = png::Encoder::new(&mut out, width, height);
    enc.set_color(png::ColorType::Rgba);
    enc.set_depth(png::BitDepth::Eight);
    let mut wr = enc.write_header().map_err(|e| e.to_string())?;
    wr.write_image_data(rgba).map_err(|e| e.to_string())?;
    wr.finish().map_err(|e| e.to_string())?;
    Ok(out)
}

/// A shared icon value, the public form accepted by the builder and the
/// drivers. Immutable once constructed; setting the same icon on several
/// drivers clones the validated buffer.
#[derive(Debug)]
pub struct Icon {
    pub(crate) inner: PlatformIcon,
}

impl Clone for Icon {
    fn clone(&self) -> (r: Self)
        ensures
            r@ == self@,
    {
        proof {
            use_type_invariant(self);
        }
        Icon { inner: self.inner.clone() }
    }
}

impl View for Icon {
    type V = IconView;

    closed spec fn view(&self) -> IconView {
        self.inner@
    }
}

#[verifier::type_invariant]
pub open spec fn icon_inv(icon: Icon) -> bool {
    icon_view_wf(icon@)
}

impl Icon {
    /// Builds an icon from an RGBA byte buffer and its dimensions. Succeeds
    /// exactly when the buffer holds `width * height * 4` bytes; any other
    /// length fails with [`BadIcon::InvalidBuffer`].
    pub fn from_rgba(rgba: Vec<u8>, width: u32, height: u32) -> (r: Result<Self, BadIcon>)
        ensures
            rgba@.len() == width * height * 4 ==> (r matches Ok(icon) && icon@ == (IconView {
                rgba: rgba@,
                width,
                height,
            })),
            rgba@.len() != width * height * 4 ==> r == Err::<Self, _>(BadIcon::InvalidBuffer {
                width,
                height,
                len: rgba@.len() as usize,
            }),
    {
        match PlatformIcon::from_rgba(rgba, width, height) {
            Ok(inner) => Ok(Icon { inner }),
            Err(e) => Err(e),
        }
    }

    /// The icon's dimensions.
    pub fn get_size(&self) -> (r: (u32, u32))
        ensures
            r == (self@.width, self@.height),
    {
        self.inner.get_size()
    }

    /// The raw RGBA bytes.
    pub fn rgba(&self) -> (r: &Vec<u8>)
        ensures
            r@ == self@.rgba,
    {
        self.inner.rgba()
    }

    /// Encodes the icon as PNG bytes; see [`PlatformIcon::to_png`].
    pub fn to_png(&self) -> (r: Result<Vec<u8>, Error>)
        ensures
            r matches Ok(b) ==> b@ == png_of(self@.rgba, self@.width, self@.height),
            r matches Err(e) ==> e is PngEncodingError,
            r is Ok <==> icon_encodable(self@),
    {
        self.inner.to_png()
    }
}

/// An RGBA buffer with its red and blue channels swapped.
pub open spec fn bgra_of(rgba: Seq<u8>) -> Seq<u8> {
    Seq::new(
        rgba.len(),
        |k: int|
            if k % 4 == 0 {
                rgba[k + 2]
            } else if k % 4 == 2 {
                rgba[k - 2]
            } else {
                rgba[k]
            },
    )
}

/// The one-byte-per-pixel AND mask derived from an RGBA buffer's alpha
/// channel: alpha plus one, wrapping.
pub open spec fn and_mask_of(rgba: Seq<u8>) -> Seq<u8> {
    Seq::new(rgba.len() / 4, |i: int| (((rgba[4 * i + 3] + 1) % 256) as u8))
}

/// Converts an RGBA buffer into the two buffers the Windows bitmap API
/// needs: the same pixels in BGRA channel order, and a one-byte-per-pixel
/// AND mask derived from the alpha channel.
pub fn rgba_to_bgra_and_mask(rgba: &Vec<u8>) -> (res: (Vec<u8>, Vec<u8>))
    requires
        rgba@.len() % 4 == 0,
    ensures
        res.0@ == bgra_of(rgba@),
        res.1@ == and_mask_of(rgba@),
{
    let pixel_count: usize = rgba.len() / PIXEL_SIZE;
    proof {
        vstd::arithmetic::div_mod::lemma_fundamental_div_mod(rgba@.len() as int, 4);
    }
    let mut bgra: Vec<u8> = Vec::new();
    let mut mask: Vec<u8> = Vec::new();
    let mut i: usize = 0;
    while i < pixel_count
        invariant
            pixel_count == rgba@.len() / 4,
            4 * pixel_count == rgba@.len(),
            rgba@.len() <= usize::MAX,
            i <= pixel_count,
            bgra@.len() == 4 * i,
            mask@.len() == i,
            forall|j: int|
                0 <= j < i ==> {
                    &&& #[trigger] bgra@[4 * j] == rgba@[4 * j + 2]
                    &&& bgra@[4 * j + 1] == rgba@[4 * j + 1]
                    &&& bgra@[4 * j + 2] == rgba@[4 * j]
                    &&& bgra@[4 * j + 3] == rgba@[4 * j + 3]
                    &&& mask@[j] == (rgba@[4 * j + 3] + 1) % 256
                },
        decreases pixel_count - i,
    {
        proof {
            assert(4 * i + 3 < rgba@.len());
        }
        let r = rgba[4 * i];
        let g = rgba[4 * i + 1];
        let b = rgba[4 * i + 2];
        let a = rgba[4 * i + 3];
        let ghost prev_bgra: Seq<u8> = bgra@;
        let ghost prev_mask: Seq<u8> = mask@;
        bgra.push(b);
        bgra.push(g);
        bgra.push(r);
        bgra.push(a);
        let inverted: u8 = if a == 255 {
            0
        } else {
            a + 1
        };
        mask.push(inverted);
        proof {
            assert(bgra@ =~= prev_bgra + seq![b, g, r, a]);
            assert(mask@ =~= prev_mask.push(inverted));
            assert forall|j: int| 0 <= j < i + 1 implies {
                &&& #[trigger] bgra@[4 * j] == rgba@[4 * j + 2]
                &&& bgra@[4 * j + 1] == rgba@[4 * j + 1]
                &&& bgra@[4 * j + 2] == rgba@[4 * j]
                &&& bgra@[4 * j + 3] == rgba@[4 * j + 3]
                &&& mask@[j] == (rgba@[4 * j + 3] + 1) % 256
            } by {
                if j == i {
                    assert(bgra@[4 * j] == b);
                    assert(bgra@[4 * j + 1] == g);
                    assert(bgra@[4 * j + 2] == r);
                    assert(bgra@[4 * j + 3] == a);
                    assert(mask@[j] == inverted);
                } else {
                    assert(bgra@[4 * j] == prev_bgra[4 * j]);
                    assert(bgra@[4 * j + 1] == prev_bgra[4 * j + 1]);
                    assert(bgra@[4 * j + 2] == prev_bgra[4 * j + 2]);
                    assert(bgra@[4 * j + 3] == prev_bgra[4 * j + 3]);
                    assert(mask@[j] == prev_mask[j]);
                }
            }
        }
        i = i + 1;
    }
    proof {
        assert forall|k: int| 0 <= k < rgba@.len() implies bgra@[k] == bgra_of(rgba@)[k] by {
            let j = k / 4;
            vstd::arithmetic::div_mod::lemma_fundamental_div_mod(k, 4);
            assert(4 * j <= k < 4 * j + 4);
            assert(0 <= j < rgba@.len() / 4);
            assert(bgra@[4 * j] == rgba@[4 * j + 2]);
            if k % 4 == 0 {
                assert(k == 4 * j);
            } else if k % 4 == 1 {
                assert(k == 4 * j + 1);
            } else if k % 4 == 2 {
                assert(k == 4 * j + 2);
            } else {
                assert(k == 4 * j + 3);
            }
        }
        assert(bgra@ =~= bgra_of(rgba@));
        assert forall|j: int| 0 <= j < rgba@.len() / 4 implies mask@[j] == and_mask_of(rgba@)[j] by {
            assert(bgra@[4 * j] == rgba@[4 * j + 2]);
        }
        assert(mask@ =~= and_mask_of(rgba@));
    }
    (bgra, mask)
}

} // verus!
