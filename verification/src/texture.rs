//! Textures as the registry sees them: immutable metadata about an uploaded
//! image. Pixel decoding is delegated to the `image` crate; everything the
//! rest of the backend reads (dimensions, sampling mode, mipmap flag) is kept
//! here as plain values.

use vstd::prelude::*;

use crate::error::RoastError;

verus! {

/// Sampling method for a texture.
#[derive(Clone, Copy, PartialEq, Eq, Structural, Debug)]
pub enum TextureSampling {
    /// A linear sampling method that interpolates nearby pixels.
    Smooth,
    /// A nearest sampling method that uses the nearest pixel.
    Pixel,
}

impl Default for TextureSampling {
    fn default() -> (r: TextureSampling)
        ensures
            r == TextureSampling::Smooth,
    {
        TextureSampling::Smooth
    }
}

impl TextureSampling {
    /// Decodes the raw discriminant the host sends for a sampling mode; a
    /// value outside the valid range is an illegal-argument error.
    pub fn from_raw(value: u8) -> (r: Result<TextureSampling, RoastError>)
        ensures
            match r {
                Ok(sampling) => (value == 0 ==> sampling == TextureSampling::Smooth) && (value == 1
                    ==> sampling == TextureSampling::Pixel) && value <= 1,
                Err(e) => value > 1 && e is IllegalArgument,
            },
    {
        if value == 0 {
            Ok(TextureSampling::Smooth)
        } else if value == 1 {
            Ok(TextureSampling::Pixel)
        } else {
            Err(RoastError::IllegalArgument("Unrecognized texture sampling mode".to_owned()))
        }
    }
}

/// What decoding an encoded image yields, when it succeeds: the dimensions
/// of the decoded image. The exact relation between encoded bytes and pixels
/// is the decoder's business; the registry only needs that it is a function
/// of the bytes alone.
pub uninterp spec fn image_decode(bytes: Seq<u8>) -> Option<(u32, u32)>;

/// A decoded image: dimensions plus the raw RGBA pixel bytes, ready to be
/// uploaded to the GPU by the surrounding program.
pub struct DecodedImage {
    /// Width in pixels.
    pub width: u32,
    /// Height in pixels.
    pub height: u32,
    /// Tightly packed RGBA bytes, four per pixel.
    pub rgba: Vec<u8>,
}

/// Relies on `image::load_from_memory`, whose result is a function of the
/// input bytes alone (the format is guessed from the bytes themselves), and
/// on `DynamicImage::to_rgba8`, which yields a `width * height * 4` byte
/// RGBA buffer of the image's dimensions.
#[verifier::external_body]
pub fn decode_image(bytes: &Vec<u8>) -> (r: Option<DecodedImage>)
    ensures
        match image_decode(bytes@) {
            Some(dims) => r matches Some(d)
                && d.width == dims.0
                && d.height == dims.1
                && d.rgba@.len() == 4 * (dims.0 as nat) * (dims.1 as nat),
            None => r is None,
        },
{
    match image::load_from_memory(bytes.as_slice()) {
        Ok(img) => {
            let width = img.width();
            let height = img.height();
            Some(DecodedImage { width, height, rgba: img.to_rgba8().into_raw() })
        },
        Err(_) => None,
    }
}

/// A sampled and possibly mipmapped image that can be bound alongside a
/// mesh. The pixel data itself lives on the GPU; the registry keeps the
/// immutable metadata, which no operation mutates after creation.
#[derive(Clone, Copy, PartialEq, Eq, Structural, Debug)]
pub struct Texture {
    width: u32,
    height: u32,
    sampling: TextureSampling,
    mipmapped: bool,
}

impl Texture {
    /// Width in pixels.
    pub closed spec fn width_spec(&self) -> u32 {
        self.width
    }

    /// Height in pixels.
    pub closed spec fn height_spec(&self) -> u32 {
        self.height
    }

    /// Sampling method.
    pub closed spec fn sampling_spec(&self) -> TextureSampling {
        self.sampling
    }

    /// Whether a full mip chain was generated.
    pub closed spec fn mipmapped_spec(&self) -> bool {
        self.mipmapped
    }

    /// Describes a freshly uploaded texture: the metadata is taken from the
    /// decoded image and the creation arguments.
    pub fn new(image: &DecodedImage, sampling: TextureSampling, mipmapped: bool) -> (r: Texture)
        ensures
            r.width_spec() == image.width,
            r.height_spec() == image.height,
            r.sampling_spec() == sampling,
            r.mipmapped_spec() == mipmapped,
    {
        Texture { width: image.width, height: image.height, sampling, mipmapped }
    }

    /// The width of this texture.
    pub fn width(&self) -> (r: u32)
        ensures
            r == self.width_spec(),
    {
        self.width
    }

    /// The height of this texture.
    pub fn height(&self) -> (r: u32)
        ensures
            r == self.height_spec(),
    {
        self.height
    }

    /// The sampling method for this texture.
    pub fn sampling(&self) -> (r: TextureSampling)
        ensures
            r == self.sampling_spec(),
    {
        self.sampling
    }

    /// Whether this texture has mipmaps.
    pub fn mipmapped(&self) -> (r: bool)
        ensures
            r == self.mipmapped_spec(),
    {
        self.mipmapped
    }
}

} // verus!
