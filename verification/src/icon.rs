use image::ImageError;
use vstd::prelude::*;
use winit::window::{BadIcon, Icon};

verus! {

/// Makes `image::ImageError` usable in verified code; its values are opaque.
#[verifier::external_type_specification]
#[verifier::external_body]
pub struct ExImageError(ImageError);

/// Makes `std::io::Error` usable in verified code; its values are opaque.
#[verifier::external_type_specification]
#[verifier::external_body]
pub struct ExIoError(std::io::Error);

/// Why an icon could not be made.
#[derive(Debug)]
pub enum IconError {
    /// The image data could not be decoded.
    Decode(ImageError),
    /// The image has more than `u32::MAX` pixels.
    TooLarge { width: u32, height: u32 },
    /// The RGBA data is not made of whole 4-byte pixels.
    ByteCountNotDivisibleBy4 { byte_count: usize },
    /// The number of pixels does not match the dimensions.
    DimensionsVsPixelCount { width: u32, height: u32, width_x_height: usize, pixel_count: usize },
    /// The platform could not create the icon.
    Platform(std::io::Error),
}

/// The raw RGBA8 pixels, width and height of the image encoded in `bytes`, as
/// the `image` crate decodes it (format guessed from the data); `None` when it
/// cannot be decoded.
pub uninterp spec fn decoded_rgba(bytes: Seq<u8>) -> Option<(Seq<u8>, u32, u32)>;

/// Calls `image::load_from_memory` on `bytes` and converts the decoded image
/// to raw RGBA8 pixels with its dimensions (`into_rgba8`, `dimensions`,
/// `into_raw`). The contract names the result, and states that the pixel
/// buffer holds four bytes for each of the `width * height` pixels, as the
/// crate allocates it for a decoded or converted image.
#[verifier::external_body]
fn decode_rgba(bytes: &[u8]) -> (r: Result<(Vec<u8>, u32, u32), ImageError>)
    ensures
        r is Ok <==> decoded_rgba(bytes@) is Some,
        r matches Ok((pixels, width, height)) ==> decoded_rgba(bytes@) == Some(
            (pixels@, width, height),
        ),
        r matches Ok((pixels, width, height)) ==> pixels@.len() == 4 * width * height,
{
    let rgba = image::load_from_memory(bytes)?.into_rgba8();
    let (width, height) = rgba.dimensions();
    Ok((rgba.into_raw(), width, height))
}

/// A checked window icon image: `width * height` pixels of four bytes each
/// (red, green, blue, alpha), row by row, with no more than `u32::MAX` pixels.
pub struct IconImage {
    pixels: Vec<u8>,
    width: u32,
    height: u32,
}

impl IconImage {
    /// The pixel buffer holds exactly the image's pixels, whose number fits in `u32`.
    #[verifier::type_invariant]
    spec fn whole_pixels(&self) -> bool {
        &&& self.width * self.height <= u32::MAX
        &&& self.pixels@.len() == 4 * self.width * self.height
    }

    pub closed spec fn spec_pixels(&self) -> Seq<u8> {
        self.pixels@
    }

    pub closed spec fn spec_width(&self) -> u32 {
        self.width
    }

    pub closed spec fn spec_height(&self) -> u32 {
        self.height
    }

    /// The RGBA8 pixels, row by row: four bytes for each of the image's pixels.
    pub fn pixels(&self) -> (r: &Vec<u8>)
        ensures
            r@ == self.spec_pixels(),
            r@.len() == 4 * self.spec_width() * self.spec_height(),
            self.spec_width() * self.spec_height() <= u32::MAX,
    {
        proof {
            use_type_invariant(self);
        }
        &self.pixels
    }

    /// Width and height in pixels.
    pub fn dimensions(&self) -> (r: (u32, u32))
        ensures
            r == (self.spec_width(), self.spec_height()),
    {
        (self.width, self.height)
    }

    /// Turns the image into the windowing library's icon. The image always
    /// passes the library's checks; only the platform may refuse it.
    pub fn into_icon(self) -> (r: Result<Icon, IconError>)
        ensures
            r is Ok || r matches Err(IconError::Platform(_)),
    {
        icon_from_rgba(self)
    }
}

/// Calls `winit::window::Icon::from_rgba` with the image's pixels, width and
/// height. Its source refuses only data that is not made of whole 4-byte
/// pixels or whose pixel count differs from `width * height` (computed in
/// `u32`), which an `IconImage` never is; the platform may still refuse the
/// icon (on Linux it never does). The icon itself is opaque.
#[verifier::external_body]
fn icon_from_rgba(image: IconImage) -> (r: Result<Icon, IconError>)
    ensures
        r is Ok || r matches Err(IconError::Platform(_)),
{
    match Icon::from_rgba(image.pixels, image.width, image.height) {
        Ok(icon) => Ok(icon),
        Err(BadIcon::ByteCountNotDivisibleBy4 { byte_count }) => Err(
            IconError::ByteCountNotDivisibleBy4 { byte_count },
        ),
        Err(BadIcon::DimensionsVsPixelCount { width, height, width_x_height, pixel_count }) => Err(
            IconError::DimensionsVsPixelCount { width, height, width_x_height, pixel_count },
        ),
        Err(BadIcon::OsError(e)) => Err(IconError::Platform(e)),
    }
}

/// The outcome of making an icon image of `width` x `height` pixels from the
/// RGBA data `rgba`: images of more than `u32::MAX` pixels are refused, then
/// data that is not made of whole 4-byte pixels, then data whose pixel count
/// differs from `width * height`; anything else is the image itself.
pub open spec fn icon_check(r: Result<IconImage, IconError>, rgba: Seq<u8>, width: u32, height: u32) -> bool {
    if width * height > u32::MAX {
        r matches Err(IconError::TooLarge { width: w, height: h }) && w == width && h == height
    } else if rgba.len() % 4 != 0 {
        r matches Err(IconError::ByteCountNotDivisibleBy4 { byte_count }) && byte_count == rgba.len()
    } else if rgba.len() / 4 != width * height {
        r matches Err(IconError::DimensionsVsPixelCount { width: w, height: h, width_x_height, pixel_count })
            && w == width && h == height && width_x_height == width * height
            && pixel_count == rgba.len() / 4
    } else {
        r matches Ok(image) && image.spec_pixels() == rgba && image.spec_width() == width
            && image.spec_height() == height
    }
}

/// Checks raw RGBA8 pixels of a `width` x `height` image and makes an icon
/// image of them.
pub fn icon_from_image(rgba: Vec<u8>, width: u32, height: u32) -> (r: Result<IconImage, IconError>)
    ensures
        icon_check(r, rgba@, width, height),
{
    let area = match width.checked_mul(height) {
        Some(a) => a,
        None => {
            return Err(IconError::TooLarge { width, height });
        },
    };
    let byte_count = rgba.len();
    if byte_count % 4 != 0 {
        return Err(IconError::ByteCountNotDivisibleBy4 { byte_count });
    }
    let pixel_count = byte_count / 4;
    if pixel_count != area as usize {
        return Err(
            IconError::DimensionsVsPixelCount {
                width,
                height,
                width_x_height: area as usize,
                pixel_count,
            },
        );
    }
    assert(rgba@.len() == 4 * width * height) by (nonlinear_arith)
        requires
            rgba@.len() % 4 == 0,
            rgba@.len() / 4 == width * height,
    ;
    Ok(IconImage { pixels: rgba, width, height })
}

/// Loads a window icon image from the bytes of an image file: the decoded
/// image as RGBA8, unless it cannot be decoded or has more than `u32::MAX` pixels.
pub fn load_icon(bytes: &[u8]) -> (r: Result<IconImage, IconError>)
    ensures
        decoded_rgba(bytes@) is None ==> r matches Err(IconError::Decode(_)),
        decoded_rgba(bytes@) matches Some((pixels, width, height)) ==> icon_check(
            r,
            pixels,
            width,
            height,
        ),
        decoded_rgba(bytes@) matches Some((pixels, width, height)) ==> (width * height
            <= u32::MAX <==> r is Ok),
{
    match decode_rgba(bytes) {
        Ok((pixels, width, height)) => {
            proof {
                let n = pixels@.len();
                let area = width * height;
                assert(n == 4 * area) by (nonlinear_arith)
                    requires
                        n == 4 * width * height,
                        area == width * height,
                ;
                vstd::arithmetic::div_mod::lemma_div_multiples_vanish(area, 4);
                vstd::arithmetic::div_mod::lemma_mod_multiples_basic(area, 4);
                assert(area * 4 == 4 * area);
            }
            icon_from_image(pixels, width, height)
        },
        Err(e) => Err(IconError::Decode(e)),
    }
}

} // verus!
