use vstd::prelude::*;

verus! {

#[verifier::external_type_specification]
#[verifier::external_body]
pub struct ExDynamicImage(image::DynamicImage);

/// Relies on image::open: reads and decodes the image file at the path
/// (the codec is chosen by the path's extension), and reports the codec's
/// or the filesystem's error description otherwise.
#[verifier::external_body]
pub(crate) fn open_image(p: &str) -> Result<image::DynamicImage, String> {
    match image::open(p) {
        Ok(img) => Ok(img),
        Err(e) => Err(e.to_string()),
    }
}

/// Relies on image::GenericImageView::dimensions: the decoded image's
/// width and height in pixels.
#[verifier::external_body]
pub(crate) fn image_dims(img: &image::DynamicImage) -> (u32, u32) {
    image::GenericImageView::dimensions(img)
}

/// Relies on image::DynamicImage::thumbnail_exact: scales the image to
/// exactly the given width and height with a fast integer filter; it does
/// not keep the aspect ratio itself, the caller chooses the dimensions.
#[verifier::external_body]
pub(crate) fn thumbnail_to(img: &image::DynamicImage, w: u32, h: u32) -> image::DynamicImage
    requires
        1 <= w,
        1 <= h,
{
    img.thumbnail_exact(w, h)
}

/// Relies on image::DynamicImage::save_with_format: encodes the image as
/// PNG and writes it to the path, creating or truncating the file there,
/// and reports the failure's description otherwise.
#[verifier::external_body]
pub(crate) fn save_png(img: &image::DynamicImage, p: &str) -> Result<(), String> {
    match img.save_with_format(p, image::ImageFormat::Png) {
        Ok(()) => Ok(()),
        Err(e) => Err(e.to_string()),
    }
}

} // verus!
