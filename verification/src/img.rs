//! Still pictures.

use vstd::prelude::*;

use crate::data_url::{base64_encode, base64_text, data_url, make_data_url};
use crate::planes::{copied_byte, copy_plane, pack_rgba, packed_rgba};
use crate::text::copy_text;

verus! {

/// A picture of four bytes per pixel, row by row.
pub struct Rgba {
    pub width: u32,
    pub height: u32,
    pub pixels: Vec<u8>,
}

impl Rgba {
    /// The pixels are those of the picture's size.
    pub open spec fn wf(&self) -> bool {
        self.pixels@.len() == self.width * self.height * 4
    }
}

/// Whether bytes were decoded as a picture. `decoded` is what became of them.
pub fn is_image(decoded: &Option<Rgba>) -> (b: bool)
    ensures
        b == (decoded is Some),
{
    decoded.is_some()
}

/// Whether a picture can have a size.
pub fn can_resize(width: u32, height: u32) -> (b: bool)
    ensures
        b == (width > 0 && height > 0),
{
    width > 0 && height > 0
}

/// The largest square in the middle of a picture: where it begins and how long its side is.
pub fn centre_square(width: u32, height: u32) -> (r: (u32, u32, u32))
    ensures
        r.2 == if width <= height {
            width
        } else {
            height
        },
        r.0 == (width - r.2) / 2,
        r.1 == (height - r.2) / 2,
{
    let side: u32 = if width <= height {
        width
    } else {
        height
    };
    ((width - side) / 2, (height - side) / 2, side)
}

/// A decoded picture whose rows lie `stride` bytes apart.
pub fn picture_from_rows(data: &Vec<u8>, stride: usize, width: u32, height: u32) -> (r: Rgba)
    requires
        stride > 0,
        width * 4 <= stride,
    ensures
        r.width == width,
        r.height == height,
        r.pixels@ == packed_rgba(data@, stride as int, width as int, height as int),
{
    let pixels = pack_rgba(data, stride, width as usize, height as usize);
    Rgba { width, height, pixels }
}

/// Writes a picture into rows that lie `stride` bytes apart.
pub fn rows_from_picture(src: &Rgba, frame: &mut Vec<u8>, stride: usize)
    requires
        src.wf(),
        src.width > 0,
        src.width * 4 <= stride,
    ensures
        final(frame)@.len() == old(frame)@.len(),
        forall|k: int|
            0 <= k < final(frame)@.len() ==> #[trigger] final(frame)@[k] == copied_byte(
                old(frame)@,
                stride as int,
                src.pixels@,
                src.width * 4,
                src.width * 4,
                src.height as int,
                k,
            ),
{
    let row: usize = src.width as usize * 4;
    copy_plane(frame, stride, &src.pixels, row, row, src.height as usize);
}

// ---------------------------------------------------------------------------
// The image crate
// ---------------------------------------------------------------------------

/// The size of the picture that the image crate decodes from some bytes.
pub uninterp spec fn image_size(bytes: Seq<u8>) -> Option<(u32, u32)>;

/// A picture encoded as PNG by the image crate.
pub uninterp spec fn png_of(bytes: Seq<u8>) -> Option<Seq<u8>>;

/// What the image crate writes of a picture as JPEG, and whether it could write all of it.
pub uninterp spec fn jpeg_of(bytes: Seq<u8>) -> Option<(Seq<u8>, bool)>;

/// `image::load_from_memory` with `width` and `height`: the size of the picture that some bytes
/// hold, if they hold one. It depends on the bytes alone.
#[verifier::external_body]
pub(crate) fn read_image_size(bytes: &Vec<u8>) -> (r: Option<(u32, u32)>)
    ensures
        r == image_size(bytes@),
{
    image::load_from_memory(bytes).ok().map(|img| (img.width(), img.height()))
}

pub open spec fn bytes_view(b: Option<Vec<u8>>) -> Option<Seq<u8>> {
    match b {
        Some(v) => Some(v@),
        None => None,
    }
}

pub open spec fn written_view(b: Option<(Vec<u8>, bool)>) -> Option<(Seq<u8>, bool)> {
    match b {
        Some((v, ok)) => Some((v@, ok)),
        None => None,
    }
}

/// `image::load_from_memory` and `DynamicImage::write_to` as PNG: the encoded picture, if both
/// succeed. It depends on the bytes alone.
#[verifier::external_body]
pub(crate) fn write_png(bytes: &Vec<u8>) -> (r: Option<Vec<u8>>)
    ensures
        bytes_view(r) == png_of(bytes@),
{
    let mut out = std::io::Cursor::new(Vec::new());
    image::load_from_memory(bytes).ok()?.write_to(&mut out, image::ImageFormat::Png).ok()?;
    Some(out.into_inner())
}

/// The size that `DynamicImage::resize` gives to a picture of the size `from`, to fit it into the
/// size `into`.
pub uninterp spec fn resized_size(from: (u32, u32), into: (u32, u32)) -> (u32, u32);

pub open spec fn has_pixels(size: (u32, u32)) -> bool {
    size.0 > 0 && size.1 > 0
}

/// A length of at least one pixel.
pub open spec fn at_least_one(n: u32) -> u32 {
    if n == 0 {
        1
    } else {
        n
    }
}

/// A picture of the size `from` was made as large as it can be inside the size `into`, where each
/// side has at least one pixel.
pub open spec fn fills(from: (u32, u32), into: (u32, u32), picture: (u32, u32)) -> bool {
    &&& picture.0 <= at_least_one(into.0)
    &&& picture.1 <= at_least_one(into.1)
    &&& has_pixels(from) ==> picture.0 == at_least_one(into.0) || picture.1 == at_least_one(into.1)
}

/// `made` is a picture of the size that one of the size `from` gets to fit into the size `into`.
pub open spec fn is_resized(made: Seq<u8>, from: (u32, u32), into: (u32, u32)) -> bool {
    &&& image_size(made) == Some(resized_size(from, into))
    &&& fills(from, into, resized_size(from, into))
}

/// `image::load_from_memory`, `DynamicImage::resize` with the Lanczos filter, and `write_to` as PNG:
/// what was written, and whether `write_to` succeeded, if the bytes are a picture. It is a picture
/// of the size that `resize` documents: the largest of its shape that fits. A picture with pixels
/// can be written at that size just where it can be written at its own, since PNG refuses nothing
/// but kinds of colour, which `resize` keeps. The pixels rest on the machine's arithmetic, and are
/// not said; nor is whether a picture without pixels can be written.
#[verifier::external_body]
pub(crate) fn write_resized_png(bytes: &Vec<u8>, width: u32, height: u32) -> (r: Option<
    (Vec<u8>, bool),
>)
    requires
        width <= 4096,
        height <= 4096,
    ensures
        r is Some <==> image_size(bytes@) is Some,
        r matches Some((png, ok)) ==> has_pixels(image_size(bytes@)->0) ==> ok == (png_of(
            bytes@,
        ) is Some),
        r matches Some((png, true)) ==> image_size(png@) == Some(
            resized_size(image_size(bytes@)->0, (width, height)),
        ) && fills(
            image_size(bytes@)->0,
            (width, height),
            resized_size(image_size(bytes@)->0, (width, height)),
        ),
{
    let img = image::load_from_memory(bytes).ok()?;
    let small = img.resize(width, height, image::imageops::FilterType::Lanczos3);
    let mut out = std::io::Cursor::new(Vec::new());
    let ok = small.write_to(&mut out, image::ImageFormat::Png).is_ok();
    Some((out.into_inner(), ok))
}

/// `image::load_from_memory` and `DynamicImage::write_to` as JPEG: what was written, and whether
/// `write_to` succeeded, if the bytes are a picture. It depends on the bytes alone.
#[verifier::external_body]
pub(crate) fn write_jpeg(bytes: &Vec<u8>) -> (r: Option<(Vec<u8>, bool)>)
    ensures
        written_view(r) == jpeg_of(bytes@),
{
    let img = image::load_from_memory(bytes).ok()?;
    let mut out = std::io::Cursor::new(Vec::new());
    let ok = img.write_to(&mut out, image::ImageFormat::Jpeg).is_ok();
    Some((out.into_inner(), ok))
}

/// `image::load_from_memory`, `DynamicImage::resize` with the Lanczos filter, and `write_to` as
/// JPEG: what was written, and whether `write_to` succeeded, if the bytes are a picture. It is a
/// picture of the size that `resize` documents: the largest of its shape that fits. Writing succeeds,
/// since every kind of colour is converted and the sides are short enough; only a picture without
/// pixels that has the size already is kept as it is, and refused. The pixels rest on the machine's
/// arithmetic, and are not said.
#[verifier::external_body]
pub(crate) fn write_resized_jpeg(bytes: &Vec<u8>, width: u32, height: u32) -> (r: Option<
    (Vec<u8>, bool),
>)
    requires
        width <= 4096,
        height <= 4096,
    ensures
        r is Some <==> image_size(bytes@) is Some,
        r matches Some((jpeg, ok)) ==> has_pixels((width, height)) || image_size(bytes@) != Some(
            (width, height),
        ) ==> ok,
        r matches Some((jpeg, true)) ==> image_size(jpeg@) == Some(
            resized_size(image_size(bytes@)->0, (width, height)),
        ) && fills(
            image_size(bytes@)->0,
            (width, height),
            resized_size(image_size(bytes@)->0, (width, height)),
        ),
{
    let img = image::load_from_memory(bytes).ok()?;
    let small = img.resize(width, height, image::imageops::FilterType::Lanczos3);
    let mut out = std::io::Cursor::new(Vec::new());
    let ok = small.write_to(&mut out, image::ImageFormat::Jpeg).is_ok();
    Some((out.into_inner(), ok))
}

/// The size of the picture that some bytes hold.
pub fn picture_size(bytes: &Vec<u8>) -> (r: Option<(u32, u32)>)
    ensures
        r == image_size(bytes@),
{
    read_image_size(bytes)
}

/// A picture is made smaller where one of its sides is longer than `max`.
pub open spec fn too_large(size: (u32, u32), max: u32) -> bool {
    size.0 > max || size.1 > max
}

/// `png` is a picture made at most `max` wide and high, as PNG: the picture itself where it is small
/// enough, else one resized to fit into the size `fitted`. A resized picture is there where the
/// picture itself can be written as PNG.
pub open spec fn is_shrunk_png(
    bytes: Seq<u8>,
    max: u32,
    fitted: (u32, u32),
    png: Option<Seq<u8>>,
) -> bool {
    match image_size(bytes) {
        Some(size) => if too_large(size, max) {
            &&& has_pixels(size) ==> (png is Some <==> png_of(bytes) is Some)
            &&& png matches Some(b) ==> is_resized(b, size, fitted)
        } else {
            png == png_of(bytes)
        },
        None => png is None,
    }
}

/// `jpeg` is what was written of a picture made at most `max` wide and high, as JPEG, and whether
/// all of it was: of the picture itself where it is small enough, else of one resized to fit into
/// the size `fitted`, which is always written in full.
pub open spec fn is_shrunk_jpeg(
    bytes: Seq<u8>,
    max: u32,
    fitted: (u32, u32),
    jpeg: Option<(Seq<u8>, bool)>,
) -> bool {
    match image_size(bytes) {
        Some(size) => if too_large(size, max) {
            jpeg matches Some((b, ok)) && ok && is_resized(b, size, fitted)
        } else {
            jpeg == jpeg_of(bytes)
        },
        None => jpeg is None,
    }
}

/// What was written counts if all of it was.
pub open spec fn whole(written: Option<(Seq<u8>, bool)>) -> Option<Seq<u8>> {
    match written {
        Some((b, ok)) => if ok {
            Some(b)
        } else {
            None
        },
        None => None,
    }
}

pub fn keep_whole(written: Option<(Vec<u8>, bool)>) -> (r: Option<Vec<u8>>)
    ensures
        bytes_view(r) == whole(written_view(written)),
{
    match written {
        Some((b, ok)) => {
            if ok {
                Some(b)
            } else {
                None
            }
        },
        None => None,
    }
}

/// Makes a picture at most `max` wide and high and encodes it as PNG. `fitted` is the size for a
/// picture that is larger.
pub fn shrink_png(bytes: &Vec<u8>, max: u32, fitted: (u32, u32)) -> (r: Option<Vec<u8>>)
    requires
        max <= 4096,
        fitted.0 <= max,
        fitted.1 <= max,
    ensures
        is_shrunk_png(bytes@, max, fitted, bytes_view(r)),
{
    match read_image_size(bytes) {
        Some(size) => {
            if size.0 > max || size.1 > max {
                keep_whole(write_resized_png(bytes, fitted.0, fitted.1))
            } else {
                write_png(bytes)
            }
        },
        None => None,
    }
}

/// Makes a picture at most `max` wide and high and encodes it as JPEG; also says whether all of it
/// could be written. `fitted` is the size for a picture that is larger.
pub fn shrink_jpeg(bytes: &Vec<u8>, max: u32, fitted: (u32, u32)) -> (r: Option<(Vec<u8>, bool)>)
    requires
        max <= 4096,
        fitted.0 <= max,
        fitted.1 <= max,
    ensures
        is_shrunk_jpeg(bytes@, max, fitted, written_view(r)),
{
    match read_image_size(bytes) {
        Some(size) => {
            if size.0 > max || size.1 > max {
                write_resized_jpeg(bytes, fitted.0, fitted.1)
            } else {
                write_jpeg(bytes)
            }
        },
        None => None,
    }
}

/// The longest side of the small picture that goes with an attachment.
pub const ATTACHMENT_THUMB_MAX: u32 = 480;

/// The longest side of a small picture in a message.
pub const MESSAGE_THUMB_MAX: u32 = 256;

/// The longest side of a user's picture.
pub const AVATAR_MAX: u32 = 256;

/// The longest side of a picture in a link preview.
pub const PREVIEW_IMAGE_MAX_DIM: u32 = 1024;

/// The largest file that is taken as the picture of a link preview.
pub const PREVIEW_MAX_IMAGE_BYTES: usize = 3_000_000;

/// What becomes of a user's new picture: a `data:` URL, or why there is none.
pub open spec fn avatar_outcome(picture: bool, png: Option<Seq<u8>>) -> Result<Seq<char>, Seq<char>> {
    match png {
        Some(b) => if picture {
            Ok(data_url("data:image/png;base64,"@, b))
        } else {
            Err("could not decode image"@)
        },
        None => if picture {
            Err("could not encode image"@)
        } else {
            Err("could not decode image"@)
        },
    }
}

pub open spec fn result_view(r: Result<String, String>) -> Result<Seq<char>, Seq<char>> {
    match r {
        Ok(s) => Ok(s@),
        Err(e) => Err(e@),
    }
}

/// What becomes of a user's new picture. `picture` says whether there was one to read, `png` is the
/// picture made small.
pub fn avatar_answer(picture: bool, png: Option<Vec<u8>>) -> (r: Result<String, String>)
    ensures
        result_view(r) == avatar_outcome(picture, bytes_view(png)),
{
    if !picture {
        return Err(copy_text("could not decode image"));
    }
    match png {
        Some(png) => Ok(make_data_url("data:image/png;base64,", &png)),
        None => Err(copy_text("could not encode image")),
    }
}

/// A user's new picture as a `data:` URL; `fitted` is the size for a picture that is larger.
pub fn avatar_data_url(bytes: &Vec<u8>, fitted: (u32, u32)) -> (r: Result<String, String>)
    requires
        fitted.0 <= 256,
        fitted.1 <= 256,
    ensures
        exists|png: Option<Seq<u8>>| #[trigger]
            is_shrunk_png(bytes@, 256, fitted, png) && result_view(r) == avatar_outcome(
                image_size(bytes@) is Some,
                png,
            ),
{
    let picture = read_image_size(bytes).is_some();
    let png = shrink_png(bytes, AVATAR_MAX, fitted);
    proof {
        assert(is_shrunk_png(bytes@, 256, fitted, bytes_view(png)));
    }
    avatar_answer(picture, png)
}

/// A picture as a `data:` URL, as large as it is.
pub fn image_data_url_from_bytes(bytes: &Vec<u8>) -> (r: Option<String>)
    ensures
        match png_of(bytes@) {
            Some(png) => r matches Some(u) && u@ == data_url("data:image/png;base64,"@, png),
            None => r is None,
        },
{
    match write_png(bytes) {
        Some(png) => Some(make_data_url("data:image/png;base64,", &png)),
        None => None,
    }
}

/// The small picture of an attachment as a `data:` URL, empty for what is no picture. `made` is what
/// was written of it.
pub open spec fn thumbnail_url(made: Option<(Seq<u8>, bool)>) -> Seq<char> {
    match made {
        Some((jpeg, _)) => data_url("data:image/jpeg;base64,"@, jpeg),
        None => Seq::empty(),
    }
}

pub fn show_thumbnail(made: Option<(Vec<u8>, bool)>) -> (r: String)
    ensures
        r@ == thumbnail_url(written_view(made)),
{
    match made {
        Some((jpeg, _)) => make_data_url("data:image/jpeg;base64,", &jpeg),
        None => {
            let r = String::new();
            proof {
                assert(r@ =~= Seq::empty());
            }
            r
        },
    }
}

/// The small picture of an attachment as a `data:` URL, empty for what is no picture; `fitted` is
/// the size for a picture that is larger.
pub fn attachment_thumbnail(bytes: &Vec<u8>, fitted: (u32, u32)) -> (r: String)
    requires
        fitted.0 <= 480,
        fitted.1 <= 480,
    ensures
        exists|made: Option<(Seq<u8>, bool)>| #[trigger]
            is_shrunk_jpeg(bytes@, 480, fitted, made) && r@ == thumbnail_url(made),
{
    let made = shrink_jpeg(bytes, ATTACHMENT_THUMB_MAX, fitted);
    proof {
        assert(is_shrunk_jpeg(bytes@, 480, fitted, written_view(made)));
    }
    show_thumbnail(made)
}

/// The small picture of a sticker in base64, empty for what is no picture. `made` is what was
/// written of it.
pub open spec fn sticker_text(made: Option<(Seq<u8>, bool)>) -> Seq<char> {
    match made {
        Some((jpeg, _)) => base64_text(jpeg),
        None => Seq::empty(),
    }
}

pub fn show_sticker(made: Option<(Vec<u8>, bool)>) -> (r: String)
    ensures
        r@ == sticker_text(written_view(made)),
{
    match made {
        Some((jpeg, _)) => base64_encode(&jpeg),
        None => {
            let r = String::new();
            proof {
                assert(r@ =~= Seq::empty());
            }
            r
        },
    }
}

/// The small picture of a sticker in base64, empty for what is no picture; `fitted` is the size for
/// a picture that is larger.
pub fn sticker_thumbnail(bytes: &Vec<u8>, fitted: (u32, u32)) -> (r: String)
    requires
        fitted.0 <= 480,
        fitted.1 <= 480,
    ensures
        exists|made: Option<(Seq<u8>, bool)>| #[trigger]
            is_shrunk_jpeg(bytes@, 480, fitted, made) && r@ == sticker_text(made),
{
    let made = shrink_jpeg(bytes, ATTACHMENT_THUMB_MAX, fitted);
    proof {
        assert(is_shrunk_jpeg(bytes@, 480, fitted, written_view(made)));
    }
    show_sticker(made)
}

/// The small picture of a message; `fitted` is the size for a picture that is larger.
pub fn message_thumbnail(bytes: &Vec<u8>, fitted: (u32, u32)) -> (r: Option<Vec<u8>>)
    requires
        fitted.0 <= 256,
        fitted.1 <= 256,
    ensures
        is_shrunk_png(bytes@, 256, fitted, bytes_view(r)),
{
    shrink_png(bytes, MESSAGE_THUMB_MAX, fitted)
}

/// The picture of a link preview, prepared for the cache. A file that is too large is not taken.
pub fn preview_jpeg(raw: &Vec<u8>, fitted: (u32, u32)) -> (r: Option<Vec<u8>>)
    requires
        fitted.0 <= 1024,
        fitted.1 <= 1024,
    ensures
        if raw@.len() > 3_000_000 {
            r is None
        } else {
            exists|made: Option<(Seq<u8>, bool)>| #[trigger]
                is_shrunk_jpeg(raw@, 1024, fitted, made) && bytes_view(r) == whole(made)
        },
{
    if raw.len() > PREVIEW_MAX_IMAGE_BYTES {
        return None;
    }
    let made = shrink_jpeg(raw, PREVIEW_IMAGE_MAX_DIM, fitted);
    proof {
        assert(is_shrunk_jpeg(raw@, 1024, fitted, written_view(made)));
    }
    keep_whole(made)
}

/// A prepared picture from the cache counts if it is a picture; an empty or broken one does not.
pub fn cached_preview(bytes: Option<Vec<u8>>) -> (r: Option<Vec<u8>>)
    ensures
        r == match bytes {
            Some(b) => if b@.len() > 0 && image_size(b@) is Some {
                Some(b)
            } else {
                None
            },
            None => None,
        },
{
    match bytes {
        Some(b) => {
            if b.len() > 0 && read_image_size(&b).is_some() {
                Some(b)
            } else {
                None
            }
        },
        None => None,
    }
}

/// A file found in the cache at the start is shown as a picture if it is one and not too large.
pub fn cached_picture(bytes: Option<Vec<u8>>) -> (r: Option<Vec<u8>>)
    ensures
        r == match bytes {
            Some(b) => if b@.len() <= 50_000_000 && image_size(b@) is Some {
                Some(b)
            } else {
                None
            },
            None => None,
        },
{
    match bytes {
        Some(b) => {
            if b.len() <= 50_000_000 && read_image_size(&b).is_some() {
                Some(b)
            } else {
                None
            }
        },
        None => None,
    }
}

} // verus!
