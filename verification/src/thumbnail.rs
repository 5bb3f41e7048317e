//! Downscaled previews of images: what size and format a preview gets, and the image
//! crate's decoding, scaling and encoding.
use vstd::prelude::*;

verus! {

/// The largest width and height of an image that is decoded, and the most memory
/// its decoding may take.
pub const MAX_DECODED_EDGE: u32 = 16384;

pub const MAX_DECODE_ALLOCATION: u64 = 268435456;

/// What the image `source` decodes to under the given limits: its width, height and
/// whether its colour type has alpha; `None` where it does not decode.
pub uninterp spec fn decoded_shape(source: Seq<u8>, max_width: u32, max_height: u32, max_alloc: u64) -> Option<(u32, u32, bool)>;

/// The PNG bytes of the image `source` decodes to under the limits, scaled down by
/// `DynamicImage::thumbnail` to fit `edge` by `edge`; `None` where decoding or
/// encoding fails.
pub uninterp spec fn png_preview(source: Seq<u8>, max_width: u32, max_height: u32, max_alloc: u64, edge: u32) -> Option<Seq<u8>>;

/// The JPEG bytes, at `quality`, of the RGB pixels of the image `source` decodes to
/// under the limits, scaled down by `DynamicImage::thumbnail` to fit `edge` by
/// `edge`; `None` where decoding or encoding fails.
pub uninterp spec fn jpeg_preview(
    source: Seq<u8>,
    max_width: u32,
    max_height: u32,
    max_alloc: u64,
    edge: u32,
    quality: u8,
) -> Option<Seq<u8>>;

/// `image::ImageReader` over `source` with its format guessed and the given limits,
/// then `decode`: the image's width, height and whether its colour type has alpha,
/// which depend on the bytes and the limits alone; or the error's message.
#[verifier::external_body]
fn decode_shape(source: &[u8], max_width: u32, max_height: u32, max_alloc: u64) -> (r: Result<(u32, u32, bool), String>)
    ensures
        match r {
            Ok(shape) => decoded_shape(source@, max_width, max_height, max_alloc) == Some(shape),
            Err(_) => decoded_shape(source@, max_width, max_height, max_alloc) is None,
        },
{
    let mut reader = image::ImageReader::new(std::io::Cursor::new(source)).with_guessed_format().map_err(|e| e.to_string())?;
    let mut limits = image::Limits::default();
    (limits.max_image_width, limits.max_image_height, limits.max_alloc) = (Some(max_width), Some(max_height), Some(max_alloc));
    reader.limits(limits);
    let image = reader.decode().map_err(|e| e.to_string())?;
    Ok((image.width(), image.height(), image.color().has_alpha()))
}

/// The same decoding, then `DynamicImage::thumbnail` to fit `edge` by `edge` and
/// `write_to` in PNG: the encoded bytes, or the error's message.
#[verifier::external_body]
fn encode_png_preview(source: &[u8], max_width: u32, max_height: u32, max_alloc: u64, edge: u32) -> (r: Result<Vec<u8>, String>)
    ensures
        match r {
            Ok(bytes) => png_preview(source@, max_width, max_height, max_alloc, edge) == Some(bytes@),
            Err(_) => png_preview(source@, max_width, max_height, max_alloc, edge) is None,
        },
{
    let mut reader = image::ImageReader::new(std::io::Cursor::new(source)).with_guessed_format().map_err(|e| e.to_string())?;
    let mut limits = image::Limits::default();
    (limits.max_image_width, limits.max_image_height, limits.max_alloc) = (Some(max_width), Some(max_height), Some(max_alloc));
    reader.limits(limits);
    let thumb = reader.decode().map_err(|e| e.to_string())?.thumbnail(edge, edge);
    let mut bytes = Vec::new();
    thumb.write_to(std::io::Cursor::new(&mut bytes), image::ImageFormat::Png).map_err(|e| e.to_string())?;
    Ok(bytes)
}

/// The same decoding, then `DynamicImage::thumbnail` to fit `edge` by `edge` and
/// `JpegEncoder::new_with_quality(quality).encode_image` of its RGB pixels: the
/// encoded bytes, or the error's message.
#[verifier::external_body]
fn encode_jpeg_preview(source: &[u8], max_width: u32, max_height: u32, max_alloc: u64, edge: u32, quality: u8) -> (r: Result<Vec<u8>, String>)
    ensures
        match r {
            Ok(bytes) => jpeg_preview(source@, max_width, max_height, max_alloc, edge, quality) == Some(bytes@),
            Err(_) => jpeg_preview(source@, max_width, max_height, max_alloc, edge, quality) is None,
        },
{
    let mut reader = image::ImageReader::new(std::io::Cursor::new(source)).with_guessed_format().map_err(|e| e.to_string())?;
    let mut limits = image::Limits::default();
    (limits.max_image_width, limits.max_image_height, limits.max_alloc) = (Some(max_width), Some(max_height), Some(max_alloc));
    reader.limits(limits);
    let thumb = reader.decode().map_err(|e| e.to_string())?.thumbnail(edge, edge);
    let mut bytes = Vec::new();
    let mut encoder = image::codecs::jpeg::JpegEncoder::new_with_quality(&mut bytes, quality);
    encoder.encode_image(&thumb.to_rgb8()).map_err(|e| e.to_string())?;
    Ok(bytes)
}

/// How a preview of a `width` by `height` image is made for the longest edge
/// `max_edge`: it is never larger than the image; images with alpha become PNG, the
/// rest JPEG, of higher quality for screen-sized previews.
pub struct PreviewPlan {
    pub edge: u32,
    pub png: bool,
    pub quality: u8,
}

pub open spec fn preview_plan(width: u32, height: u32, alpha: bool, max_edge: u32) -> PreviewPlan {
    let longest = if width > height { width } else { height };
    let edge = if max_edge < longest { max_edge } else { longest };
    PreviewPlan {
        edge,
        png: alpha,
        quality: if edge > crate::routing::GALLERY_THUMBNAIL_MAX_EDGE { 86 } else { 82 },
    }
}

pub fn plan_preview(width: u32, height: u32, alpha: bool, max_edge: u32) -> (r: PreviewPlan)
    ensures
        r == preview_plan(width, height, alpha, max_edge),
{
    let longest = if width > height { width } else { height };
    let edge = if max_edge < longest { max_edge } else { longest };
    PreviewPlan {
        edge,
        png: alpha,
        quality: if edge > crate::routing::GALLERY_THUMBNAIL_MAX_EDGE { 86 } else { 82 },
    }
}

/// The preview of the image `source`, no larger than `max_edge`, as planned from the
/// decoded image: its bytes and MIME type, PNG for images with alpha and JPEG for the
/// rest; `None` where decoding or encoding fails.
pub open spec fn thumbnail_outcome(source: Seq<u8>, max_edge: u32) -> Option<(Seq<u8>, Seq<char>)> {
    match decoded_shape(source, MAX_DECODED_EDGE, MAX_DECODED_EDGE, MAX_DECODE_ALLOCATION) {
        None => None,
        Some((width, height, alpha)) => {
            let plan = preview_plan(width, height, alpha, max_edge);
            let bytes = if plan.png {
                png_preview(source, MAX_DECODED_EDGE, MAX_DECODED_EDGE, MAX_DECODE_ALLOCATION, plan.edge)
            } else {
                jpeg_preview(source, MAX_DECODED_EDGE, MAX_DECODED_EDGE, MAX_DECODE_ALLOCATION, plan.edge, plan.quality)
            };
            match bytes {
                Some(b) => Some((b, if plan.png { "image/png"@ } else { "image/jpeg"@ })),
                None => None,
            }
        },
    }
}

/// The preview of the image `source`, no larger than `max_edge`: its bytes and MIME
/// type, PNG for images with alpha and JPEG for the rest; or why it failed.
pub fn render_image_thumbnail(source: &[u8], max_edge: u32) -> (r: Result<(Vec<u8>, &'static str), String>)
    ensures
        match r {
            Ok((bytes, content_type)) => thumbnail_outcome(source@, max_edge) == Some((bytes@, content_type@)),
            Err(_) => thumbnail_outcome(source@, max_edge) is None,
        },
{
    let (width, height, alpha) = match decode_shape(source, MAX_DECODED_EDGE, MAX_DECODED_EDGE, MAX_DECODE_ALLOCATION) {
        Ok(shape) => shape,
        Err(e) => return Err(e),
    };
    let plan = plan_preview(width, height, alpha, max_edge);
    if plan.png {
        match encode_png_preview(source, MAX_DECODED_EDGE, MAX_DECODED_EDGE, MAX_DECODE_ALLOCATION, plan.edge) {
            Ok(bytes) => {
                proof {
                    reveal_strlit("image/png");
                }
                Ok((bytes, "image/png"))
            },
            Err(e) => Err(e),
        }
    } else {
        match encode_jpeg_preview(source, MAX_DECODED_EDGE, MAX_DECODED_EDGE, MAX_DECODE_ALLOCATION, plan.edge, plan.quality) {
            Ok(bytes) => {
                proof {
                    reveal_strlit("image/jpeg");
                }
                Ok((bytes, "image/jpeg"))
            },
            Err(e) => Err(e),
        }
    }
}

/// The answer to a thumbnail request for the image at `path` of `size` bytes: `None`
/// when one is made, else the refusal (`415` for what is not a raster image, `413`
/// for an empty or oversized one).
pub open spec fn thumbnail_refusal(path: Seq<char>, size: u64, head_only: bool) -> Option<crate::routing::ReplyView> {
    if !crate::kinds::is_raster_path(path) {
        Some(crate::routing::reply(415, "Unsupported Media Type"@, "该文件不支持缩略图\n"@, head_only))
    } else if size == 0 || size > crate::kinds::MAX_THUMBNAIL_SOURCE {
        Some(crate::routing::reply(413, "Content Too Large"@, "图片超过 64 MB，无法生成预览图\n"@, head_only))
    } else {
        None
    }
}

pub fn check_thumbnail(path: &str, size: u64, head_only: bool) -> (r: Option<crate::routing::Reply>)
    ensures
        match r {
            Some(reply) => thumbnail_refusal(path@, size, head_only) == Some(reply@),
            None => thumbnail_refusal(path@, size, head_only) is None,
        },
{
    if !crate::kinds::is_raster_image(path) {
        Some(crate::routing::Reply {
            status: 415,
            reason: crate::text::string_of(crate::text::chars_of("Unsupported Media Type").as_slice()),
            body: crate::text::string_of(crate::text::chars_of("该文件不支持缩略图\n").as_slice()),
            head_only,
        })
    } else if size == 0 || size > crate::kinds::MAX_THUMBNAIL_SOURCE {
        Some(crate::routing::Reply {
            status: 413,
            reason: crate::text::string_of(crate::text::chars_of("Content Too Large").as_slice()),
            body: crate::text::string_of(crate::text::chars_of("图片超过 64 MB，无法生成预览图\n").as_slice()),
            head_only,
        })
    } else {
        None
    }
}

/// The entity tag of a preview: the image's version and the preview's size.
pub open spec fn preview_etag(version: Seq<char>, max_edge: u32) -> Seq<char> {
    "\""@ + version + "-"@ + crate::respond::decimal(max_edge as nat) + "\""@
}

pub fn preview_tag(version: &str, max_edge: u32) -> (r: String)
    ensures
        r@ == preview_etag(version@, max_edge),
{
    let mut r = String::new();
    crate::text::push_str(&mut r, "\"");
    crate::text::push_str(&mut r, version);
    crate::text::push_str(&mut r, "-");
    crate::respond::push_decimal(&mut r, max_edge as u64);
    crate::text::push_str(&mut r, "\"");
    proof {
        assert(r@ =~= preview_etag(version@, max_edge));
    }
    r
}

/// The entity tag of an original image: its version in quotes.
pub open spec fn image_etag(version: Seq<char>) -> Seq<char> {
    "\""@ + version + "\""@
}

pub fn image_tag(version: &str) -> (r: String)
    ensures
        r@ == image_etag(version@),
{
    let mut r = String::new();
    crate::text::push_str(&mut r, "\"");
    crate::text::push_str(&mut r, version);
    crate::text::push_str(&mut r, "\"");
    proof {
        assert(r@ =~= image_etag(version@));
    }
    r
}

/// The head of the answer with an image or its preview of `length` bytes, whose
/// version is `version` and entity tag `tag`: tags and long-lived caching only with
/// the image cache, and caching for good only when the request named the current
/// version.
pub open spec fn versioned_head(
    length: u64,
    content_type: Seq<char>,
    tag: Seq<char>,
    version: Seq<char>,
    cache_enabled: bool,
    requested_version: Option<Seq<char>>,
    if_none_match: Seq<char>,
) -> (Seq<char>, bool) {
    crate::respond::image_head(
        length,
        content_type,
        if cache_enabled {
            Some(tag)
        } else {
            None
        },
        if_none_match,
        cache_enabled && requested_version == Some(version),
    )
}

pub fn versioned_headers(
    length: u64,
    content_type: &str,
    tag: &str,
    version: &str,
    cache_enabled: bool,
    requested_version: Option<&str>,
    if_none_match: &str,
) -> (r: (String, bool))
    ensures
        (r.0@, r.1) == versioned_head(
            length,
            content_type@,
            tag@,
            version@,
            cache_enabled,
            crate::kinds::opt_view(requested_version),
            if_none_match@,
        ),
{
    let immutable = cache_enabled && match requested_version {
        Some(v) => {
            let vc = crate::text::chars_of(v);
            crate::text::is_text(vc.as_slice(), version)
        },
        None => false,
    };
    let etag = if cache_enabled {
        Some(tag)
    } else {
        None
    };
    crate::respond::image_headers(length, content_type, etag, if_none_match, immutable)
}

} // verus!
