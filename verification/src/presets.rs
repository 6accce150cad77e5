//! The closed sets of transform presets and output formats, and what each
//! preset does to an image.

use vstd::prelude::*;
use crate::errors::{CdnError, CdnErrorView};
use crate::text::{free_of, same_text};

verus! {

/// Width of an avatar, in pixels.
pub const AVATAR_WIDTH: u32 = 256;

/// Height of an avatar, in pixels.
pub const AVATAR_HEIGHT: u32 = 256;

/// Width of a feed thumbnail, in pixels.
pub const THUMBNAIL_WIDTH: u32 = 256;

/// Height of a feed thumbnail, in pixels.
pub const THUMBNAIL_HEIGHT: u32 = 256;

/// The named transforms a blob can be requested in.
#[derive(Clone, Copy, Debug, PartialEq, Eq, Structural)]
pub enum ImagePreset {
    FeedThumbnail,
    FeedFullsize,
    Avatar,
}

/// The encodings a blob can be delivered in.
#[derive(Clone, Copy, Debug, PartialEq, Eq, Structural)]
pub enum ImageFormat {
    JPEG,
    PNG,
    WEBP,
}

/// Width and height of a decoded image, in pixels.
#[derive(Clone, Copy, Debug, PartialEq, Eq, Structural)]
pub struct ImageSize {
    pub width: u32,
    pub height: u32,
}

/// The fixed policy of a preset.
#[derive(Clone, Copy, Debug, PartialEq, Eq, Structural)]
pub enum Resize {
    /// The image passes through unchanged.
    Keep,
    /// The image is scaled until it covers the box, and what hangs over is
    /// cut off.
    Cover { width: u32, height: u32 },
}

/// A rectangle of pixels inside an image.
#[derive(Clone, Copy, Debug, PartialEq, Eq, Structural)]
pub struct Crop {
    pub left: u32,
    pub top: u32,
    pub width: u32,
    pub height: u32,
}

/// What is to be done to one image of a known size.
#[derive(Clone, Copy, Debug, PartialEq, Eq, Structural)]
pub enum Transform {
    /// Nothing: the image is encoded as it is.
    Identity,
    /// Cut `crop` out of the image, then scale it to `width` by `height`.
    CropResize { crop: Crop, width: u32, height: u32 },
}

/// `n`, or 1 where `n` is smaller.
pub open spec fn at_least_one(n: int) -> int {
    if n < 1 {
        1
    } else {
        n
    }
}

/// The largest centred rectangle of an image that has the proportions of a
/// `width` by `height` box.
///
/// An image that is relatively wider than the box keeps its full height and
/// loses the same number of columns on both sides, give or take one; a
/// relatively taller one keeps its full width.
pub open spec fn cover_crop(size: ImageSize, width: u32, height: u32) -> Crop
    recommends
        size.width > 0,
        size.height > 0,
        width > 0,
        height > 0,
{
    if size.width * height >= size.height * width {
        let kept = at_least_one((size.height * width) / (height as int));
        Crop { left: ((size.width - kept) / 2) as u32, top: 0, width: kept as u32, height: size.height }
    } else {
        let kept = at_least_one((size.width * height) / (width as int));
        Crop { left: 0, top: ((size.height - kept) / 2) as u32, width: size.width, height: kept as u32 }
    }
}

/// Whole-number division of a product: the quotient of `a * b` by `c` is the
/// largest `q` with `q * c <= a * b`, and no more than `d` where
/// `a * b <= d * c`.
proof fn lemma_scaled(a: int, b: int, c: int, d: int)
    requires
        a >= 0,
        b >= 0,
        c > 0,
        a * b <= d * c,
    ensures
        0 <= (a * b) / c <= d,
        ((a * b) / c) * c <= a * b,
        ((a * b) / c + 1) * c > a * b,
{
    let n = a * b;
    assert(n >= 0) by (nonlinear_arith)
        requires
            n == a * b,
            a >= 0,
            b >= 0,
    ;
    let q = n / c;
    assert(q >= 0 && q * c <= n && (q + 1) * c > n) by (nonlinear_arith)
        requires
            q == n / c,
            n >= 0,
            c > 0,
    ;
    assert(q <= d) by (nonlinear_arith)
        requires
            q * c <= n,
            n <= d * c,
            c > 0,
    ;
}

/// The rectangle of `cover_crop` lies inside the image, is not empty, spans
/// the image in one direction and is centred in the other. In that other
/// direction it is the longest that stays within the box's proportions, or one
/// pixel where even one is too long; a pixel more would always exceed them.
pub proof fn lemma_cover_crop_fits(size: ImageSize, width: u32, height: u32)
    requires
        size.width > 0,
        size.height > 0,
        width > 0,
        height > 0,
    ensures
        ({
            let crop = cover_crop(size, width, height);
            &&& crop.width >= 1
            &&& crop.height >= 1
            &&& crop.left + crop.width <= size.width
            &&& crop.top + crop.height <= size.height
            &&& (crop.width == size.width || crop.height == size.height)
            &&& crop.left == (size.width - crop.width) / 2
            &&& crop.top == (size.height - crop.height) / 2
            &&& if size.width * height >= size.height * width {
                &&& crop.height == size.height
                &&& (crop.width + 1) * height > crop.height * width
                &&& crop.width > 1 ==> crop.width * height <= crop.height * width
            } else {
                &&& crop.width == size.width
                &&& (crop.height + 1) * width > crop.width * height
                &&& crop.height > 1 ==> crop.height * width <= crop.width * height
            }
        }),
{
    let w = size.width as int;
    let h = size.height as int;
    let bw = width as int;
    let bh = height as int;
    let crop = cover_crop(size, width, height);
    if w * bh >= h * bw {
        lemma_scaled(h, bw, bh, w);
        let q = (h * bw) / bh;
        let kept = at_least_one(q);
        assert(1 <= kept <= w);
        assert(crop.width == kept);
        assert(crop.height == h);
        assert(crop.left == (w - kept) / 2);
        assert((kept + 1) * bh > h * bw) by (nonlinear_arith)
            requires
                kept >= q,
                (q + 1) * bh > h * bw,
                bh > 0,
        ;
    } else {
        lemma_scaled(w, bh, bw, h);
        let q = (w * bh) / bw;
        let kept = at_least_one(q);
        assert(1 <= kept <= h);
        assert(crop.height == kept);
        assert(crop.width == w);
        assert(crop.top == (h - kept) / 2);
        assert((kept + 1) * bw > w * bh) by (nonlinear_arith)
            requires
                kept >= q,
                (q + 1) * bw > w * bh,
                bw > 0,
        ;
    }
}

/// Computes `cover_crop`.
fn cover(size: ImageSize, width: u32, height: u32) -> (crop: Crop)
    requires
        size.width > 0,
        size.height > 0,
        width > 0,
        height > 0,
    ensures
        crop == cover_crop(size, width, height),
{
    let w: u64 = size.width as u64;
    let h: u64 = size.height as u64;
    let bw: u64 = width as u64;
    let bh: u64 = height as u64;
    assert(w * bh <= 0xffff_ffff * 0xffff_ffff && h * bw <= 0xffff_ffff * 0xffff_ffff)
        by (nonlinear_arith)
        requires
            0 <= w <= 0xffff_ffff,
            0 <= h <= 0xffff_ffff,
            0 <= bw <= 0xffff_ffff,
            0 <= bh <= 0xffff_ffff,
    ;
    if w * bh >= h * bw {
        proof {
            lemma_scaled(h as int, bw as int, bh as int, w as int);
        }
        let q: u64 = (h * bw) / bh;
        let kept: u64 = if q < 1 { 1 } else { q };
        Crop { left: ((w - kept) / 2) as u32, top: 0, width: kept as u32, height: size.height }
    } else {
        proof {
            lemma_scaled(w as int, bh as int, bw as int, h as int);
        }
        let q: u64 = (w * bh) / bw;
        let kept: u64 = if q < 1 { 1 } else { q };
        Crop { left: 0, top: ((h - kept) / 2) as u32, width: size.width, height: kept as u32 }
    }
}

impl ImagePreset {
    /// The name of the preset in a request path and in a cache key.
    pub open spec fn name(self) -> Seq<char> {
        match self {
            ImagePreset::FeedThumbnail => "feed_thumbnail"@,
            ImagePreset::FeedFullsize => "feed_fullsize"@,
            ImagePreset::Avatar => "avatar"@,
        }
    }

    /// What the preset does to an image.
    pub open spec fn policy(self) -> Resize {
        match self {
            ImagePreset::FeedThumbnail => Resize::Cover {
                width: THUMBNAIL_WIDTH,
                height: THUMBNAIL_HEIGHT,
            },
            ImagePreset::FeedFullsize => Resize::Keep,
            ImagePreset::Avatar => Resize::Cover { width: AVATAR_WIDTH, height: AVATAR_HEIGHT },
        }
    }

    /// What the preset asks for an image of the given size, where it can be
    /// done: a pass-through always can, a resize needs a pixel to start from.
    pub open spec fn transform_of(self, size: ImageSize) -> Option<Transform> {
        match self.policy() {
            Resize::Keep => Some(Transform::Identity),
            Resize::Cover { width, height } => if size.width > 0 && size.height > 0 {
                Some(Transform::CropResize { crop: cover_crop(size, width, height), width, height })
            } else {
                None
            },
        }
    }

    /// The preset of the given name, if there is one.
    pub open spec fn named(name: Seq<char>) -> Option<ImagePreset> {
        if name == ImagePreset::FeedThumbnail.name() {
            Some(ImagePreset::FeedThumbnail)
        } else if name == ImagePreset::FeedFullsize.name() {
            Some(ImagePreset::FeedFullsize)
        } else if name == ImagePreset::Avatar.name() {
            Some(ImagePreset::Avatar)
        } else {
            None
        }
    }

    /// The name of the preset in a request path and in a cache key.
    pub fn as_str(self) -> (name: &'static str)
        ensures
            name@ == self.name(),
    {
        match self {
            ImagePreset::FeedThumbnail => "feed_thumbnail",
            ImagePreset::FeedFullsize => "feed_fullsize",
            ImagePreset::Avatar => "avatar",
        }
    }

    /// Reads a path segment: the preset of that name, if there is one.
    pub fn parse(segment: &str) -> (preset: Option<ImagePreset>)
        ensures
            preset == ImagePreset::named(segment@),
    {
        if same_text(segment, "feed_thumbnail") {
            Some(ImagePreset::FeedThumbnail)
        } else if same_text(segment, "feed_fullsize") {
            Some(ImagePreset::FeedFullsize)
        } else if same_text(segment, "avatar") {
            Some(ImagePreset::Avatar)
        } else {
            None
        }
    }

    /// The fixed policy of the preset.
    pub fn resize(self) -> (policy: Resize)
        ensures
            policy == self.policy(),
    {
        match self {
            ImagePreset::FeedThumbnail => Resize::Cover {
                width: THUMBNAIL_WIDTH,
                height: THUMBNAIL_HEIGHT,
            },
            ImagePreset::FeedFullsize => Resize::Keep,
            ImagePreset::Avatar => Resize::Cover { width: AVATAR_WIDTH, height: AVATAR_HEIGHT },
        }
    }

    /// Applies the preset's policy to an image of the given size.
    ///
    /// The full-size preset leaves every image as it is. The others take the
    /// centred rectangle with the proportions of their box and scale it to the
    /// box; an image without pixels cannot be resized and is refused.
    pub fn process(self, size: ImageSize) -> (outcome: Result<Transform, CdnError>)
        ensures
            match outcome {
                Ok(transform) => self.transform_of(size) == Some(transform),
                Err(e) => self.transform_of(size).is_none() && e@ == CdnErrorView::TransformFailed(
                    "image has no pixels"@,
                ),
            },
    {
        match self.resize() {
            Resize::Keep => Ok(Transform::Identity),
            Resize::Cover { width, height } => {
                if size.width > 0 && size.height > 0 {
                    Ok(Transform::CropResize { crop: cover(size, width, height), width, height })
                } else {
                    Err(CdnError::TransformFailed("image has no pixels".to_owned()))
                }
            },
        }
    }
}

impl ImageFormat {
    /// The name of the format in a request path and in a cache key.
    pub open spec fn name(self) -> Seq<char> {
        match self {
            ImageFormat::JPEG => "jpeg"@,
            ImageFormat::PNG => "png"@,
            ImageFormat::WEBP => "webp"@,
        }
    }

    /// The MIME type of the format.
    pub open spec fn mime_type(self) -> Seq<char> {
        match self {
            ImageFormat::JPEG => "image/jpeg"@,
            ImageFormat::PNG => "image/png"@,
            ImageFormat::WEBP => "image/webp"@,
        }
    }

    /// The format of the given name, if there is one.
    pub open spec fn named(name: Seq<char>) -> Option<ImageFormat> {
        if name == ImageFormat::JPEG.name() {
            Some(ImageFormat::JPEG)
        } else if name == ImageFormat::PNG.name() {
            Some(ImageFormat::PNG)
        } else if name == ImageFormat::WEBP.name() {
            Some(ImageFormat::WEBP)
        } else {
            None
        }
    }

    /// The name of the format in a request path and in a cache key.
    pub fn as_str(self) -> (name: &'static str)
        ensures
            name@ == self.name(),
    {
        match self {
            ImageFormat::JPEG => "jpeg",
            ImageFormat::PNG => "png",
            ImageFormat::WEBP => "webp",
        }
    }

    /// Reads a path segment: the format of that name, if there is one.
    pub fn parse(segment: &str) -> (format: Option<ImageFormat>)
        ensures
            format == ImageFormat::named(segment@),
    {
        if same_text(segment, "jpeg") {
            Some(ImageFormat::JPEG)
        } else if same_text(segment, "png") {
            Some(ImageFormat::PNG)
        } else if same_text(segment, "webp") {
            Some(ImageFormat::WEBP)
        } else {
            None
        }
    }

    /// The canonical MIME type string sent with a blob of this format.
    pub fn to_mime_type(self) -> (mime: &'static str)
        ensures
            mime@ == self.mime_type(),
    {
        match self {
            ImageFormat::JPEG => "image/jpeg",
            ImageFormat::PNG => "image/png",
            ImageFormat::WEBP => "image/webp",
        }
    }
}

/// No two presets share a name, a name is read as its preset and nothing
/// else is, and no name holds the `/` that separates the parts of a cache key.
pub proof fn lemma_preset_names(p: ImagePreset, q: ImagePreset, text: Seq<char>)
    ensures
        p.name() == q.name() <==> p == q,
        ImagePreset::named(text) == Some(p) <==> text == p.name(),
        free_of(p.name(), '/'),
{
    reveal_strlit("feed_thumbnail");
    reveal_strlit("feed_fullsize");
    reveal_strlit("avatar");
    assert("feed_thumbnail"@.len() == 14);
    assert("feed_fullsize"@.len() == 13);
    assert("avatar"@.len() == 6);
}

/// No two formats share a name, a name is read as its format and nothing else
/// is, and no name holds the `.` that precedes the format in a cache key.
pub proof fn lemma_format_names(f: ImageFormat, g: ImageFormat, text: Seq<char>)
    ensures
        f.name() == g.name() <==> f == g,
        ImageFormat::named(text) == Some(f) <==> text == f.name(),
        free_of(f.name(), '.'),
{
    reveal_strlit("jpeg");
    reveal_strlit("png");
    reveal_strlit("webp");
    assert("jpeg"@[0] == 'j');
    assert("png"@[0] == 'p');
    assert("webp"@[0] == 'w');
}

} // verus!
