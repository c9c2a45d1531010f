//! Texture settings and the pixel data a texture is created from.

use vstd::prelude::*;
use image::{ColorType, DynamicImage, GenericImageView};
use crate::gl_enums::{
    CLAMP_TO_BORDER, NEAREST, NEAREST_MIPMAP_LINEAR, RGB, RGBA, TEXTURE0, TEXTURE_2D,
    TEXTURE_MAG_FILTER, TEXTURE_MIN_FILTER, TEXTURE_WRAP_S, TEXTURE_WRAP_T,
};

verus! {

#[verifier::external_type_specification]
#[verifier::external_body]
pub struct ExDynamicImage(DynamicImage);

/// The color layouts that decide a texture's pixel format.
#[derive(Clone, Copy, PartialEq, Eq, Structural, Debug)]
pub enum ColorKind {
    Rgb8,
    Rgba8,
    Other,
}

/// The color layout of a decoded image, as `DynamicImage::color` reports it.
pub uninterp spec fn color_kind_of(image: DynamicImage) -> ColorKind;

/// The image mirrored left to right, as `DynamicImage::fliph` makes it.
pub uninterp spec fn fliph_of(image: DynamicImage) -> DynamicImage;

/// The image mirrored top to bottom, as `DynamicImage::flipv` makes it.
pub uninterp spec fn flipv_of(image: DynamicImage) -> DynamicImage;

/// Width and height of an image, as `GenericImageView::dimensions` gives them.
pub uninterp spec fn dimensions_of(image: DynamicImage) -> (u32, u32);

/// The pixels of an image as native-endian bytes, as `DynamicImage::as_bytes`
/// gives them.
pub uninterp spec fn bytes_of(image: DynamicImage) -> Seq<u8>;

/// Relies on `DynamicImage::color`: tells the 8-bit RGB and RGBA layouts
/// from the others; the layout depends on the image alone.
#[verifier::external_body]
fn color_kind(image: &DynamicImage) -> (r: ColorKind)
    ensures
        r == color_kind_of(*image),
{
    match image.color() {
        ColorType::Rgb8 => ColorKind::Rgb8,
        ColorType::Rgba8 => ColorKind::Rgba8,
        _ => ColorKind::Other,
    }
}

/// Relies on `DynamicImage::fliph`: the image mirrored left to right.
#[verifier::external_body]
fn flip_horizontal(image: &DynamicImage) -> (r: DynamicImage)
    ensures
        r == fliph_of(*image),
{
    image.fliph()
}

/// Relies on `DynamicImage::flipv`: the image mirrored top to bottom.
#[verifier::external_body]
fn flip_vertical(image: &DynamicImage) -> (r: DynamicImage)
    ensures
        r == flipv_of(*image),
{
    image.flipv()
}

/// Relies on `GenericImageView::dimensions` of `DynamicImage`.
#[verifier::external_body]
fn image_dimensions(image: &DynamicImage) -> (r: (u32, u32))
    ensures
        r == dimensions_of(*image),
{
    image.dimensions()
}

/// Relies on `DynamicImage::as_bytes`: the pixels as native-endian bytes.
#[verifier::external_body]
fn image_bytes(image: &DynamicImage) -> (r: Vec<u8>)
    ensures
        r@ == bytes_of(*image),
{
    image.as_bytes().to_vec()
}

/// The image mirrored left to right if `h`, then top to bottom if `v`.
pub open spec fn flipped(image: DynamicImage, h: bool, v: bool) -> DynamicImage {
    let after_h = if h { fliph_of(image) } else { image };
    if v { flipv_of(after_h) } else { after_h }
}

/// The pixel format a texture gets for an image of the given color layout.
pub open spec fn color_format(kind: ColorKind) -> u32 {
    match kind {
        ColorKind::Rgba8 => RGBA,
        _ => RGB,
    }
}

/// Pixel format for an image's color layout: RGBA for 8-bit RGBA, RGB for
/// everything else.
pub fn format_for_color(kind: ColorKind) -> (r: u32)
    ensures
        r == color_format(kind),
{
    match kind {
        ColorKind::Rgb8 => RGB,
        ColorKind::Rgba8 => RGBA,
        ColorKind::Other => RGB,
    }
}

/// Where a texture's pixels come from.
pub enum TextureData {
    /// Tightly packed 8-bit pixels, row after row.
    Raw { data: Vec<u8>, width: u32, height: u32 },
    /// A decoded image, mirrored as asked before upload.
    Image { image: DynamicImage, flip_v: bool, flip_h: bool },
    /// No pixels: storage is left unspecified.
    Empty,
}

/// Pixels ready for `glTexImage2D`.
pub struct TexturePixels {
    pub data: Vec<u8>,
    pub width: u32,
    pub height: u32,
}

impl TextureData {
    /// The pixels to upload: raw data as given, an image after its flips
    /// (horizontal first), nothing for `Empty`.
    pub fn into_pixels(self) -> (r: Option<TexturePixels>)
        ensures
            match self {
                TextureData::Raw { data, width, height } => r.is_some() && r.unwrap().data@
                    == data@ && r.unwrap().width == width && r.unwrap().height == height,
                TextureData::Image { image, flip_v, flip_h } => r.is_some() && r.unwrap().data@
                    == bytes_of(flipped(image, flip_h, flip_v)) && (r.unwrap().width, r.unwrap().height)
                    == dimensions_of(flipped(image, flip_h, flip_v)),
                TextureData::Empty => r.is_none(),
            },
    {
        match self {
            TextureData::Raw { data, width, height } => Some(TexturePixels { data, width, height }),
            TextureData::Image { image, flip_v, flip_h } => {
                let mut image = image;
                if flip_h {
                    image = flip_horizontal(&image);
                }
                if flip_v {
                    image = flip_vertical(&image);
                }
                let (width, height) = image_dimensions(&image);
                Some(TexturePixels { data: image_bytes(&image), width, height })
            },
            TextureData::Empty => None,
        }
    }
}

/// Settings of a texture to be created, and its pixels.
pub struct TextureBuilder {
    pub gl_type: u32,
    pub texture_data: TextureData,
    pub format: u32,
    pub internal_format: u32,
    pub active_texture_number: u32,
    pub texture_wrap_s: u32,
    pub texture_wrap_t: u32,
    pub texture_min_filter: u32,
    pub texture_mag_filter: u32,
    pub use_mipmaps: bool,
}

/// The two builders agree on every setting but the pixel data.
pub open spec fn same_settings(a: TextureBuilder, b: TextureBuilder) -> bool {
    &&& a.gl_type == b.gl_type
    &&& a.format == b.format
    &&& a.internal_format == b.internal_format
    &&& a.active_texture_number == b.active_texture_number
    &&& a.texture_wrap_s == b.texture_wrap_s
    &&& a.texture_wrap_t == b.texture_wrap_t
    &&& a.texture_min_filter == b.texture_min_filter
    &&& a.texture_mag_filter == b.texture_mag_filter
    &&& a.use_mipmaps == b.use_mipmaps
}

/// A 2D texture on unit 0, RGB, clamped to the border, nearest filtering
/// with mipmaps, and no pixels.
pub open spec fn default_builder() -> TextureBuilder {
    TextureBuilder {
        gl_type: TEXTURE_2D,
        texture_data: TextureData::Empty,
        format: RGB,
        internal_format: RGB,
        active_texture_number: TEXTURE0,
        texture_wrap_s: CLAMP_TO_BORDER,
        texture_wrap_t: CLAMP_TO_BORDER,
        texture_min_filter: NEAREST_MIPMAP_LINEAR,
        texture_mag_filter: NEAREST,
        use_mipmaps: true,
    }
}

/// The 2x2 magenta and black checker shown in place of an image that
/// could not be loaded, as RGBA bytes.
pub open spec fn missing_pixels() -> Seq<u8> {
    seq![255, 0, 255, 255, 0, 0, 0, 255, 0, 0, 0, 255, 255, 0, 255, 255]
}

impl TextureBuilder {
    pub fn new() -> (r: TextureBuilder)
        ensures
            r == default_builder(),
    {
        TextureBuilder::default()
    }

    /// A texture made of the given 8-bit pixels, with default settings.
    pub fn from_raw_data(data: &[u8], width: u32, height: u32) -> (r: TextureBuilder)
        ensures
            same_settings(r, default_builder()),
            match r.texture_data {
                TextureData::Raw { data: d, width: w, height: h } => d@ == data@ && w == width
                    && h == height,
                _ => false,
            },
    {
        TextureBuilder::default().texture_data(
            TextureData::Raw { data: vstd::slice::slice_to_vec(data), width, height },
        )
    }

    /// The stand-in texture for an image that could not be loaded: the
    /// missing-image checker, 2 by 2, in RGBA.
    pub fn missing() -> (r: TextureBuilder)
        ensures
            same_settings(r, (TextureBuilder { format: RGBA, internal_format: RGBA, ..default_builder() })),
            match r.texture_data {
                TextureData::Raw { data, width, height } => data@ == missing_pixels() && width
                    == 2 && height == 2,
                _ => false,
            },
    {
        let data: Vec<u8> = vec![255, 0, 255, 255, 0, 0, 0, 255, 0, 0, 0, 255, 255, 0, 255, 255];
        proof {
            assert(data@ =~= missing_pixels());
        }
        TextureBuilder::default().texture_data(
            TextureData::Raw { data, width: 2, height: 2 },
        ).internal_format(RGBA).format(RGBA)
    }

    /// A texture made of a decoded image, flipped as asked on upload. Its
    /// format, and internal format, is the one for the image's color layout.
    pub fn from_image(image: DynamicImage, flip_h: bool, flip_v: bool) -> (r: TextureBuilder)
        ensures
            same_settings(
                r,
                (TextureBuilder {
                    format: color_format(color_kind_of(image)),
                    internal_format: color_format(color_kind_of(image)),
                    ..default_builder()
                }),
            ),
            match r.texture_data {
                TextureData::Image { image: i, flip_h: h, flip_v: v } => i == image && h == flip_h
                    && v == flip_v,
                _ => false,
            },
    {
        let kind = color_kind(&image);
        let format = format_for_color(kind);
        TextureBuilder::default().texture_data(TextureData::Image { image, flip_h, flip_v }).format(
            format,
        ).internal_format(format)
    }

    /// The `glTexParameteri` names and values a new texture is given: wrap
    /// modes along S and T, then the minifying and magnifying filters.
    pub fn parameters(&self) -> (r: Vec<(u32, u32)>)
        ensures
            r@ == seq![
                (TEXTURE_WRAP_S, self.texture_wrap_s),
                (TEXTURE_WRAP_T, self.texture_wrap_t),
                (TEXTURE_MIN_FILTER, self.texture_min_filter),
                (TEXTURE_MAG_FILTER, self.texture_mag_filter),
            ],
    {
        let r = vec![
            (TEXTURE_WRAP_S, self.texture_wrap_s),
            (TEXTURE_WRAP_T, self.texture_wrap_t),
            (TEXTURE_MIN_FILTER, self.texture_min_filter),
            (TEXTURE_MAG_FILTER, self.texture_mag_filter),
        ];
        proof {
            assert(r@ =~= seq![
                (TEXTURE_WRAP_S, self.texture_wrap_s),
                (TEXTURE_WRAP_T, self.texture_wrap_t),
                (TEXTURE_MIN_FILTER, self.texture_min_filter),
                (TEXTURE_MAG_FILTER, self.texture_mag_filter),
            ]);
        }
        r
    }

    pub fn gl_type(self, gl_type: u32) -> (r: TextureBuilder)
        ensures
            r == (TextureBuilder { gl_type, ..self }),
    {
        TextureBuilder { gl_type, ..self }
    }

    pub fn format(self, format: u32) -> (r: TextureBuilder)
        ensures
            r == (TextureBuilder { format, ..self }),
    {
        TextureBuilder { format, ..self }
    }

    pub fn internal_format(self, internal_format: u32) -> (r: TextureBuilder)
        ensures
            r == (TextureBuilder { internal_format, ..self }),
    {
        TextureBuilder { internal_format, ..self }
    }

    pub fn active_texture_number(self, active_texture_number: u32) -> (r: TextureBuilder)
        ensures
            r == (TextureBuilder { active_texture_number, ..self }),
    {
        TextureBuilder { active_texture_number, ..self }
    }

    pub fn texture_wrap_s(self, texture_wrap_s: u32) -> (r: TextureBuilder)
        ensures
            r == (TextureBuilder { texture_wrap_s, ..self }),
    {
        TextureBuilder { texture_wrap_s, ..self }
    }

    pub fn texture_wrap_t(self, texture_wrap_t: u32) -> (r: TextureBuilder)
        ensures
            r == (TextureBuilder { texture_wrap_t, ..self }),
    {
        TextureBuilder { texture_wrap_t, ..self }
    }

    pub fn texture_min_filter(self, texture_min_filter: u32) -> (r: TextureBuilder)
        ensures
            r == (TextureBuilder { texture_min_filter, ..self }),
    {
        TextureBuilder { texture_min_filter, ..self }
    }

    pub fn texture_mag_filter(self, texture_mag_filter: u32) -> (r: TextureBuilder)
        ensures
            r == (TextureBuilder { texture_mag_filter, ..self }),
    {
        TextureBuilder { texture_mag_filter, ..self }
    }

    pub fn use_mipmaps(self, use_mipmaps: bool) -> (r: TextureBuilder)
        ensures
            r == (TextureBuilder { use_mipmaps, ..self }),
    {
        TextureBuilder { use_mipmaps, ..self }
    }

    pub fn texture_data(self, texture_data: TextureData) -> (r: TextureBuilder)
        ensures
            r == (TextureBuilder { texture_data, ..self }),
    {
        TextureBuilder { texture_data, ..self }
    }
}

impl Default for TextureBuilder {
    fn default() -> (r: TextureBuilder)
        ensures
            r == default_builder(),
    {
        TextureBuilder {
            gl_type: TEXTURE_2D,
            texture_data: TextureData::Empty,
            format: RGB,
            internal_format: RGB,
            active_texture_number: TEXTURE0,
            texture_wrap_s: CLAMP_TO_BORDER,
            texture_wrap_t: CLAMP_TO_BORDER,
            texture_min_filter: NEAREST_MIPMAP_LINEAR,
            texture_mag_filter: NEAREST,
            use_mipmaps: true,
        }
    }
}

} // verus!
