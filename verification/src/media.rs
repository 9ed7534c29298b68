//! Media descriptors: what is painted on every lock surface. Loaded once from
//! configuration at startup and shared, read-mostly, by all lock surfaces.

use vstd::prelude::*;
use vstd::arithmetic::div_mod::lemma_mod_multiples_basic;
use crate::config::{str_eq, Config, MediaType};
use crate::render::{
    render_gradient, render_solid, rgba_to_argb, spec_gradient_frame, spec_solid_frame,
    spec_swizzle, Color, Frame,
};

verus! {

/// The kind of blur an image may ask for.
#[derive(Clone, Copy, Debug, PartialEq, Eq, Structural)]
pub enum Blur {
    Box,
    Gaussian,
}

/// The blur kind a configuration value names, if any.
pub open spec fn spec_blur_of(name: Seq<char>) -> Option<Blur> {
    if name == "box"@ {
        Some(Blur::Box)
    } else if name == "gaussian"@ {
        Some(Blur::Gaussian)
    } else {
        None
    }
}

impl Blur {
    /// The blur kind a configuration value names.
    pub fn from_name(name: &str) -> (r: Option<Blur>)
        ensures
            r == spec_blur_of(name@),
    {
        if str_eq(name, "box") {
            Some(Blur::Box)
        } else if str_eq(name, "gaussian") {
            Some(Blur::Gaussian)
        } else {
            None
        }
    }
}

/// A decoded raster image together with its cached pixel buffer. The cache is
/// re-resampled lazily when a surface's size differs from the cached size and
/// only ever holds one buffer generation at a time.
#[derive(Debug)]
pub struct Image {
    /// RGBA bytes of the cached buffer, row-major.
    pub buffer: Vec<u8>,
    /// Width of the cached buffer in pixels.
    pub width: u32,
    /// Height of the cached buffer in pixels.
    pub height: u32,
    /// Blur radius the configuration asked for.
    pub blur_size: u32,
    /// Blur kind the configuration asked for.
    pub blur_type: Option<Blur>,
}

impl Image {
    /// The cached buffer holds exactly its stated size.
    pub open spec fn wf(&self) -> bool {
        self.buffer@.len() == 4 * (self.width as int) * (self.height as int)
    }
}

/// What nearest-neighbour resampling yields; a function of the pixels and the
/// four sizes alone.
pub uninterp spec fn nearest_scaled(
    pixels: Seq<u8>,
    width: u32,
    height: u32,
    new_width: u32,
    new_height: u32,
) -> Seq<u8>;

/// Relies on image::open: decodes the file at the path into RGBA bytes and
/// the image's dimensions. What comes back depends on what is on disk, so
/// nothing more than the buffer size is promised.
#[verifier::external_body]
fn decode_image_file(path: &str) -> (r: Option<(Vec<u8>, u32, u32)>)
    ensures
        r matches Some(d) ==> d.0@.len() == 4 * (d.1 as int) * (d.2 as int),
{
    match image::open(path) {
        Ok(img) => {
            let rgba = img.to_rgba8();
            let (w, h) = rgba.dimensions();
            Some((rgba.into_raw(), w, h))
        },
        Err(_) => None,
    }
}

/// Relies on image::imageops::resize with the nearest-neighbour filter: the
/// result is a function of the input pixels and sizes alone, and holds
/// exactly the new dimensions.
#[verifier::external_body]
fn resize_nearest(pixels: &Vec<u8>, width: u32, height: u32, new_width: u32, new_height: u32) -> (r:
    Vec<u8>)
    requires
        pixels@.len() == 4 * (width as int) * (height as int),
        4 * (new_width as int) * (new_height as int) <= usize::MAX as int,
    ensures
        r@ == nearest_scaled(pixels@, width, height, new_width, new_height),
        r@.len() == 4 * (new_width as int) * (new_height as int),
{
    let img = image::RgbaImage::from_raw(width, height, pixels.clone()).unwrap();
    let scaled = image::imageops::resize(
        &img,
        new_width,
        new_height,
        image::imageops::FilterType::Nearest,
    );
    scaled.into_raw()
}

impl Image {
    /// Decode the file at `path` into a fresh image media with the given blur
    /// parameters; nothing where the file cannot be read or decoded.
    pub fn init(path: &str, blur_type: &str, blur_size: u32) -> (r: Option<Image>)
        ensures
            r matches Some(im) ==> im.wf() && im.blur_size == blur_size && im.blur_type
                == spec_blur_of(blur_type@),
    {
        match decode_image_file(path) {
            Some((buffer, width, height)) => Some(
                Image { buffer, width, height, blur_size, blur_type: Blur::from_name(blur_type) },
            ),
            None => None,
        }
    }

    /// Decode the file at `path` and cache a 1920 by 1080 nearest-neighbour
    /// resample of it; nothing where the file cannot be read or decoded.
    pub fn from_path(path: &str) -> (r: Option<Image>)
        ensures
            r matches Some(im) ==> im.wf() && im.width == 1920 && im.height == 1080
                && im.blur_size == 0 && im.blur_type is None,
    {
        match decode_image_file(path) {
            Some((buffer, width, height)) => {
                let scaled = resize_nearest(&buffer, width, height, 1920, 1080);
                Some(
                    Image {
                        buffer: scaled,
                        width: 1920,
                        height: 1080,
                        blur_size: 0,
                        blur_type: None,
                    },
                )
            },
            None => None,
        }
    }

    /// Replace the cached buffer and its size; the blur settings stay.
    pub fn set_buffer(&mut self, buffer: Vec<u8>, width: u32, height: u32)
        requires
            buffer@.len() == 4 * (width as int) * (height as int),
        ensures
            final(self).buffer@ == buffer@,
            final(self).width == width,
            final(self).height == height,
            final(self).blur_size == old(self).blur_size,
            final(self).blur_type == old(self).blur_type,
            final(self).wf(),
    {
        self.buffer = buffer;
        self.width = width;
        self.height = height;
    }

    /// Bring the cached buffer to the given size. A buffer that already has
    /// that size is kept; otherwise the cache is replaced by a fresh
    /// nearest-neighbour resample and the old buffer is discarded.
    pub fn resize(&mut self, width: u32, height: u32)
        requires
            old(self).wf(),
            4 * (width as int) * (height as int) <= usize::MAX as int,
        ensures
            final(self).width == width,
            final(self).height == height,
            final(self).blur_size == old(self).blur_size,
            final(self).blur_type == old(self).blur_type,
            final(self).wf(),
            old(self).width == width && old(self).height == height ==> final(self).buffer@ == old(
            self).buffer@,
            !(old(self).width == width && old(self).height == height) ==> final(self).buffer@
                == nearest_scaled(old(self).buffer@, old(self).width, old(self).height, width,
            height),
    {
        if width != self.width || height != self.height {
            let scaled = resize_nearest(&self.buffer, self.width, self.height, width, height);
            self.buffer = scaled;
        }
        self.width = width;
        self.height = height;
    }
}

/// What to paint on every lock surface: a flat colour, a raster image, a
/// shader source reference, or no content, which paints the fallback
/// gradient so the screen is never left blank.
#[derive(Debug)]
pub enum Media {
    Image(Image),
    Shader(String),
    Solid(Color),
    NoMedia,
}

/// The configured colour, or the default solid white where none is set.
pub open spec fn spec_color_or_white(c: Option<Color>) -> Color {
    match c {
        Some(c) => c,
        None => Color { r: 255, g: 255, b: 255, a: 255 },
    }
}

/// A sequence of characters, or the empty sequence where none is set.
pub open spec fn spec_or_empty(o: Option<Seq<char>>) -> Seq<char> {
    match o {
        Some(s) => s,
        None => Seq::empty(),
    }
}

/// The default solid white, fully opaque descriptor.
pub open spec fn spec_white() -> Media {
    Media::Solid(Color { r: 255, g: 255, b: 255, a: 255 })
}

impl Media {
    /// Whether an image media carries a well-sized cache; every other media
    /// is trivially well formed.
    pub open spec fn wf(&self) -> bool {
        match self {
            Media::Image(im) => im.wf(),
            _ => true,
        }
    }

    /// Build the media descriptor a configuration asks for. A configuration
    /// that names no recognized kind yields the default solid white fill; an
    /// image file that cannot be loaded yields the no-content descriptor, so
    /// the fallback gradient is painted instead of stale pixels.
    pub fn from_config(config: &Config) -> (m: Media)
        ensures
            m.wf(),
            config.media_type == Some(MediaType::Solid) ==> m == Media::Solid(
                spec_color_or_white(config.color),
            ),
            config.media_type == Some(MediaType::Shader) && config.media_path is Some ==> (
            m matches Media::Shader(p) && Some(p@) == config@.media_path),
            config.media_type == Some(MediaType::Shader) && config.media_path is None ==> m
                == spec_white(),
            config.media_type == Some(MediaType::Image) && config.media_path is None ==> m
                == spec_white(),
            config.media_type == Some(MediaType::Image) && config.media_path is Some ==> ((
            m matches Media::Image(im) && im.blur_size == (if config.blur_size is Some {
                config.blur_size->0
            } else {
                0u32
            }) && im.blur_type == spec_blur_of(spec_or_empty(config@.blur_type))) || m
                == Media::NoMedia),
            config.media_type == Some(MediaType::Video) || config.media_type is None ==> m
                == spec_white(),
    {
        match &config.media_type {
            Some(MediaType::Image) => {
                match &config.media_path {
                    Some(path) => {
                        let blur_size: u32 = match config.blur_size {
                            Some(b) => b,
                            None => 0,
                        };
                        let blur_type: &str = match &config.blur_type {
                            Some(b) => b.as_str(),
                            None => "",
                        };
                        proof {
                            if config.blur_type is None {
                                reveal_strlit("");
                                assert(""@ =~= Seq::<char>::empty());
                            }
                        }
                        match Image::init(path.as_str(), blur_type, blur_size) {
                            Some(im) => Media::Image(im),
                            None => Media::NoMedia,
                        }
                    },
                    None => Media::Solid(Color { r: 255, g: 255, b: 255, a: 255 }),
                }
            },
            Some(MediaType::Solid) => {
                match &config.color {
                    Some(c) => Media::Solid(*c),
                    None => Media::Solid(Color { r: 255, g: 255, b: 255, a: 255 }),
                }
            },
            Some(MediaType::Shader) => {
                match &config.media_path {
                    Some(path) => Media::Shader(path.clone()),
                    None => Media::Solid(Color { r: 255, g: 255, b: 255, a: 255 }),
                }
            },
            Some(MediaType::Video) => Media::Solid(Color { r: 255, g: 255, b: 255, a: 255 }),
            None => Media::Solid(Color { r: 255, g: 255, b: 255, a: 255 }),
        }
    }
}

/// How a painted frame `f` and the media after painting, `m1`, relate to the
/// media before, `m0`, and the surface size. Painting is a pure function of
/// the size and the descriptor state, except that an image media lazily
/// re-resamples its cache to the surface size first.
pub open spec fn spec_painted(m0: Media, m1: Media, width: u32, height: u32, f: Frame) -> bool {
    &&& m1.wf()
    &&& (width == 0 || height == 0 ==> f == Frame::Skip && m1 == m0)
    &&& (width > 0 && height > 0 ==> {
        &&& (m0 matches Media::Solid(c) ==> m1 == m0 && (f matches Frame::Pixels(px) && px@
            == spec_solid_frame(c, width as int, height as int)))
        &&& (m0 is NoMedia ==> m1 == m0 && (f matches Frame::Pixels(px) && px@
            == spec_gradient_frame(width as int, height as int)))
        &&& (m0 matches Media::Shader(p) ==> m1 == m0 && (f matches Frame::ShaderDraw(s) && s@
            == p@))
        &&& (m0 matches Media::Image(im) ==> (m1 matches Media::Image(im2) && im2.width == width
            && im2.height == height && im2.blur_size == im.blur_size && im2.blur_type
            == im.blur_type && (im.width == width && im.height == height ==> im2.buffer@
            == im.buffer@) && (!(im.width == width && im.height == height) ==> im2.buffer@
            == nearest_scaled(im.buffer@, im.width, im.height, width, height)) && (f matches
            Frame::Pixels(px) && px@ == spec_swizzle(im2.buffer@))))
    })
}

/// Law (paint idempotence): painting the same media twice at one size
/// submits the same content; the first paint settles the image cache and the
/// second finds it already sized.
pub proof fn lemma_paint_idempotent(
    m0: Media,
    m1: Media,
    m2: Media,
    width: u32,
    height: u32,
    f1: Frame,
    f2: Frame,
)
    requires
        width > 0,
        height > 0,
        spec_painted(m0, m1, width, height, f1),
        spec_painted(m1, m2, width, height, f2),
    ensures
        f1 matches Frame::Pixels(p1) ==> (f2 matches Frame::Pixels(p2) && p2@ == p1@),
        f1 matches Frame::ShaderDraw(s1) ==> (f2 matches Frame::ShaderDraw(s2) && s2@ == s1@),
{
    match m0 {
        Media::Solid(_) => {
            assert(m1 == m0);
        },
        Media::NoMedia => {
            assert(m1 == m0);
        },
        Media::Shader(_) => {
            assert(m1 == m0);
        },
        Media::Image(_) => {
        },
    }
}

impl Media {
    /// Produce the content for one surface of the given negotiated size: a
    /// solid fill, the image cache brought to the surface size and reordered
    /// into the target byte order, a shader draw directive, or the fallback
    /// gradient. A zero-sized surface paints nothing yet.
    pub fn paint(&mut self, width: u32, height: u32) -> (f: Frame)
        requires
            old(self).wf(),
            4 * (width as int) * (height as int) <= usize::MAX as int,
        ensures
            spec_painted(*old(self), *final(self), width, height, f),
    {
        if width == 0 || height == 0 {
            return Frame::Skip;
        }
        match self {
            Media::Solid(c) => Frame::Pixels(render_solid(width, height, *c)),
            Media::NoMedia => Frame::Pixels(render_gradient(width, height)),
            Media::Shader(p) => Frame::ShaderDraw(p.clone()),
            Media::Image(im) => {
                im.resize(width, height);
                proof {
                    let wi = width as int;
                    let hi = height as int;
                    assert(4 * wi * hi == (wi * hi) * 4) by (nonlinear_arith);
                    lemma_mod_multiples_basic(wi * hi, 4);
                }
                Frame::Pixels(rgba_to_argb(&im.buffer))
            },
        }
    }
}

} // verus!
