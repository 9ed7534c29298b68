//! The software renderer: solid fills, the fallback gradient, and the
//! RGBA-to-ARGB reorder.

use something_lock::media::{Image, Media};
use something_lock::render::{
    gradient_pixel, render_gradient, render_solid, rgba_to_argb, Color, Frame,
};

#[test]
fn solid_red_on_2x2_is_00_00_ff_ff_per_pixel() {
    let out = render_solid(2, 2, Color { r: 255, g: 0, b: 0, a: 255 });
    assert_eq!(out.len(), 16);
    for pixel in out.chunks(4) {
        assert_eq!(pixel, &[0x00, 0x00, 0xFF, 0xFF]);
    }
}

#[test]
fn solid_fill_respects_every_channel() {
    let out = render_solid(1, 1, Color { r: 1, g: 2, b: 3, a: 4 });
    assert_eq!(out, vec![3, 2, 1, 4]);
}

#[test]
fn gradient_corners_follow_the_formula() {
    let w = 100u32;
    let h = 100u32;
    let out = render_gradient(w, h);
    assert_eq!(out.len(), (w * h * 4) as usize);

    // Pixel (0, 0): r = min(100*255/100, 100*255/100) = 255,
    // g = min(0, 255) = 0, b = min(255, 0) = 0.
    assert_eq!(&out[0..4], &[0, 0, 255, 255]);

    // Pixel (99, 99): every ratio is 1*255/100 = 2 or 99*255/100 = 252,
    // and each channel takes a minimum involving a 2.
    let p = 4 * (99 * w as usize + 99);
    assert_eq!(&out[p..p + 4], &[2, 2, 2, 255]);
}

#[test]
fn gradient_is_deterministic() {
    assert_eq!(render_gradient(33, 17), render_gradient(33, 17));
    let c = gradient_pixel(33, 17, 10, 5);
    let c2 = gradient_pixel(33, 17, 10, 5);
    assert_eq!(c, c2);
}

#[test]
fn gradient_pixel_matches_frame() {
    let w = 16u32;
    let h = 9u32;
    let out = render_gradient(w, h);
    for y in 0..h {
        for x in 0..w {
            let c = gradient_pixel(w, h, x, y);
            let p = 4 * (y as usize * w as usize + x as usize);
            assert_eq!(&out[p..p + 4], &[c.b, c.g, c.r, c.a]);
        }
    }
}

#[test]
fn rgba_reorders_to_bgra_bytes() {
    let src = vec![1u8, 2, 3, 4, 5, 6, 7, 8];
    let out = rgba_to_argb(&src);
    assert_eq!(out, vec![3, 2, 1, 4, 7, 6, 5, 8]);
}

#[test]
fn paint_solid_produces_the_fill() {
    let mut media = Media::Solid(Color { r: 255, g: 0, b: 0, a: 255 });
    match media.paint(2, 2) {
        Frame::Pixels(px) => assert_eq!(px, render_solid(2, 2, Color { r: 255, g: 0, b: 0, a: 255 })),
        _ => panic!("a solid media paints pixels"),
    }
}

#[test]
fn paint_without_media_falls_back_to_the_gradient() {
    let mut media = Media::NoMedia;
    match media.paint(8, 8) {
        Frame::Pixels(px) => assert_eq!(px, render_gradient(8, 8)),
        _ => panic!("the fallback paints pixels"),
    }
}

#[test]
fn paint_zero_size_defers() {
    let mut media = Media::Solid(Color { r: 9, g: 9, b: 9, a: 9 });
    assert!(matches!(media.paint(0, 5), Frame::Skip));
    assert!(matches!(media.paint(5, 0), Frame::Skip));
}

#[test]
fn paint_shader_dispatches_the_source_path() {
    let mut media = Media::Shader(String::from("/tmp/a.wgsl"));
    match media.paint(4, 4) {
        Frame::ShaderDraw(path) => assert_eq!(path, "/tmp/a.wgsl"),
        _ => panic!("a shader media dispatches a draw"),
    }
}

#[test]
fn paint_image_resamples_cache_to_surface_size() {
    let mut media = Media::Image(Image {
        buffer: vec![10, 20, 30, 40],
        width: 1,
        height: 1,
        blur_size: 0,
        blur_type: None,
    });
    match media.paint(2, 2) {
        Frame::Pixels(px) => {
            assert_eq!(px.len(), 16);
            // A 1x1 source scaled anywhere stays that colour, reordered.
            for pixel in px.chunks(4) {
                assert_eq!(pixel, &[30, 20, 10, 40]);
            }
        },
        _ => panic!("an image media paints pixels"),
    }
    match &media {
        Media::Image(im) => {
            assert_eq!((im.width, im.height), (2, 2));
            assert_eq!(im.buffer.len(), 16);
        },
        _ => panic!("the media stays an image"),
    }
}

#[test]
fn image_resize_keeps_matching_cache() {
    let mut im = Image {
        buffer: vec![1, 2, 3, 4],
        width: 1,
        height: 1,
        blur_size: 7,
        blur_type: None,
    };
    im.resize(1, 1);
    assert_eq!(im.buffer, vec![1, 2, 3, 4]);
    im.resize(2, 1);
    assert_eq!(im.buffer.len(), 8);
    assert_eq!(im.blur_size, 7);
}

#[test]
fn image_set_buffer_replaces_cache() {
    let mut im = Image {
        buffer: vec![0; 4],
        width: 1,
        height: 1,
        blur_size: 3,
        blur_type: None,
    };
    im.set_buffer(vec![9; 16], 2, 2);
    assert_eq!(im.buffer, vec![9; 16]);
    assert_eq!((im.width, im.height), (2, 2));
    assert_eq!(im.blur_size, 3);
}
