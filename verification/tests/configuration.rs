//! Configuration parsing and the media descriptor it produces.

use something_lock::config::{parse_u32, str_eq, Config, MediaType};
use something_lock::media::{Blur, Media};
use something_lock::render::Color;

const WHITE: Color = Color { r: 255, g: 255, b: 255, a: 255 };

#[test]
fn solid_configuration_reads_all_channels() {
    let text = "[main]\ntype=solid\n[solid]\nred=10\ngreen=20\nblue=30\nalpha=40\n";
    let c = Config::from_config_str(text);
    assert_eq!(c.media_type, Some(MediaType::Solid));
    assert_eq!(c.color, Some(Color { r: 10, g: 20, b: 30, a: 40 }));
    assert_eq!(c.media_path, None);
}

#[test]
fn solid_channels_default_to_full_intensity() {
    let text = "[main]\ntype=solid\n[solid]\nred=0\n";
    let c = Config::from_config_str(text);
    assert_eq!(c.color, Some(Color { r: 0, g: 255, b: 255, a: 255 }));
}

#[test]
fn solid_channels_clamp_and_recover() {
    let text = "[main]\ntype=solid\n[solid]\nred=300\ngreen=abc\nblue=99999999999\nalpha=255\n";
    let c = Config::from_config_str(text);
    assert_eq!(c.color, Some(Color { r: 255, g: 255, b: 255, a: 255 }));
}

#[test]
fn image_configuration_reads_path_and_blur() {
    let text = "[main]\ntype=image\n[image]\npath=/tmp/bg.png\nblur_size=5\nblur_type=gaussian\n";
    let c = Config::from_config_str(text);
    assert_eq!(c.media_type, Some(MediaType::Image));
    assert_eq!(c.media_path.as_deref(), Some("/tmp/bg.png"));
    assert_eq!(c.blur_size, Some(5));
    assert_eq!(c.blur_type.as_deref(), Some("gaussian"));
}

#[test]
fn image_blur_defaults() {
    let text = "[main]\ntype=image\n[image]\npath=/tmp/bg.png\n";
    let c = Config::from_config_str(text);
    assert_eq!(c.blur_size, Some(0));
    assert_eq!(c.blur_type.as_deref(), Some("box"));
}

#[test]
fn shader_configuration_reads_path() {
    let text = "[main]\ntype=shader\n[shader]\npath=/tmp/a.wgsl\n";
    let c = Config::from_config_str(text);
    assert_eq!(c.media_type, Some(MediaType::Shader));
    assert_eq!(c.media_path.as_deref(), Some("/tmp/a.wgsl"));
}

#[test]
fn unrecognized_or_missing_kind_falls_back_to_white() {
    for text in [
        "[main]\ntype=video\n",
        "[main]\ntype=screenshot\n",
        "[main]\nother=1\n",
        "[other]\ntype=solid\n",
        "",
    ] {
        let c = Config::from_config_str(text);
        assert_eq!(c.media_type, Some(MediaType::Solid));
        assert_eq!(c.color, Some(WHITE));
    }
}

#[test]
fn unparsable_text_falls_back_to_white() {
    let c = Config::from_config_str("[unclosed\n===");
    assert_eq!(c.media_type, Some(MediaType::Solid));
    assert_eq!(c.color, Some(WHITE));
}

#[test]
fn missing_sections_fall_back_to_white() {
    for text in [
        "[main]\ntype=image\n",
        "[main]\ntype=image\n[image]\nblur_size=1\n",
        "[main]\ntype=shader\n",
        "[main]\ntype=solid\n",
    ] {
        let c = Config::from_config_str(text);
        if text.contains("type=solid") {
            // A solid kind without its section still falls back.
            assert_eq!(c.color, Some(WHITE));
        } else {
            assert_eq!(c.media_type, Some(MediaType::Solid));
            assert_eq!(c.color, Some(WHITE));
        }
    }
}

#[test]
fn empty_config_has_nothing_set() {
    let c = Config::empty();
    assert!(c.media_type.is_none());
    assert!(c.media_path.is_none());
    assert!(c.color.is_none());
    assert!(c.blur_size.is_none());
    assert!(c.blur_type.is_none());
}

#[test]
fn parse_u32_exact_values() {
    assert_eq!(parse_u32("0"), Some(0));
    assert_eq!(parse_u32("255"), Some(255));
    assert_eq!(parse_u32("4294967295"), Some(u32::MAX));
    assert_eq!(parse_u32("4294967296"), None);
    assert_eq!(parse_u32("99999999999999999999"), None);
    assert_eq!(parse_u32(""), None);
    assert_eq!(parse_u32("12a"), None);
    assert_eq!(parse_u32("-1"), None);
    assert_eq!(parse_u32(" 7"), None);
}

#[test]
fn default_media_kind_is_solid() {
    assert_eq!(MediaType::default(), MediaType::Solid);
}

#[test]
fn str_eq_compares_contents() {
    assert!(str_eq("abc", "abc"));
    assert!(!str_eq("abc", "abd"));
    assert!(!str_eq("abc", "ab"));
    assert!(str_eq("", ""));
}

#[test]
fn blur_names_map_to_kinds() {
    assert_eq!(Blur::from_name("box"), Some(Blur::Box));
    assert_eq!(Blur::from_name("gaussian"), Some(Blur::Gaussian));
    assert_eq!(Blur::from_name("motion"), None);
    assert_eq!(Blur::from_name(""), None);
}

#[test]
fn media_from_solid_config() {
    let text = "[main]\ntype=solid\n[solid]\nred=1\ngreen=2\nblue=3\nalpha=4\n";
    let config = Config::from_config_str(text);
    match Media::from_config(&config) {
        Media::Solid(c) => assert_eq!(c, Color { r: 1, g: 2, b: 3, a: 4 }),
        _ => panic!("a solid configuration yields a solid media"),
    }
}

#[test]
fn media_from_shader_config() {
    let text = "[main]\ntype=shader\n[shader]\npath=/tmp/a.wgsl\n";
    let config = Config::from_config_str(text);
    match Media::from_config(&config) {
        Media::Shader(p) => assert_eq!(p, "/tmp/a.wgsl"),
        _ => panic!("a shader configuration yields a shader media"),
    }
}

#[test]
fn media_from_unreadable_image_falls_back_to_no_media() {
    let text = "[main]\ntype=image\n[image]\npath=/nonexistent/nowhere.png\n";
    let config = Config::from_config_str(text);
    assert!(matches!(Media::from_config(&config), Media::NoMedia));
}

#[test]
fn media_from_empty_config_is_white() {
    let config = Config::empty();
    match Media::from_config(&config) {
        Media::Solid(c) => assert_eq!(c, WHITE),
        _ => panic!("an empty configuration yields the default solid"),
    }
}
