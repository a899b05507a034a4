use scratch_lang::project::{format_aspect_ratio, AspectRatioPreset, ProjectConfig};

#[test]
fn test_default_project_config() {
    let config = ProjectConfig::default();
    assert_eq!(config.name, "My Game");
    assert_eq!(config.resolution.width, 1280);
    assert_eq!(config.resolution.height, 720);
    assert_eq!(config.entry, "src/main.sch");
}

#[test]
fn test_format_aspect_ratio() {
    assert_eq!(format_aspect_ratio(1920, 1080), "16:9");
    assert_eq!(format_aspect_ratio(1280, 720), "16:9");
    assert_eq!(format_aspect_ratio(2560, 1440), "16:9");
    assert_eq!(format_aspect_ratio(1280, 800), "16:10");
    assert_eq!(format_aspect_ratio(1920, 1200), "16:10");
    assert_eq!(format_aspect_ratio(800, 600), "4:3");
    assert_eq!(format_aspect_ratio(1024, 768), "4:3");
}

#[test]
fn test_preset_resolution() {
    let (w, h) = AspectRatioPreset::Ratio16x9.to_resolution();
    assert_eq!(w, 1280);
    assert_eq!(h, 720);

    let (w, h) = AspectRatioPreset::Ratio4x3.to_resolution();
    assert_eq!(w, 960);
    assert_eq!(h, 720);

    let (dw, dh) = AspectRatioPreset::Device.to_resolution();
    assert!(dw > 0 && dh > 0);
}

#[test]
fn test_parse_str() {
    assert_eq!(AspectRatioPreset::parse_str("16:9"), Some(AspectRatioPreset::Ratio16x9));
    assert_eq!(AspectRatioPreset::parse_str("16/9"), Some(AspectRatioPreset::Ratio16x9));
    assert_eq!(AspectRatioPreset::parse_str("4:3"), Some(AspectRatioPreset::Ratio4x3));
    assert_eq!(AspectRatioPreset::parse_str("retro"), Some(AspectRatioPreset::Ratio4x3));
    assert_eq!(AspectRatioPreset::parse_str("device"), Some(AspectRatioPreset::Device));
    assert_eq!(AspectRatioPreset::parse_str("unknown_ratio"), None);
}

#[test]
fn aspect_ratio_other_branches() {
    assert_eq!(format_aspect_ratio(0, 10), "16:9");
    assert_eq!(format_aspect_ratio(2560, 1080), "21:9");
    assert_eq!(format_aspect_ratio(1500, 1000), "3:2");
    assert_eq!(format_aspect_ratio(500, 500), "1:1");
    assert_eq!(format_aspect_ratio(5, 4), "5:4");
    assert_eq!(format_aspect_ratio(1000, 101), "9.90:1");
}

#[test]
fn device_preset_scales_to_720_and_labels() {
    assert_eq!(AspectRatioPreset::Device.to_resolution_for_device(1920, 1080), (1280, 720));
    assert_eq!(AspectRatioPreset::Device.to_resolution_for_device(1080, 1920), (720, 1280));
    assert_eq!(AspectRatioPreset::Device.to_resolution_for_device(1000, 999), (720, 720));
    assert_eq!(AspectRatioPreset::Device.short_label(), "Device (16:9)");
    assert_eq!(AspectRatioPreset::Device.label(), "Device: 16:9 (1920x1080)");
    assert_eq!(AspectRatioPreset::Ratio4x3.label(), "4:3 (960x720)");
    assert_eq!(AspectRatioPreset::parse_str("  WIDE  "), Some(AspectRatioPreset::Ratio16x9));
    let mut c = ProjectConfig::default();
    c.apply_ratio_preset(AspectRatioPreset::Ratio4x3);
    assert_eq!((c.resolution.width, c.resolution.height), (960, 720));
    assert_eq!(c.ratio, "4:3");
}

#[test]
fn background_colour_names_ignore_ascii_case() {
    assert!(scratch_lang::project::color_matches_named("Night", "night"));
    assert!(scratch_lang::project::color_matches_named("WHITE", "white"));
    assert!(!scratch_lang::project::color_matches_named("white", "whites"));
    assert!(!scratch_lang::project::color_matches_named("Ä", "ä"));
}

#[test]
fn aspect_ratio_depends_only_on_the_ratio() {
    for (w, h) in [(16u32, 9u32), (5, 4), (100, 101), (7, 3), (1, 1), (3, 2)] {
        for k in [1u32, 2, 3, 10, 120] {
            assert_eq!(format_aspect_ratio(k * w, k * h), format_aspect_ratio(w, h), "{w}x{h} by {k}");
        }
    }
    assert_eq!(format_aspect_ratio(10, 0), "16:9");
}

#[test]
fn presets_parse_for_a_given_device() {
    assert_eq!(AspectRatioPreset::parse_str_for_device(" 5:4 ", 1280, 1024), Some(AspectRatioPreset::Device));
    assert_eq!(AspectRatioPreset::parse_str_for_device("5:4", 1920, 1080), None);
    assert_eq!(AspectRatioPreset::parse_str_for_device("Retro", 1280, 1024), Some(AspectRatioPreset::Ratio4x3));
}
