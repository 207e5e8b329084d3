use flipclock::config::{
    AnimationConfig, ClockSettings, Config, ConfigError, DisplayConfig, RgbColor, ThemeConfig,
    WindowConfig,
};
use flipclock::graphics_engine::Color;

fn invalid(result: Result<RgbColor, ConfigError>) -> String {
    match result {
        Err(ConfigError::InvalidHexColor(text)) => text,
        other => panic!("expected an invalid colour, got {:?}", other),
    }
}

#[test]
fn hex_colors_are_read() {
    assert_eq!(RgbColor::parse_hex("#0F0F0F").unwrap(), RgbColor { r: 15, g: 15, b: 15 });
    assert_eq!(RgbColor::parse_hex("ff8000").unwrap(), RgbColor { r: 255, g: 128, b: 0 });
    assert_eq!(RgbColor::parse_hex("#AbCdEf").unwrap(), RgbColor { r: 0xab, g: 0xcd, b: 0xef });
    assert_eq!(RgbColor::parse_hex("###000001").unwrap(), RgbColor { r: 0, g: 0, b: 1 });
}

#[test]
fn plus_sign_stands_for_a_leading_digit() {
    assert_eq!(RgbColor::parse_hex("+f+0+a").unwrap(), RgbColor { r: 15, g: 0, b: 10 });
    assert_eq!(invalid(RgbColor::parse_hex("f+0000")), "f+0000");
    assert_eq!(invalid(RgbColor::parse_hex("++0000")), "++0000");
    assert_eq!(invalid(RgbColor::parse_hex("-1-1-1")), "-1-1-1");
}

#[test]
fn bad_hex_colors_are_refused() {
    assert_eq!(invalid(RgbColor::parse_hex("#12345")), "12345");
    assert_eq!(invalid(RgbColor::parse_hex("#1234567")), "1234567");
    assert_eq!(invalid(RgbColor::parse_hex("#GG0000")), "GG0000");
    assert_eq!(invalid(RgbColor::parse_hex("")), "");
    assert_eq!(invalid(RgbColor::parse_hex("###")), "");
    assert_eq!(invalid(RgbColor::parse_hex("12#456")), "12#456");
    assert_eq!(invalid(RgbColor::parse_hex(" 12345")), " 12345");
    assert_eq!(invalid(RgbColor::parse_hex("#ééé")), "ééé");
    assert_eq!(invalid(RgbColor::parse_hex("#aébcd")), "aébcd");
    assert_eq!(invalid(RgbColor::parse_hex("#éééééé")), "éééééé");
}

#[test]
fn colors_parse_through_from_str() {
    let color: RgbColor = "#102030".parse().unwrap();
    assert_eq!(color, RgbColor { r: 16, g: 32, b: 48 });
    assert_eq!(invalid("nope".parse::<RgbColor>()), "nope");
    assert_eq!(invalid("##12345".parse::<RgbColor>()), "12345");
    assert_eq!("###+1+2+3".parse::<RgbColor>().unwrap(), RgbColor { r: 1, g: 2, b: 3 });
    assert_eq!(RgbColor::parse_or_default("nope"), RgbColor::default());
    assert_eq!(RgbColor::parse_or_default("#010203"), RgbColor { r: 1, g: 2, b: 3 });
}

#[test]
fn default_color_is_white() {
    assert_eq!(RgbColor::default(), RgbColor { r: 255, g: 255, b: 255 });
}

#[test]
fn error_messages() {
    assert_eq!(
        ConfigError::InvalidHexColor("xyz".to_string()).message(),
        "Invalid hex color: xyz"
    );
    assert_eq!(ConfigError::HomeDirNotFound.message(), "Failed to find home directory");
    assert_eq!(
        ConfigError::IoError("denied".to_string()).message(),
        "Failed to read config file: denied"
    );
    assert_eq!(
        ConfigError::TomlSerError("a".to_string()).message(),
        "Failed to parse TOML: a"
    );
    assert_eq!(
        ConfigError::TomlDeError("b".to_string()).message(),
        "Failed to deserialize TOML: b"
    );
}

#[test]
fn section_defaults() {
    let theme = ThemeConfig::default();
    assert_eq!(theme.background_color, "#0F0F0F");
    assert_eq!(theme.background_opacity, 800);
    assert_eq!(theme.card_color, "#000000");
    assert_eq!(theme.card_opacity, 400);
    assert_eq!(theme.card_border_color, "#FFFFFF");
    assert_eq!(theme.card_border_size, 2);
    assert!(theme.card_rounded_corners);
    assert_eq!(theme.card_gap, 5);
    assert_eq!(theme.number_color, "#FFFFFF");
    assert_eq!(theme.font_path, "/usr/share/fonts/TTF/DejaVuSans.ttf");
    assert_eq!(
        DisplayConfig::default(),
        DisplayConfig { show_seconds: false, show_ampm: false, show_leading_zero: false }
    );
    assert_eq!(AnimationConfig::default(), AnimationConfig { enabled: true, duration_ms: 500 });
    assert!(AnimationConfig::default_enabled());
    assert_eq!(AnimationConfig::default_duration_ms(), 500);
    assert_eq!(
        WindowConfig::default(),
        WindowConfig { width: 1280, height: 720, fullscreen: true, close_on_any_input: false }
    );
    assert_eq!(WindowConfig::default_width(), 1280);
    assert_eq!(WindowConfig::default_height(), 720);
    assert!(WindowConfig::default_fs());
    assert!(!WindowConfig::default_any_close());
}

#[test]
fn default_settings() {
    let s = ClockSettings::default();
    assert_eq!((s.width, s.height), (1280, 720));
    assert!(s.fullscreen && s.use_24hour && s.animate_flip && s.card_rounded_corners);
    assert!(!s.show_leading_zero && !s.close_on_any_input && !s.show_seconds);
    assert_eq!(s.background_color, RgbColor { r: 15, g: 15, b: 15 });
    assert_eq!(s.background_opacity, 800);
    assert_eq!(s.font_color, RgbColor { r: 255, g: 255, b: 255 });
    assert_eq!(s.card_color, RgbColor { r: 0, g: 0, b: 0 });
    assert_eq!(s.card_border_color, RgbColor { r: 255, g: 255, b: 255 });
    assert_eq!(s.animation_duration_ms, 500);
    assert_eq!(s.card_border_size, 2);
    assert_eq!(s.card_gap, 5);
    assert_eq!(s.font_path, "/usr/share/fonts/TTF/DejaVuSans.ttf");
    assert!(s.is_well_formed());
}

#[test]
fn settings_follow_the_configuration() {
    let mut config = Config::default();
    config.theme.background_color = "#102030".to_string();
    config.theme.number_color = "not a colour".to_string();
    config.theme.card_color = "#00ff00".to_string();
    config.theme.card_border_color = "".to_string();
    config.theme.card_gap = 9;
    config.theme.font_path = "/tmp/font.ttf".to_string();
    config.display.show_ampm = true;
    config.display.show_seconds = true;
    config.display.show_leading_zero = true;
    config.animation.enabled = false;
    config.animation.duration_ms = 120;
    config.window.width = 640;
    config.window.height = 480;
    config.window.fullscreen = false;
    config.window.close_on_any_input = true;
    let s = config.to_clock_settings();
    assert_eq!(s.background_color, RgbColor { r: 16, g: 32, b: 48 });
    assert_eq!(s.font_color, RgbColor { r: 255, g: 255, b: 255 });
    assert_eq!(s.card_color, RgbColor { r: 0, g: 255, b: 0 });
    assert_eq!(s.card_border_color, RgbColor { r: 255, g: 255, b: 255 });
    assert_eq!(s.card_gap, 9);
    assert_eq!(s.font_path, "/tmp/font.ttf");
    assert!(!s.use_24hour && s.show_seconds && s.show_leading_zero);
    assert!(!s.animate_flip && !s.fullscreen && s.close_on_any_input);
    assert_eq!(s.animation_duration_ms, 120);
    assert_eq!((s.width, s.height), (640, 480));
}

#[test]
fn cloned_settings_are_equal() {
    let mut s = ClockSettings::default();
    s.font_path = "/somewhere/else.ttf".to_string();
    s.card_gap = 11;
    let copy = s.clone();
    assert_eq!(format!("{:?}", copy), format!("{:?}", s));
}

#[test]
fn malformed_settings_are_recognised() {
    let mut s = ClockSettings::default();
    s.card_gap = -1;
    assert!(!s.is_well_formed());
    s.card_gap = 0;
    assert!(s.is_well_formed());
    s.width = 0x4000_0000;
    assert!(!s.is_well_formed());
    s.width = 0x3FFF_FFFF;
    s.height = u32::MAX;
    assert!(!s.is_well_formed());
}

#[test]
fn opacity_becomes_alpha() {
    let c = RgbColor { r: 1, g: 2, b: 3 };
    assert_eq!(Color::from_rgb_color(&c, 1000), Color::rgba(1, 2, 3, 255));
    assert_eq!(Color::from_rgb_color(&c, 0), Color::rgba(1, 2, 3, 0));
    assert_eq!(Color::from_rgb_color(&c, 800), Color::rgba(1, 2, 3, 204));
    assert_eq!(Color::from_rgb_color(&c, 400), Color::rgba(1, 2, 3, 102));
    assert_eq!(Color::from_rgb_color(&c, 999), Color::rgba(1, 2, 3, 254));
    assert_eq!(Color::from_rgb_color(&c, u32::MAX), Color::rgba(1, 2, 3, 255));
    assert_eq!(Color::opaque(&c), Color::rgb(1, 2, 3));
    assert_eq!(Color::rgb(9, 8, 7), Color { r: 9, g: 8, b: 7, a: 255 });
}
