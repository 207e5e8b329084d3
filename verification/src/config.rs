//! Settings of the clock: the configuration as it is written down, section
//! by section, and the flat settings that the engine reads.
//!
//! Opacities count thousandths: 1000 is fully opaque.

use crate::graphics_engine::MAX_EXTENT;
use vstd::prelude::*;

verus! {

/// What can go wrong with a configuration. Failures of the file system and
/// of the TOML codec are carried as their message.
#[derive(Debug)]
pub enum ConfigError {
    IoError(String),
    TomlSerError(String),
    TomlDeError(String),
    InvalidHexColor(String),
    HomeDirNotFound,
}

impl ConfigError {
    /// The text that introduces an error of this variant.
    pub open spec fn prefix(&self) -> Seq<char> {
        match self {
            ConfigError::IoError(_) => "Failed to read config file: "@,
            ConfigError::TomlSerError(_) => "Failed to parse TOML: "@,
            ConfigError::TomlDeError(_) => "Failed to deserialize TOML: "@,
            ConfigError::InvalidHexColor(_) => "Invalid hex color: "@,
            ConfigError::HomeDirNotFound => "Failed to find home directory"@,
        }
    }

    /// The detail that an error carries; empty where it carries none.
    pub open spec fn detail(&self) -> Seq<char> {
        match self {
            ConfigError::IoError(text) => text@,
            ConfigError::TomlSerError(text) => text@,
            ConfigError::TomlDeError(text) => text@,
            ConfigError::InvalidHexColor(text) => text@,
            ConfigError::HomeDirNotFound => Seq::empty(),
        }
    }

    /// The error as a sentence: the text of its variant, then its detail.
    pub fn message(&self) -> (text: String)
        ensures
            text@ == self.prefix() + self.detail(),
    {
        match self {
            ConfigError::IoError(detail) => {
                String::from_str("Failed to read config file: ").concat(detail.as_str())
            },
            ConfigError::TomlSerError(detail) => {
                String::from_str("Failed to parse TOML: ").concat(detail.as_str())
            },
            ConfigError::TomlDeError(detail) => {
                String::from_str("Failed to deserialize TOML: ").concat(detail.as_str())
            },
            ConfigError::InvalidHexColor(detail) => {
                String::from_str("Invalid hex color: ").concat(detail.as_str())
            },
            ConfigError::HomeDirNotFound => {
                let text = String::from_str("Failed to find home directory");
                assert(text@ =~= self.prefix() + self.detail());
                text
            },
        }
    }
}

#[derive(Debug, Clone, Copy, PartialEq, Eq)]
pub struct RgbColor {
    pub r: u8,
    pub g: u8,
    pub b: u8,
}

impl Default for RgbColor {
    /// White.
    fn default() -> (color: Self)
        ensures
            color == (RgbColor { r: 255, g: 255, b: 255 }),
    {
        RgbColor { r: 255, g: 255, b: 255 }
    }
}

/// The value of a hexadecimal digit, in either case.
pub open spec fn hex_digit_value(c: char) -> Option<int> {
    if '0' <= c <= '9' {
        Some(c as int - '0' as int)
    } else if 'a' <= c <= 'f' {
        Some(c as int - 'a' as int + 10)
    } else if 'A' <= c <= 'F' {
        Some(c as int - 'A' as int + 10)
    } else {
        None
    }
}

/// The value of one colour channel written with two characters: two
/// hexadecimal digits, or a plus sign and one digit.
pub open spec fn hex_channel(high: char, low: char) -> Option<u8> {
    if high == '+' {
        match hex_digit_value(low) {
            Some(value) => Some(value as u8),
            None => None,
        }
    } else {
        match (hex_digit_value(high), hex_digit_value(low)) {
            (Some(sixteens), Some(units)) => Some((16 * sixteens + units) as u8),
            _ => None,
        }
    }
}

/// The number of `#` characters that `text` starts with.
pub open spec fn leading_hashes(text: Seq<char>) -> nat
    decreases text.len(),
{
    if text.len() > 0 && text[0] == '#' {
        1 + leading_hashes(text.subrange(1, text.len() as int))
    } else {
        0
    }
}

/// `text` without the `#` characters that it starts with.
pub open spec fn without_hashes(text: Seq<char>) -> Seq<char> {
    text.subrange(leading_hashes(text) as int, text.len() as int)
}

/// The colour that `text` spells: after any leading `#`, exactly six
/// characters, two for each of red, green and blue.
pub open spec fn parse_hex_color(text: Seq<char>) -> Option<RgbColor> {
    let digits = without_hashes(text);
    if digits.len() != 6 {
        None
    } else {
        match (
            hex_channel(digits[0], digits[1]),
            hex_channel(digits[2], digits[3]),
            hex_channel(digits[4], digits[5]),
        ) {
            (Some(r), Some(g), Some(b)) => Some(RgbColor { r, g, b }),
            _ => None,
        }
    }
}

/// The colour that `text` spells, and white where it spells none.
pub open spec fn color_or_default(text: Seq<char>) -> RgbColor {
    match parse_hex_color(text) {
        Some(color) => color,
        None => RgbColor { r: 255, g: 255, b: 255 },
    }
}

/// A run of `count` hashes followed by another character, or by the end of
/// the text, is the whole run of leading hashes.
proof fn lemma_leading_hashes_counted(text: Seq<char>, count: nat)
    requires
        count <= text.len(),
        forall|i: int| 0 <= i < count ==> text[i] == '#',
        count < text.len() ==> text[count as int] != '#',
    ensures
        leading_hashes(text) == count,
    decreases count,
{
    if count > 0 {
        let rest = text.subrange(1, text.len() as int);
        assert forall|i: int| 0 <= i < count - 1 implies rest[i] == '#' by {
            assert(rest[i] == text[i + 1]);
        }
        if count - 1 < rest.len() {
            assert(rest[count - 1] == text[count as int]);
        }
        lemma_leading_hashes_counted(rest, (count - 1) as nat);
    }
}

fn hex_digit(c: char) -> (value: Option<u8>)
    ensures
        match value {
            Some(v) => hex_digit_value(c) == Some(v as int),
            None => hex_digit_value(c) is None,
        },
{
    if '0' <= c && c <= '9' {
        Some((c as u32 - '0' as u32) as u8)
    } else if 'a' <= c && c <= 'f' {
        Some((c as u32 - 'a' as u32 + 10) as u8)
    } else if 'A' <= c && c <= 'F' {
        Some((c as u32 - 'A' as u32 + 10) as u8)
    } else {
        None
    }
}

fn parse_channel(high: char, low: char) -> (value: Option<u8>)
    ensures
        value == hex_channel(high, low),
{
    if high == '+' {
        hex_digit(low)
    } else {
        match (hex_digit(high), hex_digit(low)) {
            (Some(sixteens), Some(units)) => Some(16 * sixteens + units),
            _ => None,
        }
    }
}

impl RgbColor {
    /// Reads a colour written as `RRGGBB`, with or without leading `#`.
    /// Everything else is refused, and the error carries the text without
    /// its leading `#`.
    pub fn parse_hex(hex: &str) -> (result: Result<RgbColor, ConfigError>)
        ensures
            match result {
                Ok(color) => parse_hex_color(hex@) == Some(color),
                Err(error) => {
                    &&& parse_hex_color(hex@) is None
                    &&& error matches ConfigError::InvalidHexColor(text)
                    &&& text@ == without_hashes(hex@)
                },
            },
    {
        let length = hex.unicode_len();
        let mut start: usize = 0;
        while start < length && hex.get_char(start) == '#'
            invariant
                start <= length == hex@.len(),
                forall|i: int| 0 <= i < start ==> hex@[i] == '#',
            decreases length - start,
        {
            start = start + 1;
        }
        proof {
            lemma_leading_hashes_counted(hex@, start as nat);
        }
        let digits = hex.substring_char(start, length);
        if length - start != 6 {
            return Err(ConfigError::InvalidHexColor(String::from_str(digits)));
        }
        let red = parse_channel(digits.get_char(0), digits.get_char(1));
        let green = parse_channel(digits.get_char(2), digits.get_char(3));
        let blue = parse_channel(digits.get_char(4), digits.get_char(5));
        match (red, green, blue) {
            (Some(r), Some(g), Some(b)) => Ok(RgbColor { r, g, b }),
            _ => Err(ConfigError::InvalidHexColor(String::from_str(digits))),
        }
    }

    /// The colour that `hex` spells, or white.
    pub fn parse_or_default(hex: &str) -> (color: RgbColor)
        ensures
            color == color_or_default(hex@),
    {
        match RgbColor::parse_hex(hex) {
            Ok(color) => color,
            Err(_) => RgbColor::default(),
        }
    }
}

impl std::str::FromStr for RgbColor {
    type Err = ConfigError;

    /// Reads a colour as `parse_hex` does.
    fn from_str(hex: &str) -> (result: Result<Self, ConfigError>)
        ensures
            match result {
                Ok(color) => parse_hex_color(hex@) == Some(color),
                Err(error) => {
                    &&& parse_hex_color(hex@) is None
                    &&& error matches ConfigError::InvalidHexColor(text)
                    &&& text@ == without_hashes(hex@)
                },
            },
    {
        RgbColor::parse_hex(hex)
    }
}

/// Colours, opacities and card decoration.
#[derive(Debug)]
pub struct ThemeConfig {
    pub background_color: String,
    pub background_opacity: u32,
    pub card_color: String,
    pub card_opacity: u32,
    pub card_border_color: String,
    pub card_border_size: u32,
    pub card_rounded_corners: bool,
    pub card_gap: i32,
    pub number_color: String,
    pub font_path: String,
}

impl ThemeConfig {
    pub fn default_background_color() -> (text: String)
        ensures
            text@ == "#0F0F0F"@,
    {
        "#0F0F0F".to_owned()
    }

    pub fn default_background_opacity() -> (opacity: u32)
        ensures
            opacity == 800,
    {
        800
    }

    pub fn default_card_color() -> (text: String)
        ensures
            text@ == "#000000"@,
    {
        "#000000".to_owned()
    }

    pub fn default_card_opacity() -> (opacity: u32)
        ensures
            opacity == 400,
    {
        400
    }

    pub fn default_card_border_color() -> (text: String)
        ensures
            text@ == "#FFFFFF"@,
    {
        "#FFFFFF".to_owned()
    }

    pub fn default_card_border_size() -> (size: u32)
        ensures
            size == 2,
    {
        2
    }

    pub fn default_card_rounded_corners() -> (rounded: bool)
        ensures
            rounded,
    {
        true
    }

    pub fn default_card_gap() -> (gap: i32)
        ensures
            gap == 5,
    {
        5
    }

    pub fn default_number_color() -> (text: String)
        ensures
            text@ == "#FFFFFF"@,
    {
        "#FFFFFF".to_owned()
    }

    pub fn default_font_path() -> (path: String)
        ensures
            path@ == "/usr/share/fonts/TTF/DejaVuSans.ttf"@,
    {
        "/usr/share/fonts/TTF/DejaVuSans.ttf".to_owned()
    }

    /// Every field has its default.
    pub open spec fn is_default(&self) -> bool {
        &&& self.background_color@ == "#0F0F0F"@
        &&& self.background_opacity == 800
        &&& self.card_color@ == "#000000"@
        &&& self.card_opacity == 400
        &&& self.card_border_color@ == "#FFFFFF"@
        &&& self.card_border_size == 2
        &&& self.card_rounded_corners
        &&& self.card_gap == 5
        &&& self.number_color@ == "#FFFFFF"@
        &&& self.font_path@ == "/usr/share/fonts/TTF/DejaVuSans.ttf"@
    }
}

impl Default for ThemeConfig {
    fn default() -> (theme: Self)
        ensures
            theme.is_default(),
    {
        ThemeConfig {
            background_color: Self::default_background_color(),
            background_opacity: Self::default_background_opacity(),
            card_color: Self::default_card_color(),
            card_opacity: Self::default_card_opacity(),
            card_border_color: Self::default_card_border_color(),
            card_border_size: Self::default_card_border_size(),
            card_rounded_corners: Self::default_card_rounded_corners(),
            card_gap: Self::default_card_gap(),
            number_color: Self::default_number_color(),
            font_path: Self::default_font_path(),
        }
    }
}

/// What the clock shows.
#[derive(Debug, Clone, Copy, PartialEq, Eq)]
pub struct DisplayConfig {
    pub show_seconds: bool,
    pub show_ampm: bool,
    pub show_leading_zero: bool,
}

impl Default for DisplayConfig {
    fn default() -> (display: Self)
        ensures
            display == (DisplayConfig {
                show_seconds: false,
                show_ampm: false,
                show_leading_zero: false,
            }),
    {
        DisplayConfig { show_seconds: false, show_ampm: false, show_leading_zero: false }
    }
}

/// Whether and how long cards flip.
#[derive(Debug, Clone, Copy, PartialEq, Eq)]
pub struct AnimationConfig {
    pub enabled: bool,
    pub duration_ms: u32,
}

impl AnimationConfig {
    pub fn default_enabled() -> (enabled: bool)
        ensures
            enabled,
    {
        true
    }

    pub fn default_duration_ms() -> (duration: u32)
        ensures
            duration == 500,
    {
        500
    }
}

impl Default for AnimationConfig {
    fn default() -> (animation: Self)
        ensures
            animation == (AnimationConfig { enabled: true, duration_ms: 500 }),
    {
        AnimationConfig {
            enabled: Self::default_enabled(),
            duration_ms: Self::default_duration_ms(),
        }
    }
}

/// The window the clock opens.
#[derive(Debug, Clone, Copy, PartialEq, Eq)]
pub struct WindowConfig {
    pub width: u32,
    pub height: u32,
    pub fullscreen: bool,
    pub close_on_any_input: bool,
}

impl WindowConfig {
    pub fn default_width() -> (width: u32)
        ensures
            width == 1280,
    {
        1280
    }

    pub fn default_height() -> (height: u32)
        ensures
            height == 720,
    {
        720
    }

    pub fn default_fs() -> (fullscreen: bool)
        ensures
            fullscreen,
    {
        true
    }

    pub fn default_any_close() -> (close: bool)
        ensures
            !close,
    {
        false
    }
}

impl Default for WindowConfig {
    fn default() -> (window: Self)
        ensures
            window == (WindowConfig {
                width: 1280,
                height: 720,
                fullscreen: true,
                close_on_any_input: false,
            }),
    {
        WindowConfig {
            width: Self::default_width(),
            height: Self::default_height(),
            fullscreen: true,
            close_on_any_input: false,
        }
    }
}

/// The whole configuration.
#[derive(Debug)]
pub struct Config {
    pub theme: ThemeConfig,
    pub display: DisplayConfig,
    pub animation: AnimationConfig,
    pub window: WindowConfig,
}

impl Default for Config {
    fn default() -> (config: Self)
        ensures
            config.theme.is_default(),
            config.display == (DisplayConfig {
                show_seconds: false,
                show_ampm: false,
                show_leading_zero: false,
            }),
            config.animation == (AnimationConfig { enabled: true, duration_ms: 500 }),
            config.window == (WindowConfig {
                width: 1280,
                height: 720,
                fullscreen: true,
                close_on_any_input: false,
            }),
    {
        Config {
            theme: ThemeConfig::default(),
            display: DisplayConfig::default(),
            animation: AnimationConfig::default(),
            window: WindowConfig::default(),
        }
    }
}

/// The settings the engine runs with, fixed for one run.
#[derive(Debug)]
pub struct ClockSettings {
    pub width: u32,
    pub height: u32,
    pub fullscreen: bool,
    pub use_24hour: bool,
    pub show_leading_zero: bool,
    pub background_color: RgbColor,
    pub background_opacity: u32,
    pub font_color: RgbColor,
    pub animate_flip: bool,
    pub animation_duration_ms: u32,
    pub close_on_any_input: bool,
    pub show_seconds: bool,
    pub font_path: String,
    pub card_color: RgbColor,
    pub card_border_color: RgbColor,
    pub card_border_size: u32,
    pub card_gap: i32,
    pub card_rounded_corners: bool,
}

impl ClockSettings {
    /// The canvas is no larger than the engine computes with, and the gap
    /// between the halves of a card is not negative.
    pub open spec fn well_formed(&self) -> bool {
        &&& self.width <= MAX_EXTENT
        &&& self.height <= MAX_EXTENT
        &&& self.card_gap >= 0
    }

    /// The two settings agree in every field.
    pub open spec fn same_as(&self, other: &ClockSettings) -> bool {
        &&& self.width == other.width
        &&& self.height == other.height
        &&& self.fullscreen == other.fullscreen
        &&& self.use_24hour == other.use_24hour
        &&& self.show_leading_zero == other.show_leading_zero
        &&& self.background_color == other.background_color
        &&& self.background_opacity == other.background_opacity
        &&& self.font_color == other.font_color
        &&& self.animate_flip == other.animate_flip
        &&& self.animation_duration_ms == other.animation_duration_ms
        &&& self.close_on_any_input == other.close_on_any_input
        &&& self.show_seconds == other.show_seconds
        &&& self.font_path@ == other.font_path@
        &&& self.card_color == other.card_color
        &&& self.card_border_color == other.card_border_color
        &&& self.card_border_size == other.card_border_size
        &&& self.card_gap == other.card_gap
        &&& self.card_rounded_corners == other.card_rounded_corners
    }

    /// Whether the settings can be drawn with: see `well_formed`.
    pub fn is_well_formed(&self) -> (ok: bool)
        ensures
            ok == self.well_formed(),
    {
        self.width <= MAX_EXTENT && self.height <= MAX_EXTENT && self.card_gap >= 0
    }
}

impl Clone for ClockSettings {
    fn clone(&self) -> (copy: Self)
        ensures
            copy.same_as(self),
    {
        ClockSettings {
            width: self.width,
            height: self.height,
            fullscreen: self.fullscreen,
            use_24hour: self.use_24hour,
            show_leading_zero: self.show_leading_zero,
            background_color: self.background_color,
            background_opacity: self.background_opacity,
            font_color: self.font_color,
            animate_flip: self.animate_flip,
            animation_duration_ms: self.animation_duration_ms,
            close_on_any_input: self.close_on_any_input,
            show_seconds: self.show_seconds,
            font_path: self.font_path.clone(),
            card_color: self.card_color,
            card_border_color: self.card_border_color,
            card_border_size: self.card_border_size,
            card_gap: self.card_gap,
            card_rounded_corners: self.card_rounded_corners,
        }
    }
}

/// The settings that a configuration stands for. A colour that cannot be
/// read becomes white; the 24-hour clock is used unless AM and PM are shown.
pub open spec fn settings_of(config: Config) -> ClockSettings {
    ClockSettings {
        width: config.window.width,
        height: config.window.height,
        fullscreen: config.window.fullscreen,
        use_24hour: !config.display.show_ampm,
        show_leading_zero: config.display.show_leading_zero,
        background_color: color_or_default(config.theme.background_color@),
        background_opacity: config.theme.background_opacity,
        font_color: color_or_default(config.theme.number_color@),
        animate_flip: config.animation.enabled,
        animation_duration_ms: config.animation.duration_ms,
        close_on_any_input: config.window.close_on_any_input,
        show_seconds: config.display.show_seconds,
        font_path: config.theme.font_path,
        card_color: color_or_default(config.theme.card_color@),
        card_border_color: color_or_default(config.theme.card_border_color@),
        card_border_size: config.theme.card_border_size,
        card_gap: config.theme.card_gap,
        card_rounded_corners: config.theme.card_rounded_corners,
    }
}

impl Config {
    pub fn to_clock_settings(&self) -> (settings: ClockSettings)
        ensures
            settings.same_as(&settings_of(*self)),
    {
        ClockSettings {
            background_color: RgbColor::parse_or_default(self.theme.background_color.as_str()),
            background_opacity: self.theme.background_opacity,
            font_color: RgbColor::parse_or_default(self.theme.number_color.as_str()),
            show_seconds: self.display.show_seconds,
            show_leading_zero: self.display.show_leading_zero,
            use_24hour: !self.display.show_ampm,
            width: self.window.width,
            height: self.window.height,
            fullscreen: self.window.fullscreen,
            close_on_any_input: self.window.close_on_any_input,
            animate_flip: self.animation.enabled,
            animation_duration_ms: self.animation.duration_ms,
            font_path: self.theme.font_path.clone(),
            card_color: RgbColor::parse_or_default(self.theme.card_color.as_str()),
            card_border_color: RgbColor::parse_or_default(self.theme.card_border_color.as_str()),
            card_border_size: self.theme.card_border_size,
            card_gap: self.theme.card_gap,
            card_rounded_corners: self.theme.card_rounded_corners,
        }
    }
}

/// The default colours read as written: near-black, black and white.
pub proof fn lemma_default_colors()
    ensures
        color_or_default("#0F0F0F"@) == (RgbColor { r: 15, g: 15, b: 15 }),
        color_or_default("#000000"@) == (RgbColor { r: 0, g: 0, b: 0 }),
        color_or_default("#FFFFFF"@) == (RgbColor { r: 255, g: 255, b: 255 }),
{
    reveal_strlit("#0F0F0F");
    reveal_strlit("#000000");
    reveal_strlit("#FFFFFF");
    lemma_one_hash("#0F0F0F"@);
    lemma_one_hash("#000000"@);
    lemma_one_hash("#FFFFFF"@);
}

proof fn lemma_one_hash(text: Seq<char>)
    requires
        text.len() >= 2,
        text[0] == '#',
        text[1] != '#',
    ensures
        leading_hashes(text) == 1,
{
    lemma_leading_hashes_counted(text, 1);
}

impl Default for ClockSettings {
    /// The settings of the default configuration: a 1280 by 720 canvas in
    /// 24-hour mode, white digits on black cards, half-second flips.
    fn default() -> (settings: Self)
        ensures
            settings.width == 1280,
            settings.height == 720,
            settings.fullscreen,
            settings.use_24hour,
            !settings.show_leading_zero,
            settings.background_color == (RgbColor { r: 15, g: 15, b: 15 }),
            settings.background_opacity == 800,
            settings.font_color == (RgbColor { r: 255, g: 255, b: 255 }),
            settings.animate_flip,
            settings.animation_duration_ms == 500,
            !settings.close_on_any_input,
            !settings.show_seconds,
            settings.font_path@ == "/usr/share/fonts/TTF/DejaVuSans.ttf"@,
            settings.card_color == (RgbColor { r: 0, g: 0, b: 0 }),
            settings.card_border_color == (RgbColor { r: 255, g: 255, b: 255 }),
            settings.card_border_size == 2,
            settings.card_gap == 5,
            settings.card_rounded_corners,
            settings.well_formed(),
    {
        proof {
            lemma_default_colors();
        }
        Config::default().to_clock_settings()
    }
}

} // verus!
