use flipclock::clock::{animation_progress, display_time, WallTime};
use flipclock::compositor::{
    am_pm_text, card_fits_in, clear, digit_bitmaps, flip_source, format_time, label_bitmap,
    present, render_am_pm, render_digit, render_digits, text_style,
};
use flipclock::config::{ClockSettings, RgbColor};
use flipclock::geometry::{draw_rounded_rect_border, fill_rounded_rect};
use flipclock::graphics_engine::{
    AnimationState, BitmapSize, Color, DrawCommand, FontRole, Rect, TextBitmap,
    TimeDigitPosition,
};

fn drawn(commands: Option<Vec<DrawCommand>>) -> Vec<DrawCommand> {
    commands.expect("the card can be drawn")
}

fn card() -> Rect {
    Rect::new(100, 50, 200, 100)
}

fn size() -> BitmapSize {
    BitmapSize { width: 80, height: 60 }
}

fn blit(value: u32, src: (i32, i32, u32, u32), dest: (i32, i32, u32, u32)) -> DrawCommand {
    DrawCommand::Blit {
        bitmap: TextBitmap::Digits(value),
        src: Rect::new(src.0, src.1, src.2, src.3),
        dest: Rect::new(dest.0, dest.1, dest.2, dest.3),
    }
}

fn background(settings: &ClockSettings, rect: &Rect) -> Vec<DrawCommand> {
    let radius = if settings.card_rounded_corners { (rect.height / 10) as i32 } else { 0 };
    let mut out = fill_rounded_rect(rect, Color::opaque(&settings.card_color), radius);
    if settings.card_border_size > 0 {
        out.extend(draw_rounded_rect_border(
            rect,
            Color::opaque(&settings.card_border_color),
            radius,
            settings.card_border_size,
        ));
    }
    out
}

fn gap_strip(settings: &ClockSettings) -> DrawCommand {
    DrawCommand::FillRect {
        rect: Rect::new(100, 97, 200, 5),
        color: Color::opaque(&settings.card_color),
    }
}

fn digits_of(commands: &[DrawCommand], settings: &ClockSettings) -> Vec<DrawCommand> {
    let skip = background(settings, &card()).len();
    assert_eq!(&commands[..skip], &background(settings, &card())[..]);
    commands[skip..].to_vec()
}

#[test]
fn leading_zero_is_shown_when_asked_for() {
    let mut s = ClockSettings::default();
    s.use_24hour = true;
    s.show_leading_zero = true;
    let reading = display_time(s.use_24hour, WallTime { hour: 9, minute: 5, second: 3 });
    assert_eq!(format_time(&s, reading.hour), "09");
    assert_eq!(format_time(&s, reading.minute), "05");
    assert_eq!(format_time(&s, reading.second), "03");
    assert_eq!(format_time(&s, 0), "00");
    assert_eq!(format_time(&s, 10), "10");
    assert_eq!(format_time(&s, 59), "59");
    assert_eq!(format_time(&s, 123), "123");
}

#[test]
fn no_leading_zero_by_default() {
    let mut s = ClockSettings::default();
    s.use_24hour = false;
    s.show_leading_zero = false;
    let reading = display_time(s.use_24hour, WallTime { hour: 13, minute: 0, second: 0 });
    assert_eq!(format_time(&s, reading.hour), "1");
    assert!(reading.is_pm);
    assert_eq!(format_time(&s, 0), "0");
    assert_eq!(format_time(&s, 7), "7");
    assert_eq!(format_time(&s, 42), "42");
    assert_eq!(format_time(&s, 4_294_967_295), "4294967295");
    assert_eq!(format_time(&s, 1_000_000_000), "1000000000");
}

#[test]
fn static_card_with_default_settings() {
    let s = ClockSettings::default();
    let commands = drawn(render_digits(&s, 7, None, &card(), false, 0, size(), size()));
    let expected = vec![
        blit(7, (0, 0, 80, 30), (160, 58, 80, 47)),
        blit(7, (0, 30, 80, 30), (160, 111, 80, 48)),
        gap_strip(&s),
    ];
    assert_eq!(digits_of(&commands, &s), expected);
}

#[test]
fn static_card_background_follows_settings() {
    let mut s = ClockSettings::default();
    s.card_color = RgbColor { r: 10, g: 20, b: 30 };
    s.card_border_color = RgbColor { r: 1, g: 2, b: 3 };
    s.card_border_size = 3;
    let commands = drawn(render_digits(&s, 7, None, &card(), false, 0, size(), size()));
    let mut expected = fill_rounded_rect(&card(), Color::rgb(10, 20, 30), 10);
    expected.extend(draw_rounded_rect_border(&card(), Color::rgb(1, 2, 3), 10, 3));
    assert_eq!(&commands[..expected.len()], &expected[..]);
    assert_eq!(commands.len(), expected.len() + 3);

    s.card_rounded_corners = false;
    s.card_border_size = 0;
    let commands = drawn(render_digits(&s, 7, None, &card(), false, 0, size(), size()));
    assert_eq!(commands.len(), 4);
    assert_eq!(
        commands[0],
        DrawCommand::FillRect { rect: card(), color: Color::rgb(10, 20, 30) }
    );
}

#[test]
fn wide_bitmap_is_centred_to_the_left_of_the_card() {
    let s = ClockSettings::default();
    let wide = BitmapSize { width: 301, height: 201 };
    let commands = drawn(render_digits(&s, 7, None, &card(), false, 0, wide, size()));
    let expected = vec![
        blit(7, (0, 0, 301, 100), (50, 24, 301, 47)),
        blit(7, (0, 100, 301, 100), (50, 76, 301, 48)),
        gap_strip(&s),
    ];
    assert_eq!(digits_of(&commands, &s), expected);
}

#[test]
fn flip_at_a_quarter_is_in_the_top_phase() {
    let s = ClockSettings::default();
    let progress = animation_progress(125, 500);
    assert_eq!(progress, 250);
    let commands = drawn(render_digits(&s, 6, Some(5), &card(), true, progress, size(), size()));
    let expected = vec![
        blit(6, (0, 0, 80, 5), (160, 50, 80, 5)),
        blit(5, (0, 0, 80, 30), (160, 56, 80, 41)),
        blit(5, (0, 30, 80, 30), (160, 102, 80, 48)),
        gap_strip(&s),
    ];
    assert_eq!(digits_of(&commands, &s), expected);
}

#[test]
fn flip_at_three_quarters_is_in_the_bottom_phase() {
    let s = ClockSettings::default();
    let progress = animation_progress(375, 500);
    assert_eq!(progress, 750);
    let commands = drawn(render_digits(&s, 6, Some(5), &card(), true, progress, size(), size()));
    let expected = vec![
        blit(6, (0, 0, 80, 30), (160, 50, 80, 47)),
        blit(5, (0, 72, 80, 6), (160, 144, 80, 6)),
        blit(6, (0, 30, 80, 42), (160, 102, 80, 42)),
        gap_strip(&s),
    ];
    assert_eq!(digits_of(&commands, &s), expected);
}

#[test]
fn flip_at_both_ends_and_in_the_middle() {
    let s = ClockSettings::default();
    let past = BitmapSize { width: 40, height: 20 };
    let start = drawn(render_digits(&s, 6, Some(5), &card(), true, 0, size(), past));
    assert_eq!(
        digits_of(&start, &s),
        vec![
            blit(6, (0, 0, 80, 0), (160, 50, 80, 0)),
            blit(5, (0, 0, 40, 10), (180, 50, 40, 47)),
            blit(5, (0, 10, 40, 10), (180, 102, 40, 48)),
            gap_strip(&s),
        ]
    );
    let middle = drawn(render_digits(&s, 6, Some(5), &card(), true, 500, size(), past));
    assert_eq!(
        digits_of(&middle, &s),
        vec![
            blit(6, (0, 0, 80, 30), (160, 50, 80, 47)),
            blit(5, (0, 10, 40, 48), (180, 102, 40, 48)),
            blit(6, (0, 30, 80, 0), (160, 102, 80, 0)),
            gap_strip(&s),
        ]
    );
    let end = drawn(render_digits(&s, 6, Some(5), &card(), true, 1000, size(), past));
    assert_eq!(
        digits_of(&end, &s),
        vec![
            blit(6, (0, 0, 80, 30), (160, 50, 80, 47)),
            blit(5, (0, 58, 40, 0), (180, 150, 40, 0)),
            blit(6, (0, 30, 80, 48), (160, 102, 80, 48)),
            gap_strip(&s),
        ]
    );
}

#[test]
fn card_that_is_not_animating_ignores_its_past() {
    let s = ClockSettings::default();
    let at_rest = drawn(render_digits(&s, 6, None, &card(), false, 0, size(), size()));
    assert_eq!(drawn(render_digits(&s, 6, Some(5), &card(), false, 700, size(), size())), at_rest);
    let other = BitmapSize { width: 1, height: 1 };
    assert_eq!(drawn(render_digits(&s, 6, None, &card(), false, 300, size(), other)), at_rest);
}

#[test]
fn animating_card_without_past_shows_its_digits() {
    let s = ClockSettings::default();
    let at_rest = drawn(render_digits(&s, 6, None, &card(), false, 0, size(), size()));
    assert_eq!(drawn(render_digits(&s, 6, None, &card(), true, 400, size(), size())), at_rest);
    let state = AnimationState {
        current_value: 6,
        previous_value: None,
        is_animating: true,
        progress: 400,
    };
    assert_eq!(flip_source(&Some(state)), None);
    assert_eq!(
        drawn(render_digit(&s, 6, TimeDigitPosition::Hour, &card(), Some(state), size(), size())),
        at_rest
    );
}

#[test]
fn static_render_twice_is_identical() {
    let s = ClockSettings::default();
    let first = drawn(render_digit(&s, 12, TimeDigitPosition::Minute, &card(), None, size(), size()));
    let second = drawn(render_digit(&s, 12, TimeDigitPosition::Minute, &card(), None, size(), size()));
    assert_eq!(first, second);
    assert_eq!(first, drawn(render_digits(&s, 12, None, &card(), false, 0, size(), size())));
}

#[test]
fn render_digit_follows_the_animation_state() {
    let s = ClockSettings::default();
    let state = AnimationState {
        current_value: 6,
        previous_value: Some(5),
        is_animating: true,
        progress: 250,
    };
    assert_eq!(flip_source(&Some(state)), Some(5));
    assert_eq!(
        drawn(render_digit(&s, 6, TimeDigitPosition::Minute, &card(), Some(state), size(), size())),
        drawn(render_digits(&s, 6, Some(5), &card(), true, 250, size(), size()))
    );
    let idle = AnimationState { is_animating: false, ..state };
    assert_eq!(flip_source(&Some(idle)), None);
    assert_eq!(flip_source(&None), None);
    assert_eq!(
        drawn(render_digit(&s, 6, TimeDigitPosition::Second, &card(), Some(idle), size(), size())),
        drawn(render_digits(&s, 6, None, &card(), false, 0, size(), size()))
    );
}

#[test]
fn gap_may_take_the_whole_card() {
    let mut s = ClockSettings::default();
    s.card_gap = 100;
    s.card_border_size = 0;
    s.card_rounded_corners = false;
    let commands = drawn(render_digits(&s, 3, None, &card(), false, 0, size(), size()));
    assert_eq!(
        commands,
        vec![
            DrawCommand::FillRect { rect: card(), color: Color::rgb(0, 0, 0) },
            blit(3, (0, 0, 80, 30), (160, 35, 80, 0)),
            blit(3, (0, 30, 80, 30), (160, 135, 80, 0)),
            DrawCommand::FillRect { rect: Rect::new(100, 50, 200, 100), color: Color::rgb(0, 0, 0) },
        ]
    );
}

#[test]
fn pm_label_sits_near_the_bottom_of_the_hour_card() {
    let mut s = ClockSettings::default();
    s.use_24hour = false;
    let label = BitmapSize { width: 30, height: 12 };
    assert_eq!(am_pm_text(true), "PM");
    assert_eq!(
        drawn(render_am_pm(&s, &card(), true, label)),
        vec![DrawCommand::Blit {
            bitmap: TextBitmap::Pm,
            src: Rect::new(0, 0, 30, 12),
            dest: Rect::new(185, 128, 30, 12),
        }]
    );
}

#[test]
fn am_label_sits_near_the_top_of_the_hour_card() {
    let mut s = ClockSettings::default();
    s.use_24hour = false;
    let label = BitmapSize { width: 31, height: 12 };
    assert_eq!(am_pm_text(false), "AM");
    assert_eq!(
        drawn(render_am_pm(&s, &Rect::new(100, 50, 201, 100), false, label)),
        vec![DrawCommand::Blit {
            bitmap: TextBitmap::Am,
            src: Rect::new(0, 0, 31, 12),
            dest: Rect::new(185, 60, 31, 12),
        }]
    );
}

#[test]
fn no_label_on_the_24_hour_clock() {
    let s = ClockSettings::default();
    assert!(s.use_24hour);
    assert_eq!(drawn(render_am_pm(&s, &card(), true, size())), vec![]);
    assert_eq!(drawn(render_am_pm(&s, &card(), false, size())), vec![]);
}

#[test]
fn clear_fills_with_the_background_colour() {
    let mut s = ClockSettings::default();
    assert_eq!(
        clear(&s),
        vec![DrawCommand::Clear { color: Color::rgba(15, 15, 15, 255) }]
    );
    s.background_color = RgbColor { r: 1, g: 2, b: 3 };
    s.background_opacity = 0;
    assert_eq!(
        clear(&s),
        vec![DrawCommand::Clear { color: Color::rgba(1, 2, 3, 255) }]
    );
    assert_eq!(present(), vec![DrawCommand::Present]);
}

#[test]
fn cards_that_cannot_be_drawn_are_refused() {
    let s = ClockSettings::default();
    let h = TimeDigitPosition::Hour;
    assert!(render_digit(&s, 7, h, &card(), None, size(), size()).is_some());
    let far = Rect::new(0x4000_0000, 0, 10, 10);
    assert_eq!(render_digit(&s, 7, h, &far, None, size(), size()), None);
    assert_eq!(render_digits(&s, 7, None, &far, false, 0, size(), size()), None);
    let low = Rect::new(0, 0, 200, 4);
    assert!(!card_fits_in(&s, &low));
    assert_eq!(render_digit(&s, 7, h, &low, None, size(), size()), None);
    let huge = BitmapSize { width: 0x4000_0000, height: 1 };
    assert_eq!(render_digit(&s, 7, h, &card(), None, huge, size()), None);
    // the size of the past bitmap and the progress matter only in a flip
    assert!(render_digit(&s, 7, h, &card(), None, size(), huge).is_some());
    assert!(render_digits(&s, 7, Some(6), &card(), false, 5000, size(), huge).is_some());
    assert!(render_digits(&s, 7, None, &card(), true, 5000, size(), huge).is_some());
    let state = AnimationState {
        current_value: 7,
        previous_value: Some(6),
        is_animating: true,
        progress: 10,
    };
    assert!(render_digit(&s, 7, h, &card(), Some(state), size(), size()).is_some());
    assert_eq!(render_digit(&s, 7, h, &card(), Some(state), size(), huge), None);
    let late = AnimationState { progress: 1001, ..state };
    assert_eq!(render_digit(&s, 7, h, &card(), Some(late), size(), size()), None);
    assert_eq!(render_digits(&s, 7, Some(6), &card(), true, 1001, size(), size()), None);
    let idle = AnimationState { is_animating: false, ..late };
    assert!(render_digit(&s, 7, h, &card(), Some(idle), size(), size()).is_some());
    let mut thick = ClockSettings::default();
    thick.card_border_size = 52;
    assert!(!card_fits_in(&thick, &card()));
    assert_eq!(render_digits(&thick, 7, None, &card(), false, 0, size(), size()), None);
    thick.card_border_size = 51;
    assert!(card_fits_in(&thick, &card()));
    let mut negative = ClockSettings::default();
    negative.card_gap = -1;
    assert!(!card_fits_in(&negative, &card()));
    assert_eq!(render_digits(&negative, 7, None, &card(), false, 0, size(), size()), None);

    let mut twelve = ClockSettings::default();
    twelve.use_24hour = false;
    assert!(render_am_pm(&twelve, &card(), true, size()).is_some());
    assert_eq!(render_am_pm(&twelve, &far, false, size()), None);
    let deep = Rect::new(0, -0x3FFF_FFFF, 10, 0);
    let tall = BitmapSize { width: 1, height: 0x3FFF_FFFF };
    assert_eq!(render_am_pm(&twelve, &deep, true, tall), None);
    assert!(render_am_pm(&twelve, &deep, false, tall).is_some());
    // on the 24-hour clock there is no label, wherever the card lies
    assert_eq!(render_am_pm(&s, &far, true, huge), Some(vec![]));
}

#[test]
fn static_render_is_repeatable_for_every_card() {
    let s = ClockSettings::default();
    for rect in [card(), Rect::new(0, 0, 200, 4), Rect::new(i32::MAX, i32::MIN, u32::MAX, 1)] {
        let first = render_digits(&s, 12, None, &rect, false, 0, size(), size());
        let second = render_digits(&s, 12, None, &rect, false, 0, size(), size());
        assert_eq!(first, second);
    }
}

#[test]
fn text_bitmaps_are_rasterised_in_the_font_colour() {
    let mut s = ClockSettings::default();
    s.font_color = RgbColor { r: 9, g: 8, b: 7 };
    s.show_leading_zero = true;
    let digits = text_style(&s, TextBitmap::Digits(5));
    assert_eq!(digits.text, "05");
    assert_eq!(digits.color, Color::rgba(9, 8, 7, 255));
    assert_eq!(digits.font, FontRole::Time);
    s.show_leading_zero = false;
    assert_eq!(text_style(&s, TextBitmap::Digits(5)).text, "5");
    let am = text_style(&s, TextBitmap::Am);
    assert_eq!((am.text.as_str(), am.color, am.font), ("AM", Color::rgb(9, 8, 7), FontRole::Mode));
    let pm = text_style(&s, TextBitmap::Pm);
    assert_eq!((pm.text.as_str(), pm.color, pm.font), ("PM", Color::rgb(9, 8, 7), FontRole::Mode));
}

#[test]
fn a_card_needs_the_bitmaps_of_its_values() {
    assert_eq!(digit_bitmaps(6, &None), vec![TextBitmap::Digits(6)]);
    let state = AnimationState {
        current_value: 6,
        previous_value: Some(5),
        is_animating: true,
        progress: 250,
    };
    assert_eq!(
        digit_bitmaps(6, &Some(state)),
        vec![TextBitmap::Digits(6), TextBitmap::Digits(5)]
    );
    let idle = AnimationState { is_animating: false, ..state };
    assert_eq!(digit_bitmaps(6, &Some(idle)), vec![TextBitmap::Digits(6)]);
    let fresh = AnimationState { previous_value: None, ..state };
    assert_eq!(digit_bitmaps(6, &Some(fresh)), vec![TextBitmap::Digits(6)]);
}

#[test]
fn the_label_exists_only_on_the_12_hour_clock() {
    let mut s = ClockSettings::default();
    assert_eq!(label_bitmap(&s, true), None);
    assert_eq!(label_bitmap(&s, false), None);
    s.use_24hour = false;
    assert_eq!(label_bitmap(&s, true), Some(TextBitmap::Pm));
    assert_eq!(label_bitmap(&s, false), Some(TextBitmap::Am));
}
