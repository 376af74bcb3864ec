use std::time::SystemTime;

use leafcast::app_env::{AppEnv, LogLevel, Rotation};
use leafcast::word_art::{compose_intro, create_art, display_intro, paint_text, Color, FontName, Intro};
use leafcast::zone::EnvTimeZone;

fn args(log_level: LogLevel) -> AppEnv {
    let na = String::from("na");
    AppEnv {
        location_images: na.clone(),
        location_ip_address: na.clone(),
        location_log: na.clone(),
        log_level,
        rotation: Rotation::Zero,
        start_time: SystemTime::now(),
        timezone: EnvTimeZone::utc(),
        ws_address: na.clone(),
        ws_apikey: na.clone(),
        ws_password: na.clone(),
        ws_token_address: na,
    }
}

#[test]
fn word_art_display_intro_trace() {
    let result = display_intro(&args(LogLevel::Trace), "0.1.0", "author", FontName::Big);
    assert!(result.contains("!! TRACE"));
    assert!(!result.contains("!! DEBUG"));
}

#[test]
fn word_art_display_intro_debug() {
    let result = display_intro(&args(LogLevel::Debug), "0.1.0", "author", FontName::Big);
    assert!(!result.contains("!! TRACE"));
    assert!(result.contains("!! DEBUG"));
}

#[test]
fn word_art_display_intro() {
    let result = display_intro(&args(LogLevel::Info), "0.1.0", "author", FontName::Big);
    assert!(!result.contains("!! DEBUG"));
    assert!(!result.contains("!! TRACE"));
}

#[test]
fn paint_lines() {
    assert_eq!(paint_text("", Color::Green), "\x1b[0m");
    assert_eq!(paint_text("ab", Color::Green), "\x1b[32mab\n\x1b[0m");
    assert_eq!(paint_text("a\r\nb\n", Color::Magenta), "\x1b[35ma\n\x1b[35mb\n\x1b[0m");
    assert_eq!(paint_text("a\n\nb\r", Color::BgRed), "\x1b[41ma\n\x1b[41m\n\x1b[41mb\r\n\x1b[0m");
}

#[test]
fn intro_layout() {
    let intro = compose_intro("X", "1.2.3", "me", LogLevel::Debug);
    let warning = paint_text("!! DEBUG MODE !!", Color::BgRed);
    let expected = format!(
        "{}{}\n{}{}{}\n",
        paint_text("X", Color::Magenta),
        paint_text("v1.2.3    me", Color::Green),
        warning,
        warning,
        warning
    );
    assert_eq!(intro, expected);
    let quiet = compose_intro("X", "1.2.3", "me", LogLevel::Warn);
    assert_eq!(quiet, format!("{}{}\n", paint_text("X", Color::Magenta), paint_text("v1.2.3    me", Color::Green)));
    assert!(!create_art("Leafcast", FontName::Standard).is_empty());
    let shown = Intro::new(&args(LogLevel::Trace), "0.1.0", "author", FontName::Big);
    assert!(shown.text().contains("!! TRACE MODE !!"));
}

#[test]
fn intro_is_the_art_of_leafcast() {
    let art = create_art("Leafcast", FontName::Big);
    assert!(art.contains('_'));
    assert_eq!(create_art("Leafcast", FontName::Big), art);
    assert_ne!(create_art("Leafcast", FontName::Slant), art);
    assert_eq!(create_art("", FontName::Small), "");
    for level in [LogLevel::Trace, LogLevel::Debug, LogLevel::Info] {
        let shown = display_intro(&args(level), "0.1.0", "author", FontName::Big);
        assert_eq!(shown, compose_intro(&art, "0.1.0", "author", level));
    }
}
