//! Colors and the files of the cache.

use calendar_settings::cache::delete_calendar_cache;
use calendar_settings::color::{can_parse_color, color_presets, parse_hex_color, Rgb};

fn rgb(red: u8, green: u8, blue: u8) -> Rgb {
    Rgb { red, green, blue }
}

#[test]
fn colors_are_read() {
    assert_eq!(parse_hex_color("#1a73e8"), rgb(0x1a, 0x73, 0xe8));
    assert_eq!(parse_hex_color("1A73E8"), rgb(0x1a, 0x73, 0xe8));
    assert_eq!(parse_hex_color("##000000"), rgb(0, 0, 0));
    assert_eq!(parse_hex_color("#ffffffff"), rgb(255, 255, 255));
}

#[test]
fn unreadable_colors_are_grey() {
    assert_eq!(parse_hex_color(""), rgb(128, 128, 128));
    assert_eq!(parse_hex_color("#fff"), rgb(128, 128, 128));
    assert_eq!(parse_hex_color("#gg00zz"), rgb(128, 0, 128));
    assert_eq!(parse_hex_color("#éé10"), rgb(128, 128, 0x10));
}

#[test]
fn parts_are_read_as_the_standard_library_reads_them() {
    for a in 0..128_u8 {
        for b in 0..128_u8 {
            let part = String::from_utf8(vec![a, b]).unwrap();
            if part.starts_with('#') {
                continue;
            }
            let expected = u8::from_str_radix(&part, 16).unwrap_or(128);
            assert_eq!(parse_hex_color(&format!("{part}0000")).red, expected, "{part:?}");
        }
    }
}

#[test]
fn every_written_color_is_read_back() {
    for n in 0..=255_u8 {
        let written = format!("#{n:02x}{:02x}{:02x}", 255 - n, n / 2);
        assert_eq!(parse_hex_color(&written), rgb(n, 255 - n, n / 2));
    }
}

#[test]
fn parts_may_not_cut_through_characters() {
    for s in ["#1a73e8", "", "é", "éé10", "aéaaa", "aaaéa", "aaaaaé", "aaaaaaé", "日本語"] {
        let t = s.trim_start_matches('#');
        let whole = t.len() < 6
            || (t.is_char_boundary(2) && t.is_char_boundary(4) && t.is_char_boundary(6));
        assert_eq!(can_parse_color(s), whole, "{s}");
    }
}

#[test]
fn presets() {
    let presets = color_presets();
    assert_eq!(
        presets,
        vec![
            "#1a73e8", "#d50000", "#e67c73", "#f4511e", "#f6bf26", "#33b679", "#0b8043", "#039be5",
            "#7986cb", "#8e24aa", "#616161", "#795548",
        ]
    );
    for preset in presets {
        assert!(can_parse_color(preset));
    }
}

fn paths(xdg: Option<&str>, home: Option<&str>) -> Vec<String> {
    delete_calendar_cache(xdg.map(str::to_string), home.map(str::to_string))
        .iter()
        .map(|components| components.join("/"))
        .collect()
}

#[test]
fn cache_lies_in_the_settings_directory() {
    let expected = vec![
        "/cfg/cosmic/com.system76.CosmicAppletTime.Calendar/v1/event_cache.json".to_string(),
        "/cfg/cosmic/com.system76.CosmicAppletTime.Calendar/v1/ctag_cache.json".to_string(),
    ];
    assert_eq!(paths(Some("/cfg"), Some("/home/me")), expected);
    assert_eq!(paths(Some("/cfg"), None), expected);
}

#[test]
fn cache_lies_in_the_home_directory_otherwise() {
    let dir = "/home/me/.config/cosmic/com.system76.CosmicAppletTime.Calendar/v1";
    let expected = vec![format!("{dir}/event_cache.json"), format!("{dir}/ctag_cache.json")];
    assert_eq!(paths(Some(""), Some("/home/me")), expected);
    assert_eq!(paths(None, Some("/home/me")), expected);
    assert_eq!(paths(Some(""), None), Vec::<String>::new());
}
