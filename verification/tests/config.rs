use rust_4k::{load_config, ConfigurationError, GameConfig, Setting};

const SETTINGS: &str = "window: [480, 640]\noffset: [250]\nfilename: [songs/chart.osu]\nscroll: [1000]\n";

#[test]
fn settings_are_read_from_yaml() {
    let config = load_config(SETTINGS).unwrap();
    assert_eq!(
        config,
        GameConfig {
            height: 480,
            width: 640,
            offset: 250,
            filename: "songs/chart.osu".to_string(),
            scroll_speed: 1000,
        }
    );
    assert_eq!(config.clone(), config);
}

#[test]
fn settings_may_be_written_as_block_sequences() {
    let text = "scroll:\n  - -800\nfilename:\n  - \"a b.osu\"\noffset:\n  - 0\nwindow:\n  - 1080\n  - 1920\n  - 7\nextra: 1\n";
    assert_eq!(
        load_config(text),
        Ok(GameConfig {
            height: 1080,
            width: 1920,
            offset: 0,
            filename: "a b.osu".to_string(),
            scroll_speed: -800,
        })
    );
}

#[test]
fn only_the_first_document_counts() {
    let text = format!("{SETTINGS}---\nwindow: [1, 2]\n");
    assert_eq!(load_config(&text).unwrap().height, 480);
    let text = format!("---\nwindow: [1, 2]\n---\n{SETTINGS}");
    assert_eq!(
        load_config(&text),
        Err(ConfigurationError::InvalidSetting(Setting::Offset))
    );
}

#[test]
fn a_missing_setting_is_named() {
    let without = |key: &str| {
        let text: String =
            SETTINGS.lines().filter(|line| !line.starts_with(key)).map(|line| format!("{line}\n")).collect();
        load_config(&text)
    };
    assert_eq!(without("window"), Err(ConfigurationError::InvalidSetting(Setting::WindowHeight)));
    assert_eq!(without("offset"), Err(ConfigurationError::InvalidSetting(Setting::Offset)));
    assert_eq!(without("filename"), Err(ConfigurationError::InvalidSetting(Setting::Filename)));
    assert_eq!(without("scroll"), Err(ConfigurationError::InvalidSetting(Setting::ScrollSpeed)));
    assert_eq!(
        load_config("window: [480]\noffset: [0]\nfilename: [a.osu]\nscroll: [1]\n"),
        Err(ConfigurationError::InvalidSetting(Setting::WindowWidth))
    );
}

#[test]
fn a_setting_of_the_wrong_kind_is_named() {
    assert_eq!(
        load_config("window: [tall, 640]\noffset: [0]\nfilename: [a.osu]\nscroll: [1]\n"),
        Err(ConfigurationError::InvalidSetting(Setting::WindowHeight))
    );
    assert_eq!(
        load_config("window: [480, 640.5]\noffset: [0]\nfilename: [a.osu]\nscroll: [1]\n"),
        Err(ConfigurationError::InvalidSetting(Setting::WindowWidth))
    );
    assert_eq!(
        load_config("window: [480, 640]\noffset: 0\nfilename: [a.osu]\nscroll: [1]\n"),
        Err(ConfigurationError::InvalidSetting(Setting::Offset))
    );
    assert_eq!(
        load_config("window: [480, 640]\noffset: [0]\nfilename: [17]\nscroll: [1]\n"),
        Err(ConfigurationError::InvalidSetting(Setting::Filename))
    );
    assert_eq!(
        load_config("window: [480, 640]\noffset: [0]\nfilename: [a.osu]\nscroll: [\"1\"]\n"),
        Err(ConfigurationError::InvalidSetting(Setting::ScrollSpeed))
    );
    assert_eq!(
        load_config("- 480\n- 640\n"),
        Err(ConfigurationError::InvalidSetting(Setting::WindowHeight))
    );
}

#[test]
fn the_first_missing_setting_is_reported() {
    assert_eq!(
        load_config("filename: [a.osu]\n"),
        Err(ConfigurationError::InvalidSetting(Setting::WindowHeight))
    );
    assert_eq!(
        load_config("window: [1, 2]\nscroll: [0]\n"),
        Err(ConfigurationError::InvalidSetting(Setting::Offset))
    );
}

#[test]
fn a_scroll_speed_of_zero_is_refused() {
    assert_eq!(
        load_config("window: [480, 640]\noffset: [0]\nfilename: [a.osu]\nscroll: [0]\n"),
        Err(ConfigurationError::ZeroScrollSpeed)
    );
}

#[test]
fn a_text_without_a_document_is_refused() {
    assert_eq!(load_config(""), Err(ConfigurationError::MissingDocument));
    assert_eq!(load_config("# nothing here\n"), Err(ConfigurationError::MissingDocument));
}

#[test]
fn a_text_that_is_no_yaml_is_refused() {
    assert_eq!(load_config("window: [480, 640\n"), Err(ConfigurationError::InvalidDocument));
    assert_eq!(load_config("a: b: c: [\n"), Err(ConfigurationError::InvalidDocument));
}

#[test]
fn settings_are_put_together_in_a_fixed_order() {
    let name = || Some("a.osu".to_string());
    assert_eq!(
        GameConfig::from_settings(Some(1), Some(2), Some(3), name(), Some(4)),
        Ok(GameConfig { height: 1, width: 2, offset: 3, filename: "a.osu".to_string(), scroll_speed: 4 })
    );
    assert_eq!(
        GameConfig::from_settings(None, None, None, None, None),
        Err(ConfigurationError::InvalidSetting(Setting::WindowHeight))
    );
    assert_eq!(
        GameConfig::from_settings(Some(1), None, None, None, None),
        Err(ConfigurationError::InvalidSetting(Setting::WindowWidth))
    );
    assert_eq!(
        GameConfig::from_settings(Some(1), Some(2), None, None, Some(0)),
        Err(ConfigurationError::InvalidSetting(Setting::Offset))
    );
    assert_eq!(
        GameConfig::from_settings(Some(1), Some(2), Some(3), None, Some(0)),
        Err(ConfigurationError::InvalidSetting(Setting::Filename))
    );
    assert_eq!(
        GameConfig::from_settings(Some(1), Some(2), Some(3), name(), None),
        Err(ConfigurationError::InvalidSetting(Setting::ScrollSpeed))
    );
    assert_eq!(
        GameConfig::from_settings(Some(1), Some(2), Some(3), name(), Some(0)),
        Err(ConfigurationError::ZeroScrollSpeed)
    );
    assert_eq!(
        GameConfig::from_settings(Some(-1), Some(-2), Some(-3), Some(String::new()), Some(-4)),
        Ok(GameConfig { height: -1, width: -2, offset: -3, filename: String::new(), scroll_speed: -4 })
    );
}

/// The settings above, filled up with a comment to `length` characters.
fn settings_of_length(length: usize, filler: char) -> String {
    let mut text = String::from(SETTINGS);
    text.push('#');
    while text.chars().count() < length {
        text.push(filler);
    }
    text
}

#[test]
fn settings_of_the_greatest_length_are_read() {
    let text = settings_of_length(512, 'x');
    assert_eq!(text.chars().count(), 512);
    assert_eq!(load_config(&text).unwrap().filename, "songs/chart.osu");
}

#[test]
fn settings_beyond_the_greatest_length_are_refused() {
    let text = settings_of_length(513, 'x');
    assert_eq!(text.chars().count(), 513);
    assert_eq!(load_config(&text), Err(ConfigurationError::DocumentTooLong));
    let text = settings_of_length(100_000, 'x');
    assert_eq!(load_config(&text), Err(ConfigurationError::DocumentTooLong));
}

#[test]
fn the_length_of_settings_counts_characters() {
    // 512 characters in more than 512 bytes.
    let text = settings_of_length(512, '\u{e9}');
    assert_eq!(text.chars().count(), 512);
    assert!(text.len() > 512);
    assert_eq!(load_config(&text).unwrap().scroll_speed, 1000);
    let text = settings_of_length(513, '\u{e9}');
    assert_eq!(load_config(&text), Err(ConfigurationError::DocumentTooLong));
}

#[test]
fn settings_that_nest_too_deep_are_refused_unread() {
    // Every dash opens a sequence inside the one before.
    for levels in [256, 1_000, 50_000, 1_000_000] {
        let text = format!("{}1\n", "- ".repeat(levels));
        assert_eq!(load_config(&text), Err(ConfigurationError::DocumentTooLong), "{levels}");
    }
    let text = format!("{}1\n", "? ".repeat(50_000));
    assert_eq!(load_config(&text), Err(ConfigurationError::DocumentTooLong));
    let text = "[".repeat(50_000);
    assert_eq!(load_config(&text), Err(ConfigurationError::DocumentTooLong));
}

#[test]
fn settings_that_nest_as_deep_as_their_length_allows_are_answered() {
    let wrong_kind = Err(ConfigurationError::InvalidSetting(Setting::WindowHeight));
    // Sequences in sequences, 255 deep.
    let text = format!("{}1\n", "- ".repeat(255));
    assert_eq!(text.chars().count(), 512);
    assert_eq!(load_config(&text), wrong_kind);
    // Keys in keys.
    let text = format!("{}1\n", "? ".repeat(255));
    assert_eq!(load_config(&text), wrong_kind);
    // Sequences and keys in turn.
    let text = format!("{}1\n", "- ? ".repeat(127));
    assert_eq!(load_config(&text), wrong_kind);
    let text = format!("{}1\n", "? - ".repeat(127));
    assert_eq!(load_config(&text), wrong_kind);
    // Flow sequences, as deep as the loader lets them be, with block
    // sequences around them.
    let text = format!("{}{}1{}\n", "- ".repeat(100), "[".repeat(155), "]".repeat(155));
    assert_eq!(text.chars().count(), 512);
    assert_eq!(load_config(&text), wrong_kind);
    let text = format!("{}{}1{}", "- ".repeat(1), "[".repeat(254), "]".repeat(254));
    assert!(text.chars().count() <= 512);
    assert_eq!(load_config(&text), wrong_kind);
    // Flow mappings in flow sequences.
    let text = format!("{}1", "[{a: ".repeat(100));
    assert!(text.chars().count() <= 512);
    assert!(load_config(&text).is_err());
    // More flow levels than the loader takes.
    let text = "[".repeat(512);
    assert_eq!(load_config(&text), Err(ConfigurationError::InvalidDocument));
    // Mappings in mappings, by indentation.
    let mut text = String::new();
    for depth in 0..29 {
        text.push_str(&" ".repeat(depth));
        text.push_str("a:\n");
    }
    assert!(text.chars().count() <= 512);
    assert_eq!(load_config(&text), wrong_kind);
}

#[test]
fn the_deepest_settings_of_the_greatest_length_are_answered() {
    // 128 block levels and the 255 flow levels that the loader takes: no
    // text of 512 characters was found to nest deeper.
    for mark in ["- ", "? "] {
        let text = format!("{}{}", mark.repeat(128), "[".repeat(255));
        assert_eq!(text.chars().count(), 511);
        assert_eq!(load_config(&text), Err(ConfigurationError::InvalidDocument));
        let text = format!("{}{}", mark.repeat(128), "{".repeat(255));
        assert_eq!(load_config(&text), Err(ConfigurationError::InvalidDocument));
    }
}
