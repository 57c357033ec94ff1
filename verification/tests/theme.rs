use lapce_shell::color::{Color, ColorParseError};
use lapce_shell::environment::{
    customize_environment, scrollbar_color, theme_key_name, validate_theme, ColorSlot,
    FontDescriptor, StyleEnvironment, ThemeError, EDITOR_FONT_SIZE, EDITOR_LINE_HEIGHT,
};
use lapce_shell::theme::ThemeMap;

const WHITE: Color = Color { red: 255, green: 255, blue: 255, alpha: 255 };
const BLACK: Color = Color { red: 0, green: 0, blue: 0, alpha: 255 };

const THEMED: [(ColorSlot, &str); 8] = [
    (ColorSlot::EditorCurrentLineBackground, "line_highlight"),
    (ColorSlot::EditorCursorColor, "caret"),
    (ColorSlot::EditorForeground, "foreground"),
    (ColorSlot::EditorBackground, "background"),
    (ColorSlot::EditorSelectionColor, "selection"),
    (ColorSlot::EditorComment, "comment"),
    (ColorSlot::EditorError, "error"),
    (ColorSlot::EditorWarn, "warn"),
];

#[test]
fn theme_map_starts_empty() {
    let theme = ThemeMap::new();
    assert_eq!(theme.get("foreground"), None);
    assert_eq!(theme.get(""), None);
}

#[test]
fn theme_map_gives_back_what_was_inserted() {
    let mut theme = ThemeMap::new();
    assert_eq!(theme.insert("foreground", "#FFFFFF"), None);
    assert_eq!(theme.insert("background", "#000000"), None);
    assert_eq!(theme.get("foreground").map(|s| s.as_str()), Some("#FFFFFF"));
    assert_eq!(theme.get("background").map(|s| s.as_str()), Some("#000000"));
    assert_eq!(theme.get("caret"), None);
    assert_eq!(theme.get("Foreground"), None);
}

#[test]
fn theme_map_insert_replaces_and_returns_the_old_text() {
    let mut theme = ThemeMap::new();
    assert_eq!(theme.insert("caret", "#111111"), None);
    assert_eq!(theme.insert("warn", "#222222"), None);
    assert_eq!(theme.insert("caret", "#333333"), Some("#111111".to_string()));
    assert_eq!(theme.get("caret").map(|s| s.as_str()), Some("#333333"));
    assert_eq!(theme.get("warn").map(|s| s.as_str()), Some("#222222"));
    assert_eq!(theme.insert("caret", "#444444"), Some("#333333".to_string()));
}

#[test]
fn foreground_and_background_without_caret() {
    let mut theme = ThemeMap::new();
    theme.insert("foreground", "#FFFFFF");
    theme.insert("background", "#000000");
    let mut env = StyleEnvironment::new();
    customize_environment(&theme, &mut env);
    assert_eq!(env.color(ColorSlot::EditorForeground), Some(WHITE));
    assert_eq!(env.color(ColorSlot::EditorBackground), Some(BLACK));
    assert_eq!(env.color(ColorSlot::EditorCursorColor), None);
}

#[test]
fn absent_names_leave_what_the_environment_held() {
    let theme = ThemeMap::new();
    let mut env = StyleEnvironment::new();
    let held = Color { red: 9, green: 8, blue: 7, alpha: 6 };
    env.set(ColorSlot::EditorCursorColor, held);
    customize_environment(&theme, &mut env);
    for (slot, _) in THEMED {
        let expected = if slot == ColorSlot::EditorCursorColor { Some(held) } else { None };
        assert_eq!(env.color(slot), expected);
    }
}

#[test]
fn every_themed_slot_takes_the_colour_under_its_name() {
    let mut theme = ThemeMap::new();
    let texts = ["#010000", "#020000", "#030000", "#040000", "#050000", "#060000", "#070000", "#080000"];
    for (i, (_, name)) in THEMED.iter().enumerate() {
        theme.insert(name, texts[i]);
    }
    let mut env = StyleEnvironment::new();
    customize_environment(&theme, &mut env);
    for (i, (slot, _)) in THEMED.iter().enumerate() {
        assert_eq!(
            env.color(*slot),
            Some(Color { red: (i + 1) as u8, green: 0, blue: 0, alpha: 255 })
        );
    }
}

#[test]
fn each_subset_of_names_fills_exactly_its_slots() {
    for mask in 0u32..256 {
        let mut theme = ThemeMap::new();
        for (i, (_, name)) in THEMED.iter().enumerate() {
            if mask & (1 << i) != 0 {
                theme.insert(name, "#0a0b0c0d");
            }
        }
        let mut env = StyleEnvironment::new();
        customize_environment(&theme, &mut env);
        for (i, (slot, _)) in THEMED.iter().enumerate() {
            let expected = if mask & (1 << i) != 0 {
                Some(Color { red: 0x0a, green: 0x0b, blue: 0x0c, alpha: 0x0d })
            } else {
                None
            };
            assert_eq!(env.color(*slot), expected);
        }
    }
}

#[test]
fn a_text_that_is_no_colour_leaves_the_slot_as_it_was() {
    let mut theme = ThemeMap::new();
    theme.insert("caret", "not a colour");
    theme.insert("error", "#12345");
    theme.insert("warn", "#ff0000");
    let mut env = StyleEnvironment::new();
    env.set(ColorSlot::EditorError, BLACK);
    customize_environment(&theme, &mut env);
    assert_eq!(env.color(ColorSlot::EditorCursorColor), None);
    assert_eq!(env.color(ColorSlot::EditorError), Some(BLACK));
    assert_eq!(env.color(ColorSlot::EditorWarn), Some(Color { red: 255, green: 0, blue: 0, alpha: 255 }));
}

#[test]
fn names_that_the_editor_does_not_know_change_nothing() {
    let mut theme = ThemeMap::new();
    theme.insert("gutter", "#123456");
    theme.insert("scrollbar", "#123456");
    theme.insert("palette_background", "#123456");
    let mut with_theme = StyleEnvironment::new();
    customize_environment(&theme, &mut with_theme);
    let mut without = StyleEnvironment::new();
    customize_environment(&ThemeMap::new(), &mut without);
    assert_eq!(with_theme, without);
}

#[test]
fn fixed_styling_does_not_depend_on_the_theme() {
    let mut theme = ThemeMap::new();
    theme.insert("foreground", "#FFFFFF");
    let mut env = StyleEnvironment::new();
    env.set(ColorSlot::PaletteBackground, WHITE);
    env.set(ColorSlot::ScrollbarColor, WHITE);
    env.set_line_height(3);
    env.set_font(FontDescriptor { family: "Other".to_string(), size: 1 });
    customize_environment(&theme, &mut env);
    assert_eq!(env.color(ColorSlot::PaletteBackground), Some(Color { red: 125, green: 125, blue: 125, alpha: 255 }));
    assert_eq!(env.color(ColorSlot::PaletteInputForeground), Some(BLACK));
    assert_eq!(env.color(ColorSlot::PaletteInputBackground), Some(WHITE));
    assert_eq!(env.color(ColorSlot::PaletteInputBorder), Some(BLACK));
    assert_eq!(env.color(ColorSlot::ScrollbarColor), Some(Color { red: 0xc4, green: 0xc4, blue: 0xc4, alpha: 255 }));
    assert_eq!(env.editor_line_height, Some(25));
    assert_eq!(EDITOR_LINE_HEIGHT, 25);
    assert_eq!(EDITOR_FONT_SIZE, 13);
    assert_eq!(env.editor_font, Some(FontDescriptor { family: "Cascadia Code".to_string(), size: 13 }));
}

#[test]
fn scrollbar_colour_is_the_parsed_text() {
    assert_eq!(scrollbar_color(), Color { red: 0xc4, green: 0xc4, blue: 0xc4, alpha: 255 });
}

#[test]
fn customizing_twice_gives_the_same_environment() {
    let mut theme = ThemeMap::new();
    theme.insert("selection", "#abc");
    theme.insert("comment", "oops");
    let mut once = StyleEnvironment::new();
    customize_environment(&theme, &mut once);
    let mut twice = once.clone();
    customize_environment(&theme, &mut twice);
    assert_eq!(once, twice);
}

#[test]
fn new_environment_leaves_everything_to_the_toolkit() {
    let env = StyleEnvironment::new();
    for (slot, _) in THEMED {
        assert_eq!(env.color(slot), None);
    }
    assert_eq!(env.color(ColorSlot::PaletteBackground), None);
    assert_eq!(env.color(ColorSlot::PaletteInputForeground), None);
    assert_eq!(env.color(ColorSlot::PaletteInputBackground), None);
    assert_eq!(env.color(ColorSlot::PaletteInputBorder), None);
    assert_eq!(env.color(ColorSlot::ScrollbarColor), None);
    assert_eq!(env.editor_line_height, None);
    assert_eq!(env.editor_font, None);
}

#[test]
fn set_changes_one_slot_only() {
    let mut env = StyleEnvironment::new();
    env.set(ColorSlot::EditorComment, WHITE);
    env.set(ColorSlot::PaletteInputBorder, BLACK);
    assert_eq!(env.color(ColorSlot::EditorComment), Some(WHITE));
    assert_eq!(env.color(ColorSlot::PaletteInputBorder), Some(BLACK));
    assert_eq!(env.color(ColorSlot::EditorError), None);
    assert_eq!(env.editor_comment, Some(WHITE));
    assert_eq!(env.palette_input_border, Some(BLACK));
}

#[test]
fn theme_names_of_the_slots() {
    for (slot, name) in THEMED {
        assert_eq!(theme_key_name(slot), Some(name));
    }
    assert_eq!(theme_key_name(ColorSlot::PaletteBackground), None);
    assert_eq!(theme_key_name(ColorSlot::PaletteInputForeground), None);
    assert_eq!(theme_key_name(ColorSlot::PaletteInputBackground), None);
    assert_eq!(theme_key_name(ColorSlot::PaletteInputBorder), None);
    assert_eq!(theme_key_name(ColorSlot::ScrollbarColor), None);
}

#[test]
fn a_theme_of_colours_is_valid() {
    let mut theme = ThemeMap::new();
    assert_eq!(validate_theme(&theme), Ok(()));
    theme.insert("foreground", "#FFFFFF");
    theme.insert("background", "000");
    theme.insert("warn", "#12345678");
    assert_eq!(validate_theme(&theme), Ok(()));
}

#[test]
fn texts_under_unknown_names_are_not_checked() {
    let mut theme = ThemeMap::new();
    theme.insert("gutter", "no colour at all");
    assert_eq!(validate_theme(&theme), Ok(()));
}

#[test]
fn the_first_text_that_is_no_colour_is_named() {
    let mut theme = ThemeMap::new();
    theme.insert("warn", "#12");
    theme.insert("foreground", "#FFFFFF");
    theme.insert("comment", "#12345z");
    assert_eq!(
        validate_theme(&theme),
        Err(ThemeError {
            slot: ColorSlot::EditorComment,
            error: ColorParseError::NotHexDigit { index: 6, found: 'z' },
        })
    );
    theme.insert("comment", "#123456");
    assert_eq!(
        validate_theme(&theme),
        Err(ThemeError {
            slot: ColorSlot::EditorWarn,
            error: ColorParseError::WrongLength { digits: 2 },
        })
    );
    theme.insert("line_highlight", "");
    assert_eq!(
        validate_theme(&theme),
        Err(ThemeError {
            slot: ColorSlot::EditorCurrentLineBackground,
            error: ColorParseError::WrongLength { digits: 0 },
        })
    );
}
