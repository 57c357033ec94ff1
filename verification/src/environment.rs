//! The styling environment and what the theme puts into it.

use crate::color::{hex_to_color, parse_hex_color, Color, ColorParseError};
use crate::theme::ThemeMap;
use vstd::prelude::*;

verus! {

/// The colour slots of the styling environment that the editor fills.
#[derive(Clone, Copy, Debug, PartialEq, Eq, Structural)]
pub enum ColorSlot {
    EditorCurrentLineBackground,
    EditorCursorColor,
    EditorForeground,
    EditorBackground,
    EditorSelectionColor,
    EditorComment,
    EditorError,
    EditorWarn,
    PaletteBackground,
    PaletteInputForeground,
    PaletteInputBackground,
    PaletteInputBorder,
    ScrollbarColor,
}

/// A font: its family and its size in points.
#[derive(Clone, Debug, PartialEq, Eq)]
pub struct FontDescriptor {
    pub family: String,
    pub size: u32,
}

/// The styling environment, slot by slot. A slot that holds `None` is left to
/// the toolkit, which then uses its built-in value.
#[derive(Clone, Debug, PartialEq, Eq)]
pub struct StyleEnvironment {
    pub editor_current_line_background: Option<Color>,
    pub editor_cursor_color: Option<Color>,
    pub editor_foreground: Option<Color>,
    pub editor_background: Option<Color>,
    pub editor_selection_color: Option<Color>,
    pub editor_comment: Option<Color>,
    pub editor_error: Option<Color>,
    pub editor_warn: Option<Color>,
    pub palette_background: Option<Color>,
    pub palette_input_foreground: Option<Color>,
    pub palette_input_background: Option<Color>,
    pub palette_input_border: Option<Color>,
    pub scrollbar_color: Option<Color>,
    pub editor_line_height: Option<u32>,
    pub editor_font: Option<FontDescriptor>,
}

/// The height of an editor line, in pixels.
pub const EDITOR_LINE_HEIGHT: u32 = 25;

/// The size of the editor font, in points.
pub const EDITOR_FONT_SIZE: u32 = 13;

/// The family of the editor font.
pub open spec fn editor_font_family() -> Seq<char> {
    "Cascadia Code"@
}

/// The name under which a theme gives the colour of `slot`; `None` for a slot
/// that no theme can change.
pub open spec fn theme_key(slot: ColorSlot) -> Option<Seq<char>> {
    match slot {
        ColorSlot::EditorCurrentLineBackground => Some("line_highlight"@),
        ColorSlot::EditorCursorColor => Some("caret"@),
        ColorSlot::EditorForeground => Some("foreground"@),
        ColorSlot::EditorBackground => Some("background"@),
        ColorSlot::EditorSelectionColor => Some("selection"@),
        ColorSlot::EditorComment => Some("comment"@),
        ColorSlot::EditorError => Some("error"@),
        ColorSlot::EditorWarn => Some("warn"@),
        _ => None,
    }
}

/// The colour of a slot that no theme can change; `None` for a themed slot.
pub open spec fn fixed_color(slot: ColorSlot) -> Option<Color> {
    match slot {
        ColorSlot::PaletteBackground => Some(Color { red: 125, green: 125, blue: 125, alpha: 255 }),
        ColorSlot::PaletteInputForeground => Some(Color { red: 0, green: 0, blue: 0, alpha: 255 }),
        ColorSlot::PaletteInputBackground => Some(
            Color { red: 255, green: 255, blue: 255, alpha: 255 },
        ),
        ColorSlot::PaletteInputBorder => Some(Color { red: 0, green: 0, blue: 0, alpha: 255 }),
        ColorSlot::ScrollbarColor => Some(
            Color { red: 0xc4, green: 0xc4, blue: 0xc4, alpha: 255 },
        ),
        _ => None,
    }
}

/// What `slot` holds once `theme` has been put into an environment in which
/// it held `before`.
///
/// A themed slot takes the colour that the theme writes under the slot's
/// name; where the theme has no such name, or a text there that is no
/// colour, the slot keeps what it held. Every other slot takes its fixed
/// colour.
pub open spec fn resolved_color(
    theme: Map<Seq<char>, Seq<char>>,
    before: Option<Color>,
    slot: ColorSlot,
) -> Option<Color> {
    match theme_key(slot) {
        Some(key) => if theme.contains_key(key) {
            match parse_hex_color(theme[key]) {
                Ok(color) => Some(color),
                Err(_) => before,
            }
        } else {
            before
        },
        None => fixed_color(slot),
    }
}

impl StyleEnvironment {
    /// What `slot` holds.
    pub open spec fn color_at(&self, slot: ColorSlot) -> Option<Color> {
        match slot {
            ColorSlot::EditorCurrentLineBackground => self.editor_current_line_background,
            ColorSlot::EditorCursorColor => self.editor_cursor_color,
            ColorSlot::EditorForeground => self.editor_foreground,
            ColorSlot::EditorBackground => self.editor_background,
            ColorSlot::EditorSelectionColor => self.editor_selection_color,
            ColorSlot::EditorComment => self.editor_comment,
            ColorSlot::EditorError => self.editor_error,
            ColorSlot::EditorWarn => self.editor_warn,
            ColorSlot::PaletteBackground => self.palette_background,
            ColorSlot::PaletteInputForeground => self.palette_input_foreground,
            ColorSlot::PaletteInputBackground => self.palette_input_background,
            ColorSlot::PaletteInputBorder => self.palette_input_border,
            ColorSlot::ScrollbarColor => self.scrollbar_color,
        }
    }

    /// The environment in which every slot is left to the toolkit.
    pub fn new() -> (env: StyleEnvironment)
        ensures
            forall|slot: ColorSlot| env.color_at(slot) is None,
            env.editor_line_height is None,
            env.editor_font is None,
    {
        StyleEnvironment {
            editor_current_line_background: None,
            editor_cursor_color: None,
            editor_foreground: None,
            editor_background: None,
            editor_selection_color: None,
            editor_comment: None,
            editor_error: None,
            editor_warn: None,
            palette_background: None,
            palette_input_foreground: None,
            palette_input_background: None,
            palette_input_border: None,
            scrollbar_color: None,
            editor_line_height: None,
            editor_font: None,
        }
    }

    /// What `slot` holds.
    pub fn color(&self, slot: ColorSlot) -> (color: Option<Color>)
        ensures
            color == self.color_at(slot),
    {
        match slot {
            ColorSlot::EditorCurrentLineBackground => self.editor_current_line_background,
            ColorSlot::EditorCursorColor => self.editor_cursor_color,
            ColorSlot::EditorForeground => self.editor_foreground,
            ColorSlot::EditorBackground => self.editor_background,
            ColorSlot::EditorSelectionColor => self.editor_selection_color,
            ColorSlot::EditorComment => self.editor_comment,
            ColorSlot::EditorError => self.editor_error,
            ColorSlot::EditorWarn => self.editor_warn,
            ColorSlot::PaletteBackground => self.palette_background,
            ColorSlot::PaletteInputForeground => self.palette_input_foreground,
            ColorSlot::PaletteInputBackground => self.palette_input_background,
            ColorSlot::PaletteInputBorder => self.palette_input_border,
            ColorSlot::ScrollbarColor => self.scrollbar_color,
        }
    }

    /// Sets the height of an editor line and leaves everything else as it is.
    pub fn set_line_height(&mut self, height: u32)
        ensures
            forall|s: ColorSlot| final(self).color_at(s) == old(self).color_at(s),
            final(self).editor_line_height == Some(height),
            final(self).editor_font == old(self).editor_font,
    {
        self.editor_line_height = Some(height);
    }

    /// Sets the editor font and leaves everything else as it is.
    pub fn set_font(&mut self, font: FontDescriptor)
        ensures
            forall|s: ColorSlot| final(self).color_at(s) == old(self).color_at(s),
            final(self).editor_line_height == old(self).editor_line_height,
            final(self).editor_font == Some(font),
    {
        self.editor_font = Some(font);
    }

    /// Puts `color` into `slot` and leaves everything else as it is.
    pub fn set(&mut self, slot: ColorSlot, color: Color)
        ensures
            forall|s: ColorSlot|
                final(self).color_at(s) == if s == slot {
                    Some(color)
                } else {
                    old(self).color_at(s)
                },
            final(self).editor_line_height == old(self).editor_line_height,
            final(self).editor_font == old(self).editor_font,
    {
        match slot {
            ColorSlot::EditorCurrentLineBackground => {
                self.editor_current_line_background = Some(color);
            },
            ColorSlot::EditorCursorColor => {
                self.editor_cursor_color = Some(color);
            },
            ColorSlot::EditorForeground => {
                self.editor_foreground = Some(color);
            },
            ColorSlot::EditorBackground => {
                self.editor_background = Some(color);
            },
            ColorSlot::EditorSelectionColor => {
                self.editor_selection_color = Some(color);
            },
            ColorSlot::EditorComment => {
                self.editor_comment = Some(color);
            },
            ColorSlot::EditorError => {
                self.editor_error = Some(color);
            },
            ColorSlot::EditorWarn => {
                self.editor_warn = Some(color);
            },
            ColorSlot::PaletteBackground => {
                self.palette_background = Some(color);
            },
            ColorSlot::PaletteInputForeground => {
                self.palette_input_foreground = Some(color);
            },
            ColorSlot::PaletteInputBackground => {
                self.palette_input_background = Some(color);
            },
            ColorSlot::PaletteInputBorder => {
                self.palette_input_border = Some(color);
            },
            ColorSlot::ScrollbarColor => {
                self.scrollbar_color = Some(color);
            },
        }
    }
}

/// The name under which a theme gives the colour of `slot`.
pub fn theme_key_name(slot: ColorSlot) -> (name: Option<&'static str>)
    ensures
        match name {
            Some(key) => theme_key(slot) == Some(key@),
            None => theme_key(slot) is None,
        },
{
    match slot {
        ColorSlot::EditorCurrentLineBackground => Some("line_highlight"),
        ColorSlot::EditorCursorColor => Some("caret"),
        ColorSlot::EditorForeground => Some("foreground"),
        ColorSlot::EditorBackground => Some("background"),
        ColorSlot::EditorSelectionColor => Some("selection"),
        ColorSlot::EditorComment => Some("comment"),
        ColorSlot::EditorError => Some("error"),
        ColorSlot::EditorWarn => Some("warn"),
        _ => None,
    }
}

/// The colour of the scrollbar, which is written as a colour text.
pub fn scrollbar_color() -> (color: Color)
    ensures
        Some(color) == fixed_color(ColorSlot::ScrollbarColor),
{
    let text = "#c4c4c4";
    proof {
        reveal_strlit("#c4c4c4");
        reveal_with_fuel(crate::color::first_non_hex, 8);
        let digits = crate::color::hex_digits(text@);
        assert(digits =~= seq!['c', '4', 'c', '4', 'c', '4']);
        assert(crate::color::first_non_hex(digits, 0) == 6);
    }
    match hex_to_color(text) {
        Ok(color) => color,
        Err(_) => vstd::pervasive::unreached(),
    }
}

/// Puts into the themed slot `slot` the colour that `theme` writes under the
/// slot's name. Where the theme has no such name, or a text there that is no
/// colour, the slot keeps what it held.
fn apply_theme_color(theme: &ThemeMap, env: &mut StyleEnvironment, slot: ColorSlot)
    requires
        theme_key(slot) is Some,
    ensures
        forall|s: ColorSlot|
            final(env).color_at(s) == if s == slot {
                resolved_color(theme@, old(env).color_at(slot), slot)
            } else {
                old(env).color_at(s)
            },
        final(env).editor_line_height == old(env).editor_line_height,
        final(env).editor_font == old(env).editor_font,
{
    if let Some(key) = theme_key_name(slot) {
        if let Some(text) = theme.get(key) {
            if let Ok(color) = hex_to_color(text.as_str()) {
                env.set(slot, color);
            }
        }
    }
}

/// Puts the theme and the editor's fixed styling into `env`.
///
/// Each themed slot takes the colour that `theme` writes under the slot's
/// name, and keeps what it held where the theme says nothing usable. The
/// palette colours, the scrollbar colour, the line height and the editor
/// font do not depend on the theme.
pub fn customize_environment(theme: &ThemeMap, env: &mut StyleEnvironment)
    ensures
        forall|slot: ColorSlot|
            final(env).color_at(slot) == resolved_color(theme@, old(env).color_at(slot), slot),
        final(env).editor_line_height == Some(EDITOR_LINE_HEIGHT),
        final(env).editor_font matches Some(font) && font.family@ == editor_font_family()
            && font.size == EDITOR_FONT_SIZE,
{
    apply_theme_color(theme, env, ColorSlot::EditorCurrentLineBackground);
    apply_theme_color(theme, env, ColorSlot::EditorCursorColor);
    apply_theme_color(theme, env, ColorSlot::EditorForeground);
    apply_theme_color(theme, env, ColorSlot::EditorBackground);
    apply_theme_color(theme, env, ColorSlot::EditorSelectionColor);
    apply_theme_color(theme, env, ColorSlot::EditorComment);
    apply_theme_color(theme, env, ColorSlot::EditorError);
    apply_theme_color(theme, env, ColorSlot::EditorWarn);
    env.set_line_height(EDITOR_LINE_HEIGHT);
    env.set(ColorSlot::PaletteBackground, Color::rgb8(125, 125, 125));
    env.set(ColorSlot::PaletteInputForeground, Color::rgb8(0, 0, 0));
    env.set(ColorSlot::PaletteInputBackground, Color::rgb8(255, 255, 255));
    env.set(ColorSlot::PaletteInputBorder, Color::rgb8(0, 0, 0));
    env.set_font(FontDescriptor { family: "Cascadia Code".to_owned(), size: EDITOR_FONT_SIZE });
    env.set(ColorSlot::ScrollbarColor, scrollbar_color());
}

/// What is wrong with the text that `theme` writes for `slot`: the reason for
/// which that text is no colour. `None` where the text is a colour, where the
/// theme has no text for the slot, and for a slot that no theme can change.
pub open spec fn slot_error(theme: Map<Seq<char>, Seq<char>>, slot: ColorSlot) -> Option<
    ColorParseError,
> {
    match theme_key(slot) {
        Some(key) => if theme.contains_key(key) {
            match parse_hex_color(theme[key]) {
                Ok(_) => None,
                Err(error) => Some(error),
            }
        } else {
            None
        },
        None => None,
    }
}

/// Whether every text that `theme` writes under the name of a themed slot is
/// a colour.
pub open spec fn theme_is_valid(theme: Map<Seq<char>, Seq<char>>) -> bool {
    forall|slot: ColorSlot| slot_error(theme, slot) is None
}

/// The place of a themed slot in the order in which a theme is checked; 8 for
/// a slot that no theme can change.
pub open spec fn slot_rank(slot: ColorSlot) -> int {
    match slot {
        ColorSlot::EditorCurrentLineBackground => 0,
        ColorSlot::EditorCursorColor => 1,
        ColorSlot::EditorForeground => 2,
        ColorSlot::EditorBackground => 3,
        ColorSlot::EditorSelectionColor => 4,
        ColorSlot::EditorComment => 5,
        ColorSlot::EditorError => 6,
        ColorSlot::EditorWarn => 7,
        _ => 8,
    }
}

/// A text of the theme that is no colour: the slot that it was written for,
/// and what is wrong with it.
#[derive(Clone, Copy, Debug, PartialEq, Eq, Structural)]
pub struct ThemeError {
    pub slot: ColorSlot,
    pub error: ColorParseError,
}

/// What is wrong with the text that `theme` writes for `slot`, if anything.
fn check_slot(theme: &ThemeMap, slot: ColorSlot) -> (found: Result<(), ThemeError>)
    ensures
        match found {
            Ok(_) => slot_error(theme@, slot) is None,
            Err(e) => e.slot == slot && slot_error(theme@, slot) == Some(e.error),
        },
{
    if let Some(key) = theme_key_name(slot) {
        if let Some(text) = theme.get(key) {
            if let Err(error) = hex_to_color(text.as_str()) {
                return Err(ThemeError { slot, error });
            }
        }
    }
    Ok(())
}

/// Checks the texts that `theme` writes for the themed slots, in the order of
/// `slot_rank`. It is `Ok` exactly for a valid theme; otherwise it names the
/// first slot whose text is no colour, and says what is wrong with the text.
pub fn validate_theme(theme: &ThemeMap) -> (checked: Result<(), ThemeError>)
    ensures
        match checked {
            Ok(_) => theme_is_valid(theme@),
            Err(e) => {
                &&& slot_error(theme@, e.slot) == Some(e.error)
                &&& forall|slot: ColorSlot|
                    slot_rank(slot) < slot_rank(e.slot) ==> slot_error(theme@, slot) is None
            },
        },
{
    check_slot(theme, ColorSlot::EditorCurrentLineBackground)?;
    check_slot(theme, ColorSlot::EditorCursorColor)?;
    check_slot(theme, ColorSlot::EditorForeground)?;
    check_slot(theme, ColorSlot::EditorBackground)?;
    check_slot(theme, ColorSlot::EditorSelectionColor)?;
    check_slot(theme, ColorSlot::EditorComment)?;
    check_slot(theme, ColorSlot::EditorError)?;
    check_slot(theme, ColorSlot::EditorWarn)?;
    assert forall|slot: ColorSlot| slot_error(theme@, slot) is None by {
        if slot_rank(slot) == 8 {
            assert(theme_key(slot) is None);
        }
    }
    Ok(())
}

/// Once a valid theme has been put into an environment, each themed slot
/// whose name the theme has holds the colour that the text there writes, and
/// each themed slot whose name the theme lacks holds what it held before,
/// which is the toolkit's own value.
pub proof fn lemma_valid_theme_fills_its_slots(
    theme: Map<Seq<char>, Seq<char>>,
    before: StyleEnvironment,
    after: StyleEnvironment,
)
    requires
        theme_is_valid(theme),
        forall|slot: ColorSlot|
            after.color_at(slot) == resolved_color(theme, before.color_at(slot), slot),
    ensures
        forall|slot: ColorSlot|
            #![trigger theme_key(slot)]
            theme_key(slot) is Some && theme.contains_key(theme_key(slot).unwrap()) ==> {
                &&& parse_hex_color(theme[theme_key(slot).unwrap()]) is Ok
                &&& after.color_at(slot) == Some(
                    parse_hex_color(theme[theme_key(slot).unwrap()]).unwrap(),
                )
            },
        forall|slot: ColorSlot|
            #![trigger theme_key(slot)]
            theme_key(slot) is Some && !theme.contains_key(theme_key(slot).unwrap())
                ==> after.color_at(slot) == before.color_at(slot),
{
    assert forall|slot: ColorSlot| #![trigger theme_key(slot)] theme_key(slot) is Some implies
        after.color_at(slot) == resolved_color(theme, before.color_at(slot), slot) && slot_error(
        theme,
        slot,
    ) is None by {}
}

} // verus!
