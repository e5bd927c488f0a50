use cxline::color_picker::ColorPicker;
use cxline::color_picker::ColorPickerMode;
use cxline::color_picker::ColorTarget;
use cxline::color_picker::RgbField;
use cxline::color_picker::get_color_name;
use cxline::icon_selector::IconSelector;
use cxline::icon_selector::IconStyle;
use cxline::icon_selector::get_nerd_font_icons;
use cxline::icon_selector::get_plain_icons;
use cxline::name_input::NameInputDialog;
use cxline::separator_editor::SeparatorEditor;
use cxline::style::AnsiColor;
use cxline::style::StyleMode;

#[test]
fn color_picker_open_resets() {
    let mut picker = ColorPicker::default();
    picker.selected_basic = 7;
    picker.open(ColorTarget::TextColor, Some(AnsiColor::Rgb { r: 1, g: 2, b: 3 }));
    assert!(picker.is_open);
    assert_eq!(picker.mode, ColorPickerMode::Basic16);
    assert_eq!(picker.selected_basic, 0);
    assert_eq!(picker.selected_extended, 0);
    assert_eq!(picker.target_field, ColorTarget::TextColor);
    assert_eq!(picker.get_selected_color(), Some(AnsiColor::Rgb { r: 1, g: 2, b: 3 }));
}

#[test]
fn color_picker_horizontal_wraps_full_cycle() {
    let mut picker = ColorPicker::default();
    picker.open(ColorTarget::IconColor, None);
    picker.selected_basic = 5;
    for _ in 0..16 {
        picker.move_horizontal(1);
    }
    // a full sweep over the sixteen colors comes back to the start
    assert_eq!(picker.selected_basic, 5);
    picker.selected_basic = 0;
    picker.move_horizontal(-1);
    assert_eq!(picker.selected_basic, 15);
    assert_eq!(picker.get_selected_color(), Some(AnsiColor::Color16 { c16: 15 }));
}

#[test]
fn color_picker_extended_full_cycle() {
    let mut picker = ColorPicker::default();
    picker.open(ColorTarget::IconColor, None);
    picker.cycle_mode();
    picker.selected_extended = 17;
    for _ in 0..256 {
        picker.move_horizontal(1);
    }
    // a full sweep over the 256-color palette comes back to the start
    assert_eq!(picker.selected_extended, 17);
    for _ in 0..256 {
        picker.move_horizontal(-1);
    }
    assert_eq!(picker.selected_extended, 17);
}

#[test]
fn color_picker_basic_left_cycle() {
    let mut picker = ColorPicker::default();
    picker.open(ColorTarget::IconColor, None);
    picker.selected_basic = 3;
    for _ in 0..16 {
        picker.move_horizontal(-1);
    }
    assert_eq!(picker.selected_basic, 3);
}

#[test]
fn color_picker_extended_wraps() {
    let mut picker = ColorPicker::default();
    picker.open(ColorTarget::IconColor, None);
    picker.cycle_mode();
    assert_eq!(picker.mode, ColorPickerMode::Extended256);
    picker.selected_extended = 255;
    picker.move_horizontal(1);
    assert_eq!(picker.selected_extended, 0);
    picker.move_horizontal(-1);
    assert_eq!(picker.selected_extended, 255);
    assert_eq!(picker.get_selected_color(), Some(AnsiColor::Color256 { c256: 255 }));
}

#[test]
fn color_picker_vertical_clamps() {
    let mut picker = ColorPicker::default();
    picker.open(ColorTarget::IconColor, None);
    // eight columns: two rows of eight
    assert_eq!(picker.cached_basic_cols, 8);
    picker.move_vertical(1);
    assert_eq!(picker.selected_basic, 8);
    picker.move_vertical(1);
    // already on the last row: stays
    assert_eq!(picker.selected_basic, 8);
    picker.move_vertical(-1);
    assert_eq!(picker.selected_basic, 0);
    picker.move_vertical(-1);
    assert_eq!(picker.selected_basic, 0);
}

#[test]
fn color_picker_vertical_short_last_row() {
    let mut picker = ColorPicker::default();
    picker.open(ColorTarget::IconColor, None);
    picker.cached_basic_cols = 3;
    picker.selected_basic = 14;
    // the row below holds only index 15: the result clamps there
    picker.move_vertical(1);
    assert_eq!(picker.selected_basic, 15);
}

#[test]
fn color_picker_rgb_field_cycle() {
    let mut picker = ColorPicker::default();
    picker.open(ColorTarget::IconColor, None);
    picker.cycle_mode();
    picker.cycle_mode();
    assert_eq!(picker.mode, ColorPickerMode::RgbInput);
    assert_eq!(picker.rgb_input.editing_field, RgbField::Red);
    picker.move_horizontal(1);
    assert_eq!(picker.rgb_input.editing_field, RgbField::Green);
    picker.move_horizontal(1);
    picker.move_horizontal(1);
    assert_eq!(picker.rgb_input.editing_field, RgbField::Hex);
    picker.move_horizontal(1);
    assert_eq!(picker.rgb_input.editing_field, RgbField::Red);
    picker.move_horizontal(-1);
    assert_eq!(picker.rgb_input.editing_field, RgbField::Hex);
}

#[test]
fn color_picker_rgb_numeric_entry() {
    let mut picker = ColorPicker::default();
    picker.open(ColorTarget::IconColor, None);
    picker.cycle_mode();
    picker.cycle_mode();
    picker.input_char('2');
    picker.input_char('5');
    picker.input_char('5');
    picker.input_char('9');  // a fourth digit is dropped
    assert_eq!(picker.rgb_input.r, "255");
    picker.move_horizontal(1);
    picker.input_char('1');
    picker.input_char('2');
    picker.input_char('8');
    picker.move_horizontal(1);
    picker.input_char('0');
    assert_eq!(picker.get_selected_color(), Some(AnsiColor::Rgb { r: 255, g: 128, b: 0 }));
}

#[test]
fn color_picker_hex_entry_wins() {
    let mut picker = ColorPicker::default();
    picker.open(ColorTarget::IconColor, None);
    picker.cycle_mode();
    picker.cycle_mode();
    picker.move_horizontal(-1);  // to the hex field
    for c in ['f', 'f', '8', '0', '0', '0'] {
        picker.input_char(c);
    }
    assert_eq!(picker.rgb_input.hex, "FF8000");
    assert_eq!(picker.get_selected_color(), Some(AnsiColor::Rgb { r: 255, g: 128, b: 0 }));
    // a non-hex character is dropped
    picker.backspace();
    picker.input_char('x');
    assert_eq!(picker.rgb_input.hex, "FF800");
}

#[test]
fn color_picker_partial_entry_keeps_color() {
    let mut picker = ColorPicker::default();
    picker.open(ColorTarget::IconColor, Some(AnsiColor::Color16 { c16: 4 }));
    picker.cycle_mode();
    picker.cycle_mode();
    picker.input_char('7');
    // one numeric field alone is not a full color: the old one stays
    assert_eq!(picker.get_selected_color(), Some(AnsiColor::Color16 { c16: 4 }));
}

#[test]
fn color_names() {
    assert_eq!(get_color_name(0), "Black");
    assert_eq!(get_color_name(6), "Cyan");
    assert_eq!(get_color_name(15), "Gray");
    assert_eq!(get_color_name(42), "Unknown");
}

#[test]
fn icon_selector_open_and_move() {
    let mut sel = IconSelector::default();
    sel.open(StyleMode::Plain);
    assert!(sel.is_open);
    assert_eq!(sel.icon_style, IconStyle::Plain);
    assert_eq!(sel.get_selected_icon().unwrap(), "🤖");
    sel.move_selection(1);
    assert_eq!(sel.get_selected_icon().unwrap(), "💻");
    sel.move_selection(-10);
    assert_eq!(sel.selected_plain, 0);
    sel.move_selection(100);
    assert_eq!(sel.selected_plain, 15);
    assert_eq!(sel.get_selected_icon().unwrap(), "▶");
}

#[test]
fn icon_selector_toggle_and_nerd() {
    let mut sel = IconSelector::default();
    sel.open(StyleMode::Powerline);
    assert_eq!(sel.icon_style, IconStyle::NerdFont);
    assert_eq!(sel.get_selected_icon().unwrap(), "\u{e26d}");
    sel.toggle_style();
    assert_eq!(sel.icon_style, IconStyle::Plain);
    assert_eq!(sel.get_selected_icon().unwrap(), "🤖");
}

#[test]
fn icon_selector_custom_input() {
    let mut sel = IconSelector::default();
    sel.open(StyleMode::Plain);
    sel.start_custom_input();
    sel.input_char('X');
    sel.input_char('Y');
    sel.backspace();
    assert!(sel.finish_custom_input());
    assert_eq!(sel.get_selected_icon().unwrap(), "X");
    sel.start_custom_input();
    assert!(!sel.finish_custom_input());
    assert_eq!(sel.get_selected_icon().unwrap(), "X");
}

#[test]
fn icon_catalogs() {
    let plain = get_plain_icons();
    assert_eq!(plain.len(), 16);
    assert_eq!(plain[0].icon, "🤖");
    assert_eq!(plain[0].name, "Robot (Model)");
    let nerd = get_nerd_font_icons();
    assert_eq!(nerd.len(), 15);
    assert_eq!(nerd[14].icon, "\u{f080}");
}

#[test]
fn name_input_flow() {
    let mut dialog = NameInputDialog::default();
    dialog.open("Save Theme", "theme name");
    assert!(dialog.is_open);
    assert_eq!(dialog.title, "Save Theme");
    dialog.input_char('m');
    dialog.input_char('y');
    dialog.input_char('\u{8}');  // a control character is dropped
    assert_eq!(dialog.get_input(), "my");
    dialog.backspace();
    assert_eq!(dialog.get_input(), "m");
    dialog.close();
    assert!(!dialog.is_open);
    assert_eq!(dialog.get_input(), "");
}

#[test]
fn name_input_length_cap() {
    let mut dialog = NameInputDialog::default();
    dialog.open("t", "p");
    for _ in 0..40 {
        dialog.input_char('a');
    }
    // the cap counts bytes
    assert_eq!(dialog.get_input().len(), 32);
}

#[test]
fn name_input_length_cap_counts_bytes() {
    let mut dialog = NameInputDialog::default();
    dialog.open("t", "p");
    // eight four-byte characters reach the 32-byte cap; the ninth is dropped
    for _ in 0..9 {
        dialog.input_char('🤖');
    }
    assert_eq!(dialog.get_input().chars().count(), 8);
    assert_eq!(dialog.get_input().len(), 32);
    // a 31-byte entry still takes one more multibyte character
    let mut dialog = NameInputDialog::default();
    dialog.open("t", "p");
    for _ in 0..31 {
        dialog.input_char('a');
    }
    dialog.input_char('é');
    assert_eq!(dialog.get_input().len(), 33);
    dialog.input_char('x');
    assert_eq!(dialog.get_input().len(), 33);
}

#[test]
fn separator_editor_presets() {
    let presets = SeparatorEditor::presets();
    assert_eq!(presets.len(), 5);
    assert_eq!(presets[0].name, "Pipe");
    assert_eq!(presets[0].value, " | ");
    assert_eq!(presets[1].value, " │ ");
    assert_eq!(presets[2].value, "\u{e0b0}");
}

#[test]
fn separator_editor_open_matches_preset() {
    let mut editor = SeparatorEditor::default();
    editor.open(" │ ");
    assert_eq!(editor.selected_preset, Some(1));
    assert_eq!(editor.get_separator(), " │ ");
    editor.open("~~");
    assert_eq!(editor.selected_preset, None);
    assert_eq!(editor.get_separator(), "~~");
}

#[test]
fn separator_editor_moves_and_edits() {
    let mut editor = SeparatorEditor::default();
    editor.open("~~");
    editor.move_preset_selection(1);
    assert_eq!(editor.selected_preset, Some(0));
    assert_eq!(editor.get_separator(), " | ");
    editor.move_preset_selection(1);
    assert_eq!(editor.selected_preset, Some(1));
    editor.move_preset_selection(-5);
    assert_eq!(editor.selected_preset, Some(0));
    editor.input_char('x');
    assert_eq!(editor.selected_preset, None);
    assert_eq!(editor.get_separator(), " | x");
    editor.clear_input();
    assert_eq!(editor.get_separator(), "");
    editor.move_preset_selection(-1);
    assert_eq!(editor.selected_preset, Some(4));
    assert_eq!(editor.get_separator(), " • ");
}
