use nvim_hl::AttrValue;
use nvim_hl::Cell;
use nvim_hl::Color;
use nvim_hl::Highlight;
use nvim_hl::HighlightMap;

const BLACK: Color = Color { red: 0, green: 0, blue: 0 };
const WHITE: Color = Color { red: 255, green: 255, blue: 255 };
const RED: Color = Color { red: 255, green: 0, blue: 0 };

fn entry(key: &str, value: AttrValue) -> (String, AttrValue) {
    (key.to_owned(), value)
}

fn group_name(name: &str) -> Vec<(String, AttrValue)> {
    vec![entry("hi_name", AttrValue::Str(name.to_owned()))]
}

#[test]
fn indexed_color_splits_channels() {
    let c = Color::from_indexed_color(0x123456);
    assert_eq!(c, Color { red: 0x12, green: 0x34, blue: 0x56 });
    assert_eq!(Color::from_indexed_color(1), Color { red: 0, green: 0, blue: 1 });
    assert_eq!(Color::from_indexed_color(0), BLACK);
    assert_eq!(Color::from_indexed_color(0xffffff), WHITE);
}

#[test]
fn empty_attributes_give_the_default_highlight() {
    let attrs: Vec<(String, AttrValue)> = Vec::new();
    assert_eq!(Highlight::from_value_map(&attrs), Highlight::new());
}

#[test]
fn new_highlight_is_all_unset() {
    let hl = Highlight::new();
    assert_eq!(hl.foreground, None);
    assert_eq!(hl.background, None);
    assert_eq!(hl.special, None);
    assert!(!hl.bold && !hl.italic && !hl.underline && !hl.undercurl && !hl.reverse);
}

#[test]
fn unknown_keys_are_ignored() {
    let attrs = vec![
        entry("bold", AttrValue::Bool(true)),
        entry("unknownkey", AttrValue::Uint(1)),
    ];
    let hl = Highlight::from_value_map(&attrs);
    let mut expected = Highlight::new();
    expected.bold = true;
    assert_eq!(hl, expected);
}

#[test]
fn color_keys_resolve_indexed_colors() {
    let attrs = vec![
        entry("foreground", AttrValue::Uint(0x010203)),
        entry("background", AttrValue::Uint(7)),
        entry("special", AttrValue::Uint(0xff0000)),
    ];
    let hl = Highlight::from_value_map(&attrs);
    assert_eq!(hl.foreground, Some(Color { red: 1, green: 2, blue: 3 }));
    assert_eq!(hl.background, Some(Color { red: 0, green: 0, blue: 7 }));
    assert_eq!(hl.special, Some(RED));
    assert!(!hl.reverse);
}

#[test]
fn non_numeric_color_values_leave_the_field_unset() {
    let attrs = vec![
        entry("foreground", AttrValue::Str("blue".to_owned())),
        entry("background", AttrValue::Bool(true)),
        entry("special", AttrValue::Other),
    ];
    let hl = Highlight::from_value_map(&attrs);
    assert_eq!(hl, Highlight::new());
}

#[test]
fn flag_keys_count_by_presence_whatever_the_value() {
    let attrs = vec![
        entry("reverse", AttrValue::Other),
        entry("italic", AttrValue::Bool(false)),
        entry("underline", AttrValue::Uint(0)),
        entry("undercurl", AttrValue::Str(String::new())),
    ];
    let hl = Highlight::from_value_map(&attrs);
    assert!(hl.reverse && hl.italic && hl.underline && hl.undercurl);
    assert!(!hl.bold);
}

#[test]
fn fresh_table_has_documented_defaults() {
    let table = HighlightMap::new();
    assert_eq!(table.bg_color, BLACK);
    assert_eq!(table.fg_color, WHITE);
    assert_eq!(*table.default_hl(), Highlight::new());
    assert_eq!(*table.get(None), Highlight::new());
}

#[test]
fn missing_ids_resolve_like_id_zero() {
    let mut table = HighlightMap::new();
    // Nothing defined at all: every lookup gives the built-in default.
    assert_eq!(*table.get(Some(42)), Highlight::new());
    assert_eq!(*table.get(None), Highlight::new());

    // Once id 0 exists, missing ids resolve to id 0's highlight.
    let zero_attrs = vec![entry("bold", AttrValue::Bool(true))];
    table.set(0, &zero_attrs, &Vec::new());
    let via_missing = table.get(Some(42));
    let via_zero = table.get(Some(0));
    let via_none = table.get(None);
    assert!(via_missing.bold);
    assert_eq!(*via_missing, *via_zero);
    assert_eq!(*via_none, *via_zero);
}

#[test]
fn set_files_the_highlight_under_its_id() {
    let mut table = HighlightMap::new();
    let attrs = vec![entry("italic", AttrValue::Bool(true))];
    table.set(9, &attrs, &Vec::new());
    assert!(table.get(Some(9)).italic);
    assert!(!table.get(Some(8)).italic);
}

#[test]
fn second_definition_replaces_the_first_without_touching_old_values() {
    let mut table = HighlightMap::new();
    let first = vec![entry("foreground", AttrValue::Uint(1))];
    table.set(4, &first, &Vec::new());
    let before = table.get(Some(4));

    let second = vec![entry("background", AttrValue::Uint(2))];
    table.set(4, &second, &Vec::new());

    // The value obtained before the second call is unchanged.
    assert_eq!(before.foreground, Some(Color { red: 0, green: 0, blue: 1 }));
    assert_eq!(before.background, None);

    // The table now holds only the second definition.
    let after = table.get(Some(4));
    assert_eq!(after.foreground, None);
    assert_eq!(after.background, Some(Color { red: 0, green: 0, blue: 2 }));
}

#[test]
fn cursor_group_update_feeds_cursor_bg() {
    let mut table = HighlightMap::new();
    let attrs = vec![
        entry("foreground", AttrValue::Uint(1)),
        entry("reverse", AttrValue::Bool(true)),
    ];
    table.set(5, &attrs, &vec![group_name("Cursor")]);
    // Reverse swaps roles: the stored foreground becomes the effective
    // background, and the explicit value wins over any default.
    assert_eq!(table.cursor_bg(), Color::from_indexed_color(1));
}

#[test]
fn one_update_can_retag_several_slots_to_one_highlight() {
    let mut table = HighlightMap::new();
    let attrs: Vec<(String, AttrValue)> = Vec::new();
    table.set(3, &attrs, &vec![group_name("Pmenu"), group_name("PmenuSel")]);
    // Both slots hold the same empty-attribute highlight, so both resolve
    // to the table's current default background.
    assert_eq!(table.pmenu_bg(), table.bg_color);
    assert_eq!(table.pmenu_bg_sel(), table.bg_color);
}

#[test]
fn unrecognized_group_names_are_ignored() {
    let mut table = HighlightMap::new();
    let attrs = vec![entry("background", AttrValue::Uint(3))];
    table.set(2, &attrs, &vec![group_name("Visual"), group_name("Search")]);
    assert_eq!(table.pmenu_bg(), table.bg_color);
    assert_eq!(table.cursor_bg(), table.bg_color);
}

#[test]
fn group_entry_without_string_name_is_ignored() {
    let mut table = HighlightMap::new();
    let attrs = vec![entry("background", AttrValue::Uint(3))];
    let info = vec![
        vec![entry("hi_name", AttrValue::Uint(7))],
        vec![entry("kind", AttrValue::Str("ui".to_owned()))],
    ];
    table.set(2, &attrs, &info);
    assert_eq!(table.pmenu_bg(), table.bg_color);
}

#[test]
fn cell_queries_without_reverse_read_own_channels() {
    let mut table = HighlightMap::new();
    let attrs = vec![entry("foreground", AttrValue::Uint(5))];
    table.set(1, &attrs, &Vec::new());
    let cell = Cell { hl: table.get(Some(1)) };
    assert_eq!(table.cell_fg(&cell), Some(Color { red: 0, green: 0, blue: 5 }));
    assert_eq!(table.cell_bg(&cell), None);
}

#[test]
fn reverse_cell_with_unset_background_uses_default_background() {
    let mut table = HighlightMap::new();
    let attrs = vec![entry("reverse", AttrValue::Bool(true))];
    table.set(1, &attrs, &Vec::new());
    let cell = Cell { hl: table.get(Some(1)) };
    // The default background backstops the swapped channel, not the
    // default foreground.
    assert_eq!(table.cell_fg(&cell), Some(table.bg_color));
    assert_eq!(table.cell_bg(&cell), Some(table.fg_color));
}

#[test]
fn actual_cell_colors_never_come_back_empty() {
    let mut table = HighlightMap::new();
    let plain = Cell { hl: table.get(None) };
    assert_eq!(table.actual_cell_fg(&plain), WHITE);
    assert_eq!(table.actual_cell_bg(&plain), BLACK);
    assert_eq!(table.actual_cell_sp(&plain), RED);

    let attrs = vec![
        entry("background", AttrValue::Uint(9)),
        entry("reverse", AttrValue::Bool(true)),
    ];
    table.set(6, &attrs, &Vec::new());
    let reversed = Cell { hl: table.get(Some(6)) };
    assert_eq!(table.actual_cell_fg(&reversed), Color { red: 0, green: 0, blue: 9 });
    assert_eq!(table.actual_cell_bg(&reversed), WHITE);
}

#[test]
fn special_channel_ignores_reverse() {
    let mut table = HighlightMap::new();
    let attrs = vec![
        entry("special", AttrValue::Uint(0x00ff00)),
        entry("reverse", AttrValue::Bool(true)),
    ];
    table.set(11, &attrs, &Vec::new());
    let cell = Cell { hl: table.get(Some(11)) };
    assert_eq!(table.actual_cell_sp(&cell), Color { red: 0, green: 255, blue: 0 });
}

#[test]
fn set_defaults_replaces_the_backstop_colors() {
    let mut table = HighlightMap::new();
    let fg = Color { red: 10, green: 20, blue: 30 };
    let bg = Color { red: 40, green: 50, blue: 60 };
    let sp = Color { red: 70, green: 80, blue: 90 };
    table.set_defaults(fg, bg, sp);
    assert_eq!(table.fg_color, fg);
    assert_eq!(table.bg_color, bg);
    let cell = Cell { hl: table.get(None) };
    assert_eq!(table.actual_cell_fg(&cell), fg);
    assert_eq!(table.actual_cell_bg(&cell), bg);
    assert_eq!(table.actual_cell_sp(&cell), sp);
    assert_eq!(table.pmenu_fg(), fg);
    assert_eq!(table.pmenu_bg(), bg);
}

#[test]
fn pmenu_queries_follow_reverse_aware_fallback() {
    let mut table = HighlightMap::new();
    let attrs = vec![
        entry("foreground", AttrValue::Uint(0x111111)),
        entry("reverse", AttrValue::Bool(true)),
    ];
    table.set(8, &attrs, &vec![group_name("Pmenu"), group_name("PmenuSel")]);
    let stored = Color { red: 0x11, green: 0x11, blue: 0x11 };
    // Reverse: bg reads the stored foreground, fg falls back to the
    // default background.
    assert_eq!(table.pmenu_bg(), stored);
    assert_eq!(table.pmenu_fg(), table.bg_color);
    assert_eq!(table.pmenu_bg_sel(), stored);
    assert_eq!(table.pmenu_fg_sel(), table.bg_color);
}

#[test]
fn duplicate_keys_let_the_last_numeric_value_win() {
    let attrs = vec![
        entry("foreground", AttrValue::Uint(1)),
        entry("foreground", AttrValue::Uint(2)),
        entry("foreground", AttrValue::Str("x".to_owned())),
    ];
    let hl = Highlight::from_value_map(&attrs);
    assert_eq!(hl.foreground, Some(Color { red: 0, green: 0, blue: 2 }));
}
