use vstd::prelude::*;

use std::collections::HashMap;
use std::rc::Rc;

use crate::attr_value::AttrValue;
use crate::color::Color;
use crate::highlight::Highlight;

verus! {

/// One character cell, as far as color resolution reads it: the highlight
/// the cell was resolved against. Cells share highlights: many cells (and
/// the table's special-purpose slots) may hold the same instance.
pub struct Cell {
    pub hl: Rc<Highlight>,
}

/// The registry of highlight groups: every known group filed under its
/// numeric id, the process-wide default colors that back unset channels,
/// and the three specially named groups (popup menu, popup menu selection,
/// cursor) used by chrome outside the text grid.
pub struct HighlightMap {
    highlights: HashMap<u64, Rc<Highlight>>,
    default_hl: Rc<Highlight>,
    pub bg_color: Color,
    pub fg_color: Color,
    sp_color: Color,
    pmenu: Rc<Highlight>,
    pmenu_sel: Rc<Highlight>,
    cursor: Rc<Highlight>,
}

/// The value filed under `key` in an attribute list: the last entry with
/// that key, as in the source dictionaries, which hold each key once.
pub open spec fn spec_lookup(entries: Seq<(String, AttrValue)>, key: Seq<char>) -> Option<
    AttrValue,
>
    decreases entries.len(),
{
    if entries.len() == 0 {
        None
    } else if entries.last().0@ == key {
        Some(entries.last().1)
    } else {
        spec_lookup(entries.drop_last(), key)
    }
}

/// The group name a metadata entry carries: the string under its
/// `hi_name` key, or nothing when the key is absent or not a string.
pub open spec fn spec_hi_name(entry: Seq<(String, AttrValue)>) -> Option<Seq<char>> {
    match spec_lookup(entry, "hi_name"@) {
        Some(AttrValue::Str(s)) => Some(s@),
        _ => None,
    }
}

/// Whether some entry of an update's group-name metadata names the group
/// `name` under its `hi_name` key.
pub open spec fn spec_selects(info: Seq<Vec<(String, AttrValue)>>, name: Seq<char>) -> bool
    decreases info.len(),
{
    if info.len() == 0 {
        false
    } else {
        spec_hi_name(info.last()@) == Some(name) || spec_selects(info.drop_last(), name)
    }
}

/// The three recognized special group names are pairwise different.
proof fn lemma_group_names_distinct()
    ensures
        "Pmenu"@ != "PmenuSel"@,
        "Pmenu"@ != "Cursor"@,
        "PmenuSel"@ != "Cursor"@,
{
    reveal_strlit("Pmenu");
    reveal_strlit("PmenuSel");
    reveal_strlit("Cursor");
    assert("Pmenu"@.len() == 5);
    assert("PmenuSel"@.len() == 8);
    assert("Cursor"@.len() == 6);
}

/// The group name an update's metadata entry carries, cloned out of the
/// entry: `Some` exactly when the entry has a string under `hi_name`.
fn hi_name_of(entry: &Vec<(String, AttrValue)>) -> (name: Option<String>)
    ensures
        match name {
            Some(s) => spec_hi_name(entry@) == Some(s@),
            None => spec_hi_name(entry@) is None,
        },
{
    let key_hi_name: String = "hi_name".to_owned();
    proof {
        assert(entry@.take(entry@.len() as int) =~= entry@);
    }
    let mut i: usize = entry.len();
    while i > 0
        invariant
            i <= entry@.len(),
            key_hi_name@ == "hi_name"@,
            spec_lookup(entry@, "hi_name"@) == spec_lookup(entry@.take(i as int), "hi_name"@),
        decreases i,
    {
        i = i - 1;
        proof {
            assert(entry@.take(i as int + 1).last() == entry@[i as int]);
            assert(entry@.take(i as int + 1).drop_last() =~= entry@.take(i as int));
        }
        let e = &entry[i];
        if e.0 == key_hi_name {
            return match &e.1 {
                AttrValue::Str(s) => Some(s.clone()),
                _ => None,
            };
        }
    }
    None
}

impl HighlightMap {
    /// The id-indexed entries of the table.
    pub closed spec fn entries(self) -> Map<u64, Highlight> {
        self.highlights@.map_values(|rc: Rc<Highlight>| *rc)
    }

    /// The built-in empty highlight a lookup falls back to when neither
    /// the asked-for id nor id 0 has an entry.
    pub closed spec fn default_highlight(self) -> Highlight {
        *self.default_hl
    }

    /// The table's default background color.
    pub closed spec fn spec_bg_color(self) -> Color {
        self.bg_color
    }

    /// The table's default foreground color.
    pub closed spec fn spec_fg_color(self) -> Color {
        self.fg_color
    }

    /// The table's default special color.
    pub closed spec fn spec_sp_color(self) -> Color {
        self.sp_color
    }

    /// The highlight the popup-menu slot holds.
    pub closed spec fn pmenu_hl(self) -> Highlight {
        *self.pmenu
    }

    /// The highlight the popup-menu-selection slot holds.
    pub closed spec fn pmenu_sel_hl(self) -> Highlight {
        *self.pmenu_sel
    }

    /// The highlight the cursor slot holds.
    pub closed spec fn cursor_hl(self) -> Highlight {
        *self.cursor
    }

    /// Id 0's entry when that exists, else the built-in default: what a
    /// lookup falls back to.
    pub open spec fn spec_zero_or_default(self) -> Highlight {
        if self.entries().contains_key(0) {
            self.entries()[0]
        } else {
            self.default_highlight()
        }
    }

    /// The highlight a lookup yields: the entry under the id when there is
    /// one, else id 0's entry when that exists, else the built-in default.
    pub open spec fn spec_get(self, idx: Option<u64>) -> Highlight {
        match idx {
            Some(i) => if self.entries().contains_key(i) {
                self.entries()[i]
            } else {
                self.spec_zero_or_default()
            },
            None => self.spec_zero_or_default(),
        }
    }

    /// A fresh table: no entries, black default background, white default
    /// foreground, red default special color, and every special-purpose
    /// slot holding the shared empty highlight.
    pub fn new() -> (m: HighlightMap)
        ensures
            m.entries() == Map::<u64, Highlight>::empty(),
            m.spec_bg_color() == (Color { red: 0, green: 0, blue: 0 }),
            m.spec_fg_color() == (Color { red: 255, green: 255, blue: 255 }),
            m.spec_sp_color() == (Color { red: 255, green: 0, blue: 0 }),
            m.default_highlight() == Highlight::spec_new(),
            m.pmenu_hl() == Highlight::spec_new(),
            m.pmenu_sel_hl() == Highlight::spec_new(),
            m.cursor_hl() == Highlight::spec_new(),
    {
        let default_hl = Rc::new(Highlight::new());
        HighlightMap {
            highlights: HashMap::new(),
            bg_color: Color { red: 0, green: 0, blue: 0 },
            fg_color: Color { red: 255, green: 255, blue: 255 },
            sp_color: Color { red: 255, green: 0, blue: 0 },
            pmenu: default_hl.clone(),
            pmenu_sel: default_hl.clone(),
            cursor: default_hl.clone(),
            default_hl,
        }
    }

    /// The shared built-in empty highlight.
    pub fn default_hl(&self) -> (hl: Rc<Highlight>)
        ensures
            *hl == self.default_highlight(),
    {
        self.default_hl.clone()
    }

    /// Replace the process-wide default colors; entries and slots keep
    /// their highlights.
    pub fn set_defaults(&mut self, fg: Color, bg: Color, sp: Color)
        ensures
            final(self).spec_fg_color() == fg,
            final(self).spec_bg_color() == bg,
            final(self).spec_sp_color() == sp,
            final(self).entries() == old(self).entries(),
            final(self).default_highlight() == old(self).default_highlight(),
            final(self).pmenu_hl() == old(self).pmenu_hl(),
            final(self).pmenu_sel_hl() == old(self).pmenu_sel_hl(),
            final(self).cursor_hl() == old(self).cursor_hl(),
    {
        self.fg_color = fg;
        self.bg_color = bg;
        self.sp_color = sp;
    }

    /// Look a highlight up by id. Never fails: an absent id, and no id at
    /// all, resolve through id 0 to the built-in default.
    pub fn get(&self, idx: Option<u64>) -> (hl: Rc<Highlight>)
        ensures
            *hl == self.spec_get(idx),
    {
        match idx {
            Some(i) => match self.highlights.get(&i) {
                Some(rc) => rc.clone(),
                None => self.zero_or_default(),
            },
            None => self.zero_or_default(),
        }
    }

    /// Id 0's highlight when present, else the built-in default.
    fn zero_or_default(&self) -> (hl: Rc<Highlight>)
        ensures
            *hl == self.spec_zero_or_default(),
    {
        match self.highlights.get(&0u64) {
            Some(rc) => rc.clone(),
            None => self.default_hl.clone(),
        }
    }

    /// File the highlight an attribute dictionary describes under `idx`,
    /// replacing any earlier definition, and point every special-purpose
    /// slot whose name appears in the update's group-name metadata at the
    /// same shared instance. Unrecognized names are ignored.
    pub fn set(
        &mut self,
        idx: u64,
        hl: &Vec<(String, AttrValue)>,
        info: &Vec<Vec<(String, AttrValue)>>,
    )
        ensures
            final(self).entries() == old(self).entries().insert(
                idx,
                Highlight::spec_from_attrs(hl@),
            ),
            final(self).pmenu_hl() == (if spec_selects(info@, "Pmenu"@) {
                Highlight::spec_from_attrs(hl@)
            } else {
                old(self).pmenu_hl()
            }),
            final(self).pmenu_sel_hl() == (if spec_selects(info@, "PmenuSel"@) {
                Highlight::spec_from_attrs(hl@)
            } else {
                old(self).pmenu_sel_hl()
            }),
            final(self).cursor_hl() == (if spec_selects(info@, "Cursor"@) {
                Highlight::spec_from_attrs(hl@)
            } else {
                old(self).cursor_hl()
            }),
            final(self).spec_bg_color() == old(self).spec_bg_color(),
            final(self).spec_fg_color() == old(self).spec_fg_color(),
            final(self).spec_sp_color() == old(self).spec_sp_color(),
            final(self).default_highlight() == old(self).default_highlight(),
    {
        let built = Rc::new(Highlight::from_value_map(hl));
        let name_pmenu: String = "Pmenu".to_owned();
        let name_pmenu_sel: String = "PmenuSel".to_owned();
        let name_cursor: String = "Cursor".to_owned();

        let mut k: usize = 0;
        while k < info.len()
            invariant
                k <= info@.len(),
                name_pmenu@ == "Pmenu"@,
                name_pmenu_sel@ == "PmenuSel"@,
                name_cursor@ == "Cursor"@,
                *built == Highlight::spec_from_attrs(hl@),
                self.highlights == old(self).highlights,
                *self.default_hl == *old(self).default_hl,
                self.bg_color == old(self).bg_color,
                self.fg_color == old(self).fg_color,
                self.sp_color == old(self).sp_color,
                *self.pmenu == (if spec_selects(info@.take(k as int), "Pmenu"@) {
                    Highlight::spec_from_attrs(hl@)
                } else {
                    *old(self).pmenu
                }),
                *self.pmenu_sel == (if spec_selects(info@.take(k as int), "PmenuSel"@) {
                    Highlight::spec_from_attrs(hl@)
                } else {
                    *old(self).pmenu_sel
                }),
                *self.cursor == (if spec_selects(info@.take(k as int), "Cursor"@) {
                    Highlight::spec_from_attrs(hl@)
                } else {
                    *old(self).cursor
                }),
            decreases info@.len() - k,
        {
            proof {
                lemma_group_names_distinct();
                assert(info@.take(k as int + 1).last() == info@[k as int]);
                assert(info@.take(k as int + 1).drop_last() =~= info@.take(k as int));
            }
            let item = &info[k];
            match hi_name_of(item) {
                Some(name) => {
                    if name == name_pmenu {
                        self.pmenu = built.clone();
                    } else if name == name_pmenu_sel {
                        self.pmenu_sel = built.clone();
                    } else if name == name_cursor {
                        self.cursor = built.clone();
                    }
                },
                None => {},
            }
            k = k + 1;
        }
        proof {
            assert(info@.take(info@.len() as int) =~= info@);
        }
        self.highlights.insert(idx, built);
    }

    /// What to paint as a cell's foreground, or nothing when the
    /// surrounding default applies: without reverse video, the
    /// highlight's own foreground; with it, the highlight's background,
    /// backstopped by the table's default background.
    pub open spec fn spec_cell_fg(self, hl: Highlight) -> Option<Color> {
        if !hl.reverse {
            hl.foreground
        } else if hl.background is Some {
            hl.background
        } else {
            Some(self.spec_bg_color())
        }
    }

    /// Mirror of `spec_cell_fg` for the background channel: with reverse
    /// video, the highlight's foreground, backstopped by the table's
    /// default foreground.
    pub open spec fn spec_cell_bg(self, hl: Highlight) -> Option<Color> {
        if !hl.reverse {
            hl.background
        } else if hl.foreground is Some {
            hl.foreground
        } else {
            Some(self.spec_fg_color())
        }
    }

    /// The concrete foreground, never empty: the channel `spec_cell_fg`
    /// reads, with the matching default color behind it.
    pub open spec fn spec_actual_fg(self, hl: Highlight) -> Color {
        if !hl.reverse {
            match hl.foreground {
                Some(c) => c,
                None => self.spec_fg_color(),
            }
        } else {
            match hl.background {
                Some(c) => c,
                None => self.spec_bg_color(),
            }
        }
    }

    /// The concrete background, never empty: the channel `spec_cell_bg`
    /// reads, with the matching default color behind it.
    pub open spec fn spec_actual_bg(self, hl: Highlight) -> Color {
        if !hl.reverse {
            match hl.background {
                Some(c) => c,
                None => self.spec_bg_color(),
            }
        } else {
            match hl.foreground {
                Some(c) => c,
                None => self.spec_fg_color(),
            }
        }
    }

    /// The concrete special (decoration) color; reverse video has no
    /// effect on this channel.
    pub open spec fn spec_actual_sp(self, hl: Highlight) -> Color {
        match hl.special {
            Some(c) => c,
            None => self.spec_sp_color(),
        }
    }

    pub fn cell_fg(&self, cell: &Cell) -> (fg: Option<Color>)
        ensures
            fg == self.spec_cell_fg(*cell.hl),
    {
        if !cell.hl.reverse {
            cell.hl.foreground
        } else {
            match cell.hl.background {
                Some(col) => Some(col),
                None => Some(self.bg_color),
            }
        }
    }

    pub fn actual_cell_fg(&self, cell: &Cell) -> (fg: Color)
        ensures
            fg == self.spec_actual_fg(*cell.hl),
    {
        if !cell.hl.reverse {
            match cell.hl.foreground {
                Some(col) => col,
                None => self.fg_color,
            }
        } else {
            match cell.hl.background {
                Some(col) => col,
                None => self.bg_color,
            }
        }
    }

    pub fn cell_bg(&self, cell: &Cell) -> (bg: Option<Color>)
        ensures
            bg == self.spec_cell_bg(*cell.hl),
    {
        if !cell.hl.reverse {
            cell.hl.background
        } else {
            match cell.hl.foreground {
                Some(col) => Some(col),
                None => Some(self.fg_color),
            }
        }
    }

    pub fn actual_cell_bg(&self, cell: &Cell) -> (bg: Color)
        ensures
            bg == self.spec_actual_bg(*cell.hl),
    {
        if !cell.hl.reverse {
            match cell.hl.background {
                Some(col) => col,
                None => self.bg_color,
            }
        } else {
            match cell.hl.foreground {
                Some(col) => col,
                None => self.fg_color,
            }
        }
    }

    pub fn actual_cell_sp(&self, cell: &Cell) -> (sp: Color)
        ensures
            sp == self.spec_actual_sp(*cell.hl),
    {
        match cell.hl.special {
            Some(col) => col,
            None => self.sp_color,
        }
    }

    pub fn pmenu_bg(&self) -> (bg: Color)
        ensures
            bg == self.spec_actual_bg(self.pmenu_hl()),
    {
        if !self.pmenu.reverse {
            match self.pmenu.background {
                Some(col) => col,
                None => self.bg_color,
            }
        } else {
            match self.pmenu.foreground {
                Some(col) => col,
                None => self.fg_color,
            }
        }
    }

    pub fn pmenu_fg(&self) -> (fg: Color)
        ensures
            fg == self.spec_actual_fg(self.pmenu_hl()),
    {
        if !self.pmenu.reverse {
            match self.pmenu.foreground {
                Some(col) => col,
                None => self.fg_color,
            }
        } else {
            match self.pmenu.background {
                Some(col) => col,
                None => self.bg_color,
            }
        }
    }

    pub fn pmenu_bg_sel(&self) -> (bg: Color)
        ensures
            bg == self.spec_actual_bg(self.pmenu_sel_hl()),
    {
        if !self.pmenu_sel.reverse {
            match self.pmenu_sel.background {
                Some(col) => col,
                None => self.bg_color,
            }
        } else {
            match self.pmenu_sel.foreground {
                Some(col) => col,
                None => self.fg_color,
            }
        }
    }

    pub fn pmenu_fg_sel(&self) -> (fg: Color)
        ensures
            fg == self.spec_actual_fg(self.pmenu_sel_hl()),
    {
        if !self.pmenu_sel.reverse {
            match self.pmenu_sel.foreground {
                Some(col) => col,
                None => self.fg_color,
            }
        } else {
            match self.pmenu_sel.background {
                Some(col) => col,
                None => self.bg_color,
            }
        }
    }

    pub fn cursor_bg(&self) -> (bg: Color)
        ensures
            bg == self.spec_actual_bg(self.cursor_hl()),
    {
        if !self.cursor.reverse {
            match self.cursor.background {
                Some(col) => col,
                None => self.bg_color,
            }
        } else {
            match self.cursor.foreground {
                Some(col) => col,
                None => self.fg_color,
            }
        }
    }

    /// Law: looking up an id that has no entry gives exactly what looking
    /// up id 0, or no id at all, gives: id 0's highlight when that entry
    /// exists, else the table's built-in empty default.
    pub proof fn lemma_get_missing_id_falls_back(self, id: u64)
        requires
            !self.entries().contains_key(id),
        ensures
            self.spec_get(Some(id)) == self.spec_get(Some(0)),
            self.spec_get(Some(id)) == self.spec_get(None),
            self.spec_get(None) == (if self.entries().contains_key(0) {
                self.entries()[0]
            } else {
                self.default_highlight()
            }),
    {
    }

    /// Law: without reverse video, the per-cell channel queries read
    /// exactly the highlight's own channels; no default leaks in.
    pub proof fn lemma_no_reverse_reads_own_channels(self, hl: Highlight)
        requires
            !hl.reverse,
        ensures
            self.spec_cell_fg(hl) == hl.foreground,
            self.spec_cell_bg(hl) == hl.background,
    {
    }

    /// Law: with reverse video and no explicit background, the foreground
    /// query substitutes the table's default background — not its default
    /// foreground: reverse video swaps which default backstops a channel.
    pub proof fn lemma_reverse_unset_background_uses_default_bg(self, hl: Highlight)
        requires
            hl.reverse,
            hl.background is None,
        ensures
            self.spec_cell_fg(hl) == Some(self.spec_bg_color()),
    {
    }
}

} // verus!
