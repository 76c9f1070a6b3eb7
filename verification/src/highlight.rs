use vstd::prelude::*;

use crate::attr_value::AttrValue;
use crate::color::Color;

verus! {

/// One named style: optional foreground, background and special colors,
/// and boolean emphasis flags. A `Highlight` is built once from a sparse
/// attribute dictionary and never changed afterwards.
#[derive(Clone, PartialEq, Debug)]
pub struct Highlight {
    pub italic: bool,
    pub bold: bool,
    pub underline: bool,
    pub undercurl: bool,
    pub foreground: Option<Color>,
    pub background: Option<Color>,
    pub special: Option<Color>,
    pub reverse: bool,
}

/// Whether some entry of the attribute list carries `key`, whatever its
/// value. Presence alone is what turns an emphasis flag on.
pub open spec fn has_key(attrs: Seq<(String, AttrValue)>, key: Seq<char>) -> bool
    decreases attrs.len(),
{
    if attrs.len() == 0 {
        false
    } else {
        attrs.last().0@ == key || has_key(attrs.drop_last(), key)
    }
}

/// The color a color-valued key resolves to: the last entry under `key`
/// whose value is an unsigned number, resolved as an indexed color; `None`
/// when no such entry exists. An entry under `key` whose value is not a
/// number is tolerated and changes nothing.
pub open spec fn resolved_color(attrs: Seq<(String, AttrValue)>, key: Seq<char>) -> Option<Color>
    decreases attrs.len(),
{
    if attrs.len() == 0 {
        None
    } else if attrs.last().0@ == key && attrs.last().1 is Uint {
        Some(Color::spec_from_indexed(attrs.last().1->Uint_0))
    } else {
        resolved_color(attrs.drop_last(), key)
    }
}

/// The eight recognized attribute keys are pairwise different strings.
proof fn lemma_attr_keys_distinct()
    ensures
        "foreground"@ != "background"@,
        "foreground"@ != "special"@,
        "foreground"@ != "reverse"@,
        "foreground"@ != "bold"@,
        "foreground"@ != "italic"@,
        "foreground"@ != "underline"@,
        "foreground"@ != "undercurl"@,
        "background"@ != "special"@,
        "background"@ != "reverse"@,
        "background"@ != "bold"@,
        "background"@ != "italic"@,
        "background"@ != "underline"@,
        "background"@ != "undercurl"@,
        "special"@ != "reverse"@,
        "special"@ != "bold"@,
        "special"@ != "italic"@,
        "special"@ != "underline"@,
        "special"@ != "undercurl"@,
        "reverse"@ != "bold"@,
        "reverse"@ != "italic"@,
        "reverse"@ != "underline"@,
        "reverse"@ != "undercurl"@,
        "bold"@ != "italic"@,
        "bold"@ != "underline"@,
        "bold"@ != "undercurl"@,
        "italic"@ != "underline"@,
        "italic"@ != "undercurl"@,
        "underline"@ != "undercurl"@,
{
    reveal_strlit("foreground");
    reveal_strlit("background");
    reveal_strlit("special");
    reveal_strlit("reverse");
    reveal_strlit("bold");
    reveal_strlit("italic");
    reveal_strlit("underline");
    reveal_strlit("undercurl");
    assert("foreground"@.len() == 10);
    assert("background"@.len() == 10);
    assert("special"@.len() == 7);
    assert("reverse"@.len() == 7);
    assert("bold"@.len() == 4);
    assert("italic"@.len() == 6);
    assert("underline"@.len() == 9);
    assert("undercurl"@.len() == 9);
    assert("foreground"@[0] != "background"@[0]);
    assert("special"@[0] != "reverse"@[0]);
    assert("underline"@[5] != "undercurl"@[5]);
}

impl Highlight {
    /// The all-default style: every color unset, every flag false.
    pub open spec fn spec_new() -> Highlight {
        Highlight {
            foreground: None,
            background: None,
            special: None,
            italic: false,
            bold: false,
            underline: false,
            undercurl: false,
            reverse: false,
        }
    }

    /// The style a sparse attribute dictionary describes: each recognized
    /// color key with a numeric value sets its color, each recognized flag
    /// key turns its flag on, and every other entry is ignored.
    pub open spec fn spec_from_attrs(attrs: Seq<(String, AttrValue)>) -> Highlight {
        Highlight {
            foreground: resolved_color(attrs, "foreground"@),
            background: resolved_color(attrs, "background"@),
            special: resolved_color(attrs, "special"@),
            italic: has_key(attrs, "italic"@),
            bold: has_key(attrs, "bold"@),
            underline: has_key(attrs, "underline"@),
            undercurl: has_key(attrs, "undercurl"@),
            reverse: has_key(attrs, "reverse"@),
        }
    }

    pub fn new() -> (hl: Highlight)
        ensures
            hl == Highlight::spec_new(),
    {
        Highlight {
            foreground: None,
            background: None,
            special: None,
            italic: false,
            bold: false,
            underline: false,
            undercurl: false,
            reverse: false,
        }
    }

    /// Build a style from a sparse attribute dictionary, handed over as a
    /// list of key/value entries. Unrecognized keys and non-numeric color
    /// values are ignored, never an error; an empty dictionary yields the
    /// all-default style.
    pub fn from_value_map(attrs: &Vec<(String, AttrValue)>) -> (hl: Highlight)
        ensures
            hl == Highlight::spec_from_attrs(attrs@),
            attrs@.len() == 0 ==> hl == Highlight::spec_new(),
    {
        let key_foreground: String = "foreground".to_owned();
        let key_background: String = "background".to_owned();
        let key_special: String = "special".to_owned();
        let key_reverse: String = "reverse".to_owned();
        let key_bold: String = "bold".to_owned();
        let key_italic: String = "italic".to_owned();
        let key_underline: String = "underline".to_owned();
        let key_undercurl: String = "undercurl".to_owned();

        let mut model_attrs = Highlight::new();
        let mut i: usize = 0;
        while i < attrs.len()
            invariant
                i <= attrs@.len(),
                key_foreground@ == "foreground"@,
                key_background@ == "background"@,
                key_special@ == "special"@,
                key_reverse@ == "reverse"@,
                key_bold@ == "bold"@,
                key_italic@ == "italic"@,
                key_underline@ == "underline"@,
                key_undercurl@ == "undercurl"@,
                model_attrs == Highlight::spec_from_attrs(attrs@.take(i as int)),
            decreases attrs@.len() - i,
        {
            proof {
                lemma_attr_keys_distinct();
                assert(attrs@.take(i as int + 1).last() == attrs@[i as int]);
                assert(attrs@.take(i as int + 1).drop_last() =~= attrs@.take(i as int));
            }
            let entry = &attrs[i];
            if entry.0 == key_foreground {
                if let AttrValue::Uint(n) = &entry.1 {
                    model_attrs.foreground = Some(Color::from_indexed_color(*n));
                }
            } else if entry.0 == key_background {
                if let AttrValue::Uint(n) = &entry.1 {
                    model_attrs.background = Some(Color::from_indexed_color(*n));
                }
            } else if entry.0 == key_special {
                if let AttrValue::Uint(n) = &entry.1 {
                    model_attrs.special = Some(Color::from_indexed_color(*n));
                }
            } else if entry.0 == key_reverse {
                model_attrs.reverse = true;
            } else if entry.0 == key_bold {
                model_attrs.bold = true;
            } else if entry.0 == key_italic {
                model_attrs.italic = true;
            } else if entry.0 == key_underline {
                model_attrs.underline = true;
            } else if entry.0 == key_undercurl {
                model_attrs.undercurl = true;
            }
            i = i + 1;
        }
        proof {
            assert(attrs@.take(attrs@.len() as int) =~= attrs@);
        }
        model_attrs
    }
}

} // verus!
