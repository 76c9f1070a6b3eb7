use vstd::prelude::*;

verus! {

/// One value of a highlight-definition attribute dictionary, as far as the
/// highlight table reads it: an unsigned number (an indexed color), a
/// string (a group name), a boolean flag value, or anything else.
///
/// The editor's transport hands the table dynamically typed values; the
/// table only ever asks whether a value is an unsigned number or a string,
/// so every other shape is collapsed into `Other`.
#[derive(Clone, PartialEq, Debug)]
pub enum AttrValue {
    Uint(u64),
    Str(String),
    Bool(bool),
    Other,
}

} // verus!
