//! The `Sheet` lexicon: the identity tag of a loaded sprite. A sprite file's
//! base name is parsed into a `Sheet`, and the registry is keyed by it. The
//! name table is the posture table: a sheet names the pose it animates.

use vstd::prelude::*;

use crate::text::str_eq;

verus! {

/// Error of the `Sheet` constructor: the name is not in the table.
#[derive(Clone, Debug, PartialEq)]
pub enum SheetError {
    UnknownSheet(String),
}

/// The named identity of a loaded sprite, plus the `None` sentinel.
#[derive(Clone, Copy, Debug, PartialEq, Eq, Structural, Hash)]
pub enum Sheet {
    Empty,
    Talk,
    NotTalk,
    Bust,
    Lying,
    Seiza,
}

/// The sheet named by a string, if any: the exact, case-sensitive name table.
pub open spec fn sheet_from_name(s: Seq<char>) -> Option<Sheet> {
    if s == "Talk"@ {
        Some(Sheet::Talk)
    } else if s == "NotTalk"@ {
        Some(Sheet::NotTalk)
    } else if s == "Bust"@ {
        Some(Sheet::Bust)
    } else if s == "Lying"@ {
        Some(Sheet::Lying)
    } else if s == "Seiza"@ {
        Some(Sheet::Seiza)
    } else if s == "None"@ {
        Some(Sheet::Empty)
    } else {
        None
    }
}

/// The fixed name of each sheet: the inverse of `sheet_from_name`.
pub open spec fn sheet_name(s: Sheet) -> Seq<char> {
    match s {
        Sheet::Talk => "Talk"@,
        Sheet::NotTalk => "NotTalk"@,
        Sheet::Bust => "Bust"@,
        Sheet::Lying => "Lying"@,
        Sheet::Seiza => "Seiza"@,
        Sheet::Empty => "None"@,
    }
}

impl Sheet {
    /// Constructs the sheet named `name`; any name outside the table
    /// fails with `UnknownSheet` carrying the rejected name.
    pub fn new(name: &str) -> (r: Result<Sheet, SheetError>)
        ensures
            match r {
                Ok(s) => sheet_from_name(name@) == Some(s),
                Err(SheetError::UnknownSheet(s)) => sheet_from_name(name@) is None && s@ == name@,
            },
    {
        if str_eq(name, "Talk") {
            Ok(Sheet::Talk)
        } else if str_eq(name, "NotTalk") {
            Ok(Sheet::NotTalk)
        } else if str_eq(name, "Bust") {
            Ok(Sheet::Bust)
        } else if str_eq(name, "Lying") {
            Ok(Sheet::Lying)
        } else if str_eq(name, "Seiza") {
            Ok(Sheet::Seiza)
        } else if str_eq(name, "None") {
            Ok(Sheet::Empty)
        } else {
            Err(SheetError::UnknownSheet(name.to_owned()))
        }
    }

    /// The name this sheet was constructed from.
    pub fn get_name(&self) -> (r: &'static str)
        ensures
            r@ == sheet_name(*self),
    {
        match *self {
            Sheet::Talk => "Talk",
            Sheet::NotTalk => "NotTalk",
            Sheet::Bust => "Bust",
            Sheet::Lying => "Lying",
            Sheet::Seiza => "Seiza",
            Sheet::Empty => "None",
        }
    }
}

impl Default for Sheet {
    /// The default sheet is the `None` sentinel.
    fn default() -> (r: Sheet)
        ensures
            r == Sheet::Empty,
    {
        Sheet::Empty
    }
}

} // verus!
