//! The `Posture` lexicon: the closed set of whole-body pose identifiers.
//! A posture keys the texel catalog and tags every animation frame.

use vstd::prelude::*;

use crate::text::str_eq;

verus! {

/// Error of the `Posture` constructor: the name is not in the table.
#[derive(Clone, Debug, PartialEq)]
pub enum PostureError {
    UnknownPosture(String),
}

/// A named whole-body pose, plus the `None` sentinel.
#[derive(Clone, Copy, Debug, PartialEq, Eq, Structural, Hash)]
pub enum Posture {
    Empty,
    Talk,
    NotTalk,
    Bust,
    Lying,
    Seiza,
}

/// The posture named by a string, if any: the exact, case-sensitive name table.
pub open spec fn posture_from_name(s: Seq<char>) -> Option<Posture> {
    if s == "Talk"@ {
        Some(Posture::Talk)
    } else if s == "NotTalk"@ {
        Some(Posture::NotTalk)
    } else if s == "Bust"@ {
        Some(Posture::Bust)
    } else if s == "Lying"@ {
        Some(Posture::Lying)
    } else if s == "Seiza"@ {
        Some(Posture::Seiza)
    } else if s == "None"@ {
        Some(Posture::Empty)
    } else {
        None
    }
}

impl Posture {
    /// Constructs the posture named `name`; any name outside the table
    /// fails with `UnknownPosture` carrying the rejected name.
    pub fn new(name: &str) -> (r: Result<Posture, PostureError>)
        ensures
            match r {
                Ok(p) => posture_from_name(name@) == Some(p),
                Err(PostureError::UnknownPosture(s)) => posture_from_name(name@) is None && s@
                    == name@,
            },
    {
        if str_eq(name, "Talk") {
            Ok(Posture::Talk)
        } else if str_eq(name, "NotTalk") {
            Ok(Posture::NotTalk)
        } else if str_eq(name, "Bust") {
            Ok(Posture::Bust)
        } else if str_eq(name, "Lying") {
            Ok(Posture::Lying)
        } else if str_eq(name, "Seiza") {
            Ok(Posture::Seiza)
        } else if str_eq(name, "None") {
            Ok(Posture::Empty)
        } else {
            Err(PostureError::UnknownPosture(name.to_owned()))
        }
    }
}

impl Default for Posture {
    /// The default posture is the `None` sentinel.
    fn default() -> (r: Posture)
        ensures
            r == Posture::Empty,
    {
        Posture::Empty
    }
}

} // verus!
