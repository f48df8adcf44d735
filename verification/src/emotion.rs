//! The `Emotion` lexicon: the closed set of expression identifiers applied
//! to a part, plus the `None` sentinel.

use vstd::prelude::*;

use crate::text::str_eq;

verus! {

/// Error of the `Emotion` constructor: the name is not in the table.
#[derive(Clone, Debug, PartialEq)]
pub enum EmotionError {
    UnknownEmotion(String),
}

/// A named expression variant applied to a part, plus the `None` sentinel.
#[derive(Clone, Copy, Debug, PartialEq, Eq, Structural, Hash)]
pub enum Emotion {
    Empty,
    Angry,
    Happy,
    Love,
    Malicious,
    Misunderstanding,
    Shocked,
    Sleepy,
    Speechless,
}

/// The emotion named by a string, if any: the exact, case-sensitive name table.
pub open spec fn emotion_from_name(s: Seq<char>) -> Option<Emotion> {
    if s == "Angry"@ {
        Some(Emotion::Angry)
    } else if s == "Happy"@ {
        Some(Emotion::Happy)
    } else if s == "Love"@ {
        Some(Emotion::Love)
    } else if s == "Malicious"@ {
        Some(Emotion::Malicious)
    } else if s == "Misunderstanding"@ {
        Some(Emotion::Misunderstanding)
    } else if s == "Shocked"@ {
        Some(Emotion::Shocked)
    } else if s == "Sleepy"@ {
        Some(Emotion::Sleepy)
    } else if s == "Speechless"@ {
        Some(Emotion::Speechless)
    } else if s == "None"@ {
        Some(Emotion::Empty)
    } else {
        None
    }
}

impl Emotion {
    /// Constructs the emotion named `name`; any name outside the table
    /// fails with `UnknownEmotion` carrying the rejected name.
    pub fn new(name: &str) -> (r: Result<Emotion, EmotionError>)
        ensures
            match r {
                Ok(e) => emotion_from_name(name@) == Some(e),
                Err(EmotionError::UnknownEmotion(s)) => emotion_from_name(name@) is None && s@
                    == name@,
            },
    {
        if str_eq(name, "Angry") {
            Ok(Emotion::Angry)
        } else if str_eq(name, "Happy") {
            Ok(Emotion::Happy)
        } else if str_eq(name, "Love") {
            Ok(Emotion::Love)
        } else if str_eq(name, "Malicious") {
            Ok(Emotion::Malicious)
        } else if str_eq(name, "Misunderstanding") {
            Ok(Emotion::Misunderstanding)
        } else if str_eq(name, "Shocked") {
            Ok(Emotion::Shocked)
        } else if str_eq(name, "Sleepy") {
            Ok(Emotion::Sleepy)
        } else if str_eq(name, "Speechless") {
            Ok(Emotion::Speechless)
        } else if str_eq(name, "None") {
            Ok(Emotion::Empty)
        } else {
            Err(EmotionError::UnknownEmotion(name.to_owned()))
        }
    }

    /// True exactly on the `None` sentinel.
    pub fn is_none(&self) -> (r: bool)
        ensures
            r == (*self == Emotion::Empty),
    {
        match *self {
            Emotion::Empty => true,
            _ => false,
        }
    }

    /// Some emotion, unless this is the `None` sentinel.
    pub fn not_empty(&self) -> (r: Option<&Emotion>)
        ensures
            r == if *self == Emotion::Empty {
                Option::<&Emotion>::None
            } else {
                Some(self)
            },
    {
        match *self {
            Emotion::Empty => None,
            _ => Some(self),
        }
    }
}

impl Default for Emotion {
    /// The default emotion is the `None` sentinel.
    fn default() -> (r: Emotion)
        ensures
            r == Emotion::Empty,
    {
        Emotion::Empty
    }
}

} // verus!
