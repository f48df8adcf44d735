//! The `Part` lexicon: the closed set of body-part and prop identifiers,
//! with its bidirectional string mapping and two-letter display codes.

use vstd::prelude::*;

use crate::text::str_eq;

verus! {

/// Error of the `Part` constructor: the name is not in the table.
#[derive(Clone, Debug, PartialEq)]
pub enum PartError {
    UnknownPart(String),
}

/// A named body location or prop slot of the drawn persona,
/// plus the `None` sentinel.
#[derive(Clone, Copy, Debug, PartialEq, Eq, Structural, Hash)]
pub enum Part {
    Empty,
    ArmLeft,
    ArmRight,
    Boobs,
    Clavicle,
    EarLeft,
    EarRight,
    EyeLeft,
    EyeRight,
    HairTop,
    HairLeft,
    HairRight,
    HandLeft,
    HandRight,
    Mouth,
    Tail,
    Bell,
    ExclamationMark,
    ExclamationMarks,
    Heart,
    Hearts,
    Lantern,
    QuestionMark,
    QuestionMarks,
    WoolBall,
}

/// The part named by a string, if any: the exact, case-sensitive name table.
pub open spec fn part_from_name(s: Seq<char>) -> Option<Part> {
    if s == "ArmLeft"@ {
        Some(Part::ArmLeft)
    } else if s == "ArmRight"@ {
        Some(Part::ArmRight)
    } else if s == "Boobs"@ {
        Some(Part::Boobs)
    } else if s == "Clavicle"@ {
        Some(Part::Clavicle)
    } else if s == "EarLeft"@ {
        Some(Part::EarLeft)
    } else if s == "EarRight"@ {
        Some(Part::EarRight)
    } else if s == "EyeLeft"@ {
        Some(Part::EyeLeft)
    } else if s == "EyeRight"@ {
        Some(Part::EyeRight)
    } else if s == "HairTop"@ {
        Some(Part::HairTop)
    } else if s == "HairLeft"@ {
        Some(Part::HairLeft)
    } else if s == "HairRight"@ {
        Some(Part::HairRight)
    } else if s == "HandLeft"@ {
        Some(Part::HandLeft)
    } else if s == "HandRight"@ {
        Some(Part::HandRight)
    } else if s == "Mouth"@ {
        Some(Part::Mouth)
    } else if s == "Tail"@ {
        Some(Part::Tail)
    } else if s == "Bell"@ {
        Some(Part::Bell)
    } else if s == "ExclamationMark"@ {
        Some(Part::ExclamationMark)
    } else if s == "ExclamationMarks"@ {
        Some(Part::ExclamationMarks)
    } else if s == "Heart"@ {
        Some(Part::Heart)
    } else if s == "Hearts"@ {
        Some(Part::Hearts)
    } else if s == "Lantern"@ {
        Some(Part::Lantern)
    } else if s == "QuestionMark"@ {
        Some(Part::QuestionMark)
    } else if s == "QuestionMarks"@ {
        Some(Part::QuestionMarks)
    } else if s == "WoolBall"@ {
        Some(Part::WoolBall)
    } else if s == "None"@ {
        Some(Part::Empty)
    } else {
        None
    }
}

impl Part {
    /// Constructs the part named `name`; any name outside the table
    /// fails with `UnknownPart` carrying the rejected name.
    pub fn new(name: &str) -> (r: Result<Part, PartError>)
        ensures
            match r {
                Ok(p) => part_from_name(name@) == Some(p),
                Err(PartError::UnknownPart(s)) => part_from_name(name@) is None && s@ == name@,
            },
    {
        if str_eq(name, "ArmLeft") {
            Ok(Part::ArmLeft)
        } else if str_eq(name, "ArmRight") {
            Ok(Part::ArmRight)
        } else if str_eq(name, "Boobs") {
            Ok(Part::Boobs)
        } else if str_eq(name, "Clavicle") {
            Ok(Part::Clavicle)
        } else if str_eq(name, "EarLeft") {
            Ok(Part::EarLeft)
        } else if str_eq(name, "EarRight") {
            Ok(Part::EarRight)
        } else if str_eq(name, "EyeLeft") {
            Ok(Part::EyeLeft)
        } else if str_eq(name, "EyeRight") {
            Ok(Part::EyeRight)
        } else if str_eq(name, "HairTop") {
            Ok(Part::HairTop)
        } else if str_eq(name, "HairLeft") {
            Ok(Part::HairLeft)
        } else if str_eq(name, "HairRight") {
            Ok(Part::HairRight)
        } else if str_eq(name, "HandLeft") {
            Ok(Part::HandLeft)
        } else if str_eq(name, "HandRight") {
            Ok(Part::HandRight)
        } else if str_eq(name, "Mouth") {
            Ok(Part::Mouth)
        } else if str_eq(name, "Tail") {
            Ok(Part::Tail)
        } else if str_eq(name, "Bell") {
            Ok(Part::Bell)
        } else if str_eq(name, "ExclamationMark") {
            Ok(Part::ExclamationMark)
        } else if str_eq(name, "ExclamationMarks") {
            Ok(Part::ExclamationMarks)
        } else if str_eq(name, "Heart") {
            Ok(Part::Heart)
        } else if str_eq(name, "Hearts") {
            Ok(Part::Hearts)
        } else if str_eq(name, "Lantern") {
            Ok(Part::Lantern)
        } else if str_eq(name, "QuestionMark") {
            Ok(Part::QuestionMark)
        } else if str_eq(name, "QuestionMarks") {
            Ok(Part::QuestionMarks)
        } else if str_eq(name, "WoolBall") {
            Ok(Part::WoolBall)
        } else if str_eq(name, "None") {
            Ok(Part::Empty)
        } else {
            Err(PartError::UnknownPart(name.to_owned()))
        }
    }

    /// Some part, unless this is the `None` sentinel.
    pub fn not_empty(&self) -> (r: Option<&Part>)
        ensures
            r == if *self == Part::Empty {
                Option::<&Part>::None
            } else {
                Some(self)
            },
    {
        match *self {
            Part::Empty => None,
            _ => Some(self),
        }
    }

    /// The fixed two-letter display code of the part.
    pub open spec fn spec_code(self) -> Seq<char> {
        match self {
            Part::ArmLeft => "Ml"@,
            Part::ArmRight => "Mr"@,
            Part::Boobs => "Oo"@,
            Part::Clavicle => "Cl"@,
            Part::EarLeft => "Al"@,
            Part::EarRight => "Ar"@,
            Part::EyeLeft => "El"@,
            Part::EyeRight => "Er"@,
            Part::HairTop => "Rt"@,
            Part::HairLeft => "Rl"@,
            Part::HairRight => "Rr"@,
            Part::HandLeft => "Hl"@,
            Part::HandRight => "Hr"@,
            Part::Mouth => "Mo"@,
            Part::Tail => "Ta"@,
            Part::Bell => "Be"@,
            Part::ExclamationMark => "Xm"@,
            Part::ExclamationMarks => "Xs"@,
            Part::Heart => "He"@,
            Part::Hearts => "Hs"@,
            Part::Lantern => "La"@,
            Part::QuestionMark => "Qm"@,
            Part::QuestionMarks => "Qs"@,
            Part::WoolBall => "Wb"@,
            Part::Empty => "__"@,
        }
    }

    /// The short display code used in on-screen labels and exports.
    pub fn get_code(&self) -> (r: &'static str)
        ensures
            r@ == self.spec_code(),
    {
        match *self {
            Part::ArmLeft => "Ml",
            Part::ArmRight => "Mr",
            Part::Boobs => "Oo",
            Part::Clavicle => "Cl",
            Part::EarLeft => "Al",
            Part::EarRight => "Ar",
            Part::EyeLeft => "El",
            Part::EyeRight => "Er",
            Part::HairTop => "Rt",
            Part::HairLeft => "Rl",
            Part::HairRight => "Rr",
            Part::HandLeft => "Hl",
            Part::HandRight => "Hr",
            Part::Mouth => "Mo",
            Part::Tail => "Ta",
            Part::Bell => "Be",
            Part::ExclamationMark => "Xm",
            Part::ExclamationMarks => "Xs",
            Part::Heart => "He",
            Part::Hearts => "Hs",
            Part::Lantern => "La",
            Part::QuestionMark => "Qm",
            Part::QuestionMarks => "Qs",
            Part::WoolBall => "Wb",
            Part::Empty => "__",
        }
    }
}

impl Default for Part {
    /// The default part is the `None` sentinel.
    fn default() -> (r: Part)
        ensures
            r == Part::Empty,
    {
        Part::Empty
    }
}

} // verus!
