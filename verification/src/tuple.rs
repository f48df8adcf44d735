//! The `(Part, Emotion)` pair: the key of every texel dictionary.

use vstd::prelude::*;

use crate::emotion::Emotion;
use crate::part::Part;

verus! {

/// A part together with the emotion applied to it; the catalog key.
#[derive(Clone, Copy, Debug, PartialEq, Eq, Structural, Hash)]
pub struct Tuple {
    pub part: Part,
    pub emotion: Emotion,
}

impl From<(Part, Emotion)> for Tuple {
    /// Packs a part and an emotion into a catalog key.
    fn from(pair: (Part, Emotion)) -> (r: Tuple) {
        Tuple { part: pair.0, emotion: pair.1 }
    }
}

impl vstd::std_specs::convert::FromSpecImpl<(Part, Emotion)> for Tuple {
    open spec fn obeys_from_spec() -> bool {
        true
    }

    open spec fn from_spec(v: (Part, Emotion)) -> Tuple {
        Tuple { part: v.0, emotion: v.1 }
    }
}

} // verus!
