//! A texel: one renderable glyph tied to a body part. The glyph must lie in
//! the private-use block reserved for the icon font; the index distinguishes
//! variant instances of the same part gathered while scanning a frame.

use vstd::prelude::*;

use crate::part::{Part, PartError, part_from_name};

verus! {

/// First character of the private-use block a glyph may come from.
pub const SPEC_GLYPH_MIN: u32 = 0xe000;

/// Last character of the private-use block a glyph may come from.
pub const SPEC_GLYPH_MAX: u32 = 0xefff;

/// Error of the `Texel` constructor.
#[derive(Clone, Debug, PartialEq)]
pub enum TexelError {
    /// The glyph lies outside the reserved private-use block.
    ForbiddenGlyph(char),
    /// The part name is not in the `Part` table.
    PartFail(PartError),
}

/// True for characters inside the reserved private-use block.
pub open spec fn glyph_allowed(glyph: char) -> bool {
    SPEC_GLYPH_MIN <= glyph as u32 <= SPEC_GLYPH_MAX
}

/// One renderable glyph tied to a body part. Two texels are equal when
/// their parts are equal: variants of one part are interchangeable cell
/// contents that differ only in the displayed glyph.
#[derive(Clone, Copy, Debug)]
pub struct Texel {
    pub part: Part,
    pub index: usize,
    pub glyph: char,
}

impl Texel {
    /// The part this texel belongs to.
    pub open spec fn spec_part(self) -> Part {
        self.part
    }

    /// The variant index of this texel.
    pub open spec fn spec_index(self) -> usize {
        self.index
    }

    /// The displayed glyph of this texel.
    pub open spec fn spec_glyph(self) -> char {
        self.glyph
    }

    /// Constructs a texel for the part named `part`, displaying `glyph`.
    /// A glyph outside the private-use block fails with `ForbiddenGlyph`;
    /// an unknown part name fails with `PartFail`.
    pub fn new(part: &str, glyph: char) -> (r: Result<Texel, TexelError>)
        ensures
            match r {
                Ok(t) => glyph_allowed(glyph) && part_from_name(part@) == Some(t.spec_part())
                    && t.spec_glyph() == glyph && t.spec_index() == 0,
                Err(TexelError::ForbiddenGlyph(g)) => !glyph_allowed(glyph) && g == glyph,
                Err(TexelError::PartFail(PartError::UnknownPart(s))) => glyph_allowed(glyph)
                    && part_from_name(part@) is None && s@ == part@,
            },
    {
        let code: u32 = glyph as u32;
        if SPEC_GLYPH_MIN <= code && code <= SPEC_GLYPH_MAX {
            match Part::new(part) {
                Err(why) => Err(TexelError::PartFail(why)),
                Ok(part) => Ok(Texel { part, index: 0, glyph }),
            }
        } else {
            Err(TexelError::ForbiddenGlyph(glyph))
        }
    }

    /// The accessor method `get_part` returns the texel's part.
    pub fn get_part(&self) -> (r: &Part)
        ensures
            *r == self.spec_part(),
    {
        &self.part
    }

    /// The accessor method `get_glyph` returns the displayed glyph.
    pub fn get_glyph(&self) -> (r: char)
        ensures
            r == self.spec_glyph(),
    {
        self.glyph
    }

    /// The accessor method `get_index` returns the variant index.
    pub fn get_index(&self) -> (r: usize)
        ensures
            r == self.spec_index(),
    {
        self.index
    }

    /// Rewrites the variant index without touching identity.
    pub fn set_index(&mut self, index: usize)
        ensures
            final(self).spec_part() == old(self).spec_part(),
            final(self).spec_glyph() == old(self).spec_glyph(),
            final(self).spec_index() == index,
    {
        self.index = index;
    }

    /// Rewrites the displayed glyph without touching identity.
    pub fn set_glyph(&mut self, glyph: char)
        ensures
            final(self).spec_part() == old(self).spec_part(),
            final(self).spec_index() == old(self).spec_index(),
            final(self).spec_glyph() == glyph,
    {
        self.glyph = glyph;
    }

    /// The part, when this is the primary (index `0`) instance gathered
    /// for that part; `None` on secondary instances.
    pub fn is_first(&self) -> (r: Option<&Part>)
        ensures
            r == if self.spec_index() == 0 {
                Some(&self.part)
            } else {
                Option::<&Part>::None
            },
    {
        if self.index == 0 {
            Some(self.get_part())
        } else {
            None
        }
    }
}

/// Copies a list of texel variants element by element.
pub fn copy_texels(v: &Vec<Texel>) -> (r: Vec<Texel>)
    ensures
        r@ == v@,
{
    let mut r: Vec<Texel> = Vec::new();
    let mut i: usize = 0;
    while i < v.len()
        invariant
            i <= v@.len(),
            r@ == v@.subrange(0, i as int),
        decreases v@.len() - i,
    {
        r.push(v[i]);
        assert(r@ =~= v@.subrange(0, i + 1 as int));
        i = i + 1;
    }
    assert(r@ =~= v@);
    r
}

/// The all-sentinel texel: part `None`, index `0`, the NUL glyph.
pub open spec fn texel_default() -> Texel {
    Texel { part: Part::Empty, index: 0, glyph: '\0' }
}

impl Default for Texel {
    /// The default texel is the all-sentinel texel.
    fn default() -> (r: Texel)
        ensures
            r == texel_default(),
    {
        Texel { part: Part::Empty, index: 0, glyph: '\0' }
    }
}

impl PartialEq for Texel {
    /// Texels compare by part alone.
    fn eq(&self, rhs: &Texel) -> (r: bool) {
        self.part == rhs.part
    }
}

impl vstd::std_specs::cmp::PartialEqSpecImpl for Texel {
    open spec fn obeys_eq_spec() -> bool {
        true
    }

    open spec fn eq_spec(&self, rhs: &Texel) -> bool {
        self.part == rhs.part
    }
}

} // verus!
