//! A draw: one animation frame. A fixed `SPEC_MAX_X` by `SPEC_MAX_Y` grid of
//! `(Emotion, Texel)` cells tagged with a posture and a playback duration in
//! milliseconds, plus a bounded cursor addressing the current cell.

use vstd::prelude::*;

use crate::cursor::Cursor;
use crate::emotion::Emotion;
use crate::part::Part;
use crate::posture::Posture;
use crate::texel::{Texel, texel_default};

verus! {

/// Width of a frame, in cells.
pub const SPEC_MAX_X: usize = 10;

/// Height of a frame, in cells.
pub const SPEC_MAX_Y: usize = 5;

/// Number of cells of a frame.
pub const SPEC_MAX_XY: usize = SPEC_MAX_X * SPEC_MAX_Y;

/// Largest valid cell-cursor position.
pub const SPEC_MAX_PRE_XY: usize = SPEC_MAX_XY - 1;

/// Error of the `Draw` constructor: the supplied cell slice does not hold
/// exactly `SPEC_MAX_XY` cells. Carries the actual and the expected length.
#[derive(Clone, Debug, PartialEq)]
pub enum DrawError {
    OutOfSize(usize, usize),
}

/// One cell of a frame: the emotion applied at that cell and the texel
/// displayed there.
pub type Cell = (Emotion, Texel);

/// The number of cells among `board[0..end)` whose texel belongs to `part`.
pub open spec fn count_part(board: Seq<Cell>, part: Part, end: int) -> int
    decreases end,
{
    if end <= 0 {
        0
    } else {
        count_part(board, part, end - 1) + if board[end - 1].1.part == part {
            1int
        } else {
            0int
        }
    }
}

pub broadcast proof fn lemma_count_part_bounds(board: Seq<Cell>, part: Part, end: int)
    requires
        0 <= end,
    ensures
        0 <= #[trigger] count_part(board, part, end) <= end,
    decreases end,
{
    if end > 0 {
        lemma_count_part_bounds(board, part, end - 1);
    }
}

/// The board that results from applying the emotion `emotion` and the glyph
/// variants `texels` to every cell of the part of `texels[0]`: the `k`-th
/// matching cell (in grid order) takes `emotion` and the glyph of
/// `texels[k]`, for `k` up to the variant count; every other cell, and every
/// matching cell beyond the variant count, is unchanged. With no variants
/// the board is unchanged.
pub open spec fn apply_variant(board: Seq<Cell>, emotion: Emotion, texels: Seq<Texel>) -> Seq<
    Cell,
> {
    if texels.len() == 0 {
        board
    } else {
        Seq::new(
            board.len(),
            |i: int|
                {
                    let part = texels[0].part;
                    let k = count_part(board, part, i);
                    if board[i].1.part == part && k < texels.len() {
                        (
                            emotion,
                            Texel {
                                part: board[i].1.part,
                                index: board[i].1.index,
                                glyph: texels[k].glyph,
                            },
                        )
                    } else {
                        board[i]
                    }
                },
        )
    }
}

/// The board that results from rewriting the `index`-th cell (in grid order)
/// whose texel shares the part of `texel`: that cell takes `emotion` and
/// `texel`; every other cell is unchanged.
pub open spec fn apply_cell_at(board: Seq<Cell>, index: int, texel: Texel, emotion: Emotion) -> Seq<
    Cell,
> {
    Seq::new(
        board.len(),
        |i: int|
            if board[i].1.part == texel.part && count_part(board, texel.part, i) == index {
                (emotion, texel)
            } else {
                board[i]
            },
    )
}

/// One animation frame of a sprite.
#[derive(Clone, Debug)]
pub struct Draw {
    pub posture: Posture,
    pub duration: i64,
    pub board: Cursor<Vec<Cell>>,
}

impl Draw {
    /// The frame's grid always holds exactly `SPEC_MAX_XY` cells and its
    /// cursor addresses one of them.
    pub open spec fn wf(self) -> bool {
        &&& self.board.inner@.len() == SPEC_MAX_XY
        &&& self.board.pos < SPEC_MAX_XY
    }

    /// The cells of this frame.
    pub open spec fn cells(self) -> Seq<Cell> {
        self.board.inner@
    }

    /// The cell-cursor position of this frame.
    pub open spec fn cursor(self) -> usize {
        self.board.pos
    }

    /// Constructs a frame from exactly `SPEC_MAX_XY` cells, with the cursor
    /// on the first cell; any other slice length fails with `OutOfSize`.
    pub fn new(posture: &Posture, duration: i64, buf: &[Cell]) -> (r: Result<Draw, DrawError>)
        ensures
            buf@.len() == SPEC_MAX_XY ==> (r matches Ok(d) && d.posture == *posture && d.duration
                == duration && d.cells() == buf@ && d.cursor() == 0 && d.wf()),
            buf@.len() != SPEC_MAX_XY ==> r == Result::<Draw, DrawError>::Err(
                DrawError::OutOfSize(buf@.len() as usize, SPEC_MAX_XY),
            ),
    {
        let len: usize = buf.len();
        if len == SPEC_MAX_XY {
            let mut board: Vec<Cell> = Vec::new();
            let mut i: usize = 0;
            while i < len
                invariant
                    len == buf@.len(),
                    i <= len,
                    board@ == buf@.subrange(0, i as int),
                decreases len - i,
            {
                board.push(buf[i]);
                assert(board@ =~= buf@.subrange(0, i + 1 as int));
                i = i + 1;
            }
            assert(board@ =~= buf@);
            Ok(Draw { posture: *posture, duration, board: Cursor::new(board) })
        } else {
            Err(DrawError::OutOfSize(len, SPEC_MAX_XY))
        }
    }

    /// The accessor method `current` returns the pointed cell.
    pub fn current(&self) -> (r: Option<Cell>)
        ensures
            self.cursor() < self.cells().len() ==> r == Some(self.cells()[self.cursor() as int]),
            self.cursor() >= self.cells().len() ==> r is None,
    {
        let pos = self.board.position();
        if pos < self.board.get_ref().len() {
            Some(self.board.get_ref()[pos])
        } else {
            None
        }
    }

    /// The part displayed at the pointed cell.
    pub fn get_current_part(&self) -> (r: Option<Part>)
        ensures
            self.cursor() < self.cells().len() ==> r == Some(
                self.cells()[self.cursor() as int].1.part,
            ),
            self.cursor() >= self.cells().len() ==> r is None,
    {
        match self.current() {
            Some(cell) => Some(cell.1.part),
            None => None,
        }
    }

    /// Applies one chosen emotion variant to every cell of one part: among
    /// the cells whose texel shares the part of `cell.1[0]`, the `k`-th one
    /// (in grid order) takes the emotion `cell.0` and the glyph of
    /// `cell.1[k]`, for `k` up to the variant count; cells of other parts,
    /// and matching cells beyond the variant count, are unchanged. With an
    /// empty variant list the frame is unchanged.
    pub fn set_current(&mut self, cell: (&Emotion, &Vec<Texel>))
        ensures
            final(self).posture == old(self).posture,
            final(self).duration == old(self).duration,
            final(self).cursor() == old(self).cursor(),
            final(self).cells() == apply_variant(old(self).cells(), *cell.0, cell.1@),
    {
        let texels = cell.1;
        if texels.len() == 0 {
            return ;
        }
        let part: Part = texels[0].part;
        let ghost orig = self.board.inner@;
        let len = self.board.get_ref().len();
        let mut i: usize = 0;
        let mut k: usize = 0;
        while i < len
            invariant
                len == orig.len(),
                self.board.inner@.len() == orig.len(),
                self.posture == old(self).posture,
                self.duration == old(self).duration,
                self.board.pos == old(self).board.pos,
                orig == old(self).cells(),
                texels@.len() > 0,
                part == texels@[0].part,
                i <= len,
                k == count_part(orig, part, i as int),
                forall|j: int| i <= j < len ==> #[trigger] self.board.inner@[j] == orig[j],
                forall|j: int|
                    0 <= j < i ==> #[trigger] self.board.inner@[j] == {
                        let kj = count_part(orig, part, j);
                        if orig[j].1.part == part && kj < texels@.len() {
                            (*cell.0, Texel {
                                part: orig[j].1.part,
                                index: orig[j].1.index,
                                glyph: texels@[kj].glyph,
                            })
                        } else {
                            orig[j]
                        }
                    },
            decreases len - i,
        {
            proof {
                lemma_count_part_bounds(orig, part, i as int);
            }
            if self.board.inner[i].1.part == part {
                if k < texels.len() {
                    let glyph = texels[k].glyph;
                    let old_cell: Cell = self.board.inner[i];
                    let new_texel = Texel {
                        part: old_cell.1.part,
                        index: old_cell.1.index,
                        glyph,
                    };
                    self.board.inner[i] = (*cell.0, new_texel);
                }
                k = k + 1;
            }
            i = i + 1;
        }
        assert(self.board.inner@ =~= apply_variant(orig, *cell.0, texels@));
    }

    /// The posture this frame belongs to.
    pub fn get_posture(&self) -> (r: &Posture)
        ensures
            *r == self.posture,
    {
        &self.posture
    }

    /// The accessor method `get_position` returns the cell-cursor position.
    pub fn get_position(&self) -> (r: usize)
        ensures
            r == self.cursor(),
    {
        self.board.position()
    }

    /// The mutator method `set_position` moves the cell cursor to `position`.
    pub fn set_position(&mut self, position: usize)
        requires
            position < SPEC_MAX_XY,
        ensures
            final(self).cursor() == position,
            final(self).board.inner == old(self).board.inner,
            final(self).posture == old(self).posture,
            final(self).duration == old(self).duration,
    {
        self.board.set_position(position);
    }

    /// Moves the cell cursor forward by `position` cells. A move that would
    /// pass the last cell is a saturating no-op returning `None`; there is
    /// no wraparound.
    pub fn add_position(&mut self, position: usize) -> (r: Option<()>)
        ensures
            final(self).board.inner == old(self).board.inner,
            final(self).posture == old(self).posture,
            final(self).duration == old(self).duration,
            old(self).cursor() + position <= SPEC_MAX_PRE_XY ==> final(self).cursor() == old(
                self,
            ).cursor() + position && r == Some(()),
            old(self).cursor() + position > SPEC_MAX_PRE_XY ==> final(self).cursor() == old(
                self,
            ).cursor() && r is None,
    {
        match self.board.position().checked_add(position) {
            Some(pos) => {
                if pos <= SPEC_MAX_PRE_XY {
                    self.board.set_position(pos);
                    Some(())
                } else {
                    None
                }
            },
            None => None,
        }
    }

    /// Moves the cell cursor backward by `position` cells. A move that would
    /// pass the first cell is a saturating no-op returning `None`.
    pub fn sub_position(&mut self, position: usize) -> (r: Option<()>)
        ensures
            final(self).board.inner == old(self).board.inner,
            final(self).posture == old(self).posture,
            final(self).duration == old(self).duration,
            position <= old(self).cursor() ==> final(self).cursor() == old(self).cursor()
                - position && r == Some(()),
            position > old(self).cursor() ==> final(self).cursor() == old(self).cursor()
                && r is None,
    {
        match self.board.position().checked_sub(position) {
            Some(pos) => {
                self.board.set_position(pos);
                Some(())
            },
            None => None,
        }
    }

    /// The playback duration of this frame, in milliseconds.
    pub fn get_duration(&self) -> (r: i64)
        ensures
            r == self.duration,
    {
        self.duration
    }

    /// Rewrites the `index`-th cell (in grid order) whose texel equals
    /// `texel` — that is, shares its part: that cell takes the emotion
    /// `emotion` and the texel `texel`; every other cell is unchanged.
    pub fn set_cell_at(&mut self, index: usize, texel: &Texel, emotion: &Emotion)
        ensures
            final(self).posture == old(self).posture,
            final(self).duration == old(self).duration,
            final(self).cursor() == old(self).cursor(),
            final(self).cells() == apply_cell_at(
                old(self).cells(),
                index as int,
                *texel,
                *emotion,
            ),
    {
        let part: Part = texel.part;
        let ghost orig = self.board.inner@;
        let len = self.board.get_ref().len();
        let mut i: usize = 0;
        let mut k: usize = 0;
        while i < len
            invariant
                len == orig.len(),
                self.board.inner@.len() == orig.len(),
                self.posture == old(self).posture,
                self.duration == old(self).duration,
                self.board.pos == old(self).board.pos,
                orig == old(self).cells(),
                part == texel.part,
                i <= len,
                k == count_part(orig, part, i as int),
                forall|j: int| i <= j < len ==> #[trigger] self.board.inner@[j] == orig[j],
                forall|j: int|
                    0 <= j < i ==> #[trigger] self.board.inner@[j] == if orig[j].1.part == part
                        && count_part(orig, part, j) == index {
                        (*emotion, *texel)
                    } else {
                        orig[j]
                    },
            decreases len - i,
        {
            proof {
                lemma_count_part_bounds(orig, part, i as int);
            }
            if self.board.inner[i].1.part == part {
                if k == index {
                    self.board.inner[i] = (*emotion, *texel);
                }
                k = k + 1;
            }
            i = i + 1;
        }
        assert(self.board.inner@ =~= apply_cell_at(orig, index as int, *texel, *emotion));
    }
}

impl Default for Draw {
    /// An all-sentinel frame: posture `None`, duration `0`, every cell the
    /// default emotion and texel, cursor on the first cell.
    fn default() -> (r: Draw)
        ensures
            r.posture == Posture::Empty,
            r.duration == 0,
            r.cursor() == 0,
            r.cells().len() == SPEC_MAX_XY,
            forall|i: int|
                0 <= i < SPEC_MAX_XY ==> #[trigger] r.cells()[i] == (
                    Emotion::Empty,
                    texel_default(),
                ),
            r.wf(),
    {
        let mut board: Vec<Cell> = Vec::new();
        let mut i: usize = 0;
        while i < SPEC_MAX_XY
            invariant
                i <= SPEC_MAX_XY,
                board@.len() == i,
                forall|j: int|
                    0 <= j < i ==> #[trigger] board@[j] == (Emotion::Empty, texel_default()),
            decreases SPEC_MAX_XY - i,
        {
            board.push((Emotion::Empty, Texel::default()));
            i = i + 1;
        }
        Draw { posture: Posture::Empty, duration: 0, board: Cursor::new(board) }
    }
}

} // verus!
