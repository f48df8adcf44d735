//! A sprite: an ordered, bounded sequence of frames sharing one pose, a
//! cursor selecting the current frame, and a local dictionary remembering
//! which texel variants are eligible per `(Part, Emotion)` key.

use vstd::prelude::*;

use crate::catalog::{TexelEntry, entries_unique, entries_view, set_texels};
use crate::cursor::Cursor;
use crate::draw::{
    Cell, Draw, SPEC_MAX_PRE_XY, SPEC_MAX_XY, apply_cell_at, apply_variant, count_part,
};
use crate::emotion::Emotion;
use crate::part::Part;
use crate::posture::Posture;
use crate::texel::{Texel, copy_texels};
use crate::tuple::Tuple;

verus! {

/// The limit of frames a sprite can hold.
pub const SPEC_MAX_DRAW: usize = 16;

/// The cells a frame request resolves to against a texel dictionary. Each
/// requested `(part, emotion)` pair with a non-empty variant list yields one
/// cell: the `n`-th cell of a part (counted over the cells resolved so far)
/// takes the `n`-th registered variant, cycling when the variants run out.
/// A pair with no variants is dropped.
pub open spec fn resolve_cells(dict: Map<Tuple, Seq<Texel>>, source: Seq<Tuple>) -> Seq<Cell>
    decreases source.len(),
{
    if source.len() == 0 {
        Seq::empty()
    } else {
        let prev = resolve_cells(dict, source.drop_last());
        let t = source.last();
        if dict.contains_key(t) && dict[t].len() > 0 {
            let occ = count_part(prev, t.part, prev.len() as int);
            prev.push((t.emotion, dict[t][occ % dict[t].len() as int]))
        } else {
            prev
        }
    }
}

/// A request the dictionary can serve: its key is registered with at least
/// one variant.
pub open spec fn pair_resolves(dict: Map<Tuple, Seq<Texel>>, t: Tuple) -> bool {
    dict.contains_key(t) && dict[t].len() > 0
}

/// When every request resolves, resolution yields one cell per request.
pub proof fn lemma_resolve_cells_full(dict: Map<Tuple, Seq<Texel>>, source: Seq<Tuple>)
    requires
        forall|j: int| 0 <= j < source.len() ==> pair_resolves(dict, #[trigger] source[j]),
    ensures
        resolve_cells(dict, source).len() == source.len(),
    decreases source.len(),
{
    if source.len() > 0 {
        assert(pair_resolves(dict, source.last()));
        lemma_resolve_cells_full(dict, source.drop_last());
    }
}

/// Counts the cells of `cells` whose texel belongs to `part`.
pub fn count_cells_part(cells: &Vec<Cell>, part: &Part) -> (r: usize)
    ensures
        r == count_part(cells@, *part, cells@.len() as int),
{
    let mut i: usize = 0;
    let mut k: usize = 0;
    while i < cells.len()
        invariant
            i <= cells@.len(),
            k == count_part(cells@, *part, i as int),
        decreases cells@.len() - i,
    {
        proof {
            crate::draw::lemma_count_part_bounds(cells@, *part, i as int);
        }
        if cells[i].1.part == *part {
            k = k + 1;
        }
        i = i + 1;
    }
    k
}

/// The frame cursor can advance by `n` exactly when the target frame exists.
pub open spec fn add_position_ok(pre: Sprite, n: usize) -> bool {
    pre.cursor() + n < pre.count()
}

/// The frame-cursor advance rule: a move past the last frame is a
/// saturating no-op; the dictionary and the frames are untouched.
pub open spec fn add_position_rel(pre: Sprite, post: Sprite, n: usize) -> bool {
    &&& post.texel == pre.texel
    &&& post.sheet.inner == pre.sheet.inner
    &&& post.cursor() == if add_position_ok(pre, n) {
        (pre.cursor() + n) as usize
    } else {
        pre.cursor()
    }
}

/// The frame cursor can retreat whenever some frame exists: a move past
/// frame `0` wraps to the last frame.
pub open spec fn sub_position_ok(pre: Sprite, n: usize) -> bool {
    n <= pre.cursor() || pre.count() > 0
}

/// The frame-cursor retreat rule: move back by `n`, wrapping to the last
/// frame when the move would pass frame `0`; the dictionary and the frames
/// are untouched.
pub open spec fn sub_position_rel(pre: Sprite, post: Sprite, n: usize) -> bool {
    &&& post.texel == pre.texel
    &&& post.sheet.inner == pre.sheet.inner
    &&& post.cursor() == if n <= pre.cursor() {
        (pre.cursor() - n) as usize
    } else if pre.count() > 0 {
        (pre.count() - 1) as usize
    } else {
        pre.cursor()
    }
}

/// Cell navigation forward can move exactly when the pointed frame has room
/// for the cell move, or a next frame exists to overflow into.
pub open spec fn add_position_draw_ok(pre: Sprite, n: usize) -> bool {
    pre.count() > 0 && (pre.draws()[pre.cursor() as int].cursor() + n <= SPEC_MAX_PRE_XY
        || pre.cursor() + 1 < pre.count())
}

/// The cell-navigation-forward rule: the pointed frame's cell cursor moves
/// by `n` when it can; otherwise the frame cursor advances by one and no
/// cell moves; at the last cell of the last frame nothing moves.
pub open spec fn add_position_draw_rel(pre: Sprite, post: Sprite, n: usize) -> bool {
    &&& post.texel == pre.texel
    &&& post.count() == pre.count()
    &&& if pre.count() == 0 {
        post.sheet == pre.sheet
    } else {
        let pos = pre.cursor() as int;
        let d = pre.draws()[pos];
        if d.cursor() + n <= SPEC_MAX_PRE_XY {
            post.cursor() == pre.cursor() && post.draws() == pre.draws().update(
                pos,
                Draw {
                    board: Cursor { pos: (d.cursor() + n) as usize, inner: d.board.inner },
                    ..d
                },
            )
        } else if pos + 1 < pre.count() {
            post.draws() == pre.draws() && post.cursor() == pre.cursor() + 1
        } else {
            post.draws() == pre.draws() && post.cursor() == pre.cursor()
        }
    }
}

/// Cell navigation backward can move whenever some frame exists.
pub open spec fn sub_position_draw_ok(pre: Sprite) -> bool {
    pre.count() > 0
}

/// The cell-navigation-backward rule: the pointed frame's cell cursor moves
/// back by `n` when it can; otherwise the frame cursor retreats by one,
/// wrapping from frame `0` to the last frame, and no cell moves.
pub open spec fn sub_position_draw_rel(pre: Sprite, post: Sprite, n: usize) -> bool {
    &&& post.texel == pre.texel
    &&& post.count() == pre.count()
    &&& if pre.count() == 0 {
        post.sheet == pre.sheet
    } else {
        let pos = pre.cursor() as int;
        let d = pre.draws()[pos];
        if n <= d.cursor() {
            post.cursor() == pre.cursor() && post.draws() == pre.draws().update(
                pos,
                Draw {
                    board: Cursor { pos: (d.cursor() - n) as usize, inner: d.board.inner },
                    ..d
                },
            )
        } else if pos >= 1 {
            post.draws() == pre.draws() && post.cursor() == pre.cursor() - 1
        } else {
            post.draws() == pre.draws() && post.cursor() == pre.count() - 1
        }
    }
}

/// The apply-variant rule at the sprite level: the pointed frame's board is
/// rewritten by `apply_variant`, its cursor, posture and duration stay, and
/// every other frame, the dictionary and both cursors are untouched. On a
/// sprite without frames nothing changes.
pub open spec fn set_current_rel(pre: Sprite, post: Sprite, emotion: Emotion, texels: Seq<Texel>) -> bool {
    &&& post.texel == pre.texel
    &&& post.cursor() == pre.cursor()
    &&& post.count() == pre.count()
    &&& if pre.count() == 0 {
        post.sheet == pre.sheet
    } else {
        let pos = pre.cursor() as int;
        let d = pre.draws()[pos];
        &&& forall|j: int|
            0 <= j < pre.draws().len() && j != pos ==> post.draws()[j] == pre.draws()[j]
        &&& post.draws()[pos].posture == d.posture
        &&& post.draws()[pos].duration == d.duration
        &&& post.draws()[pos].cursor() == d.cursor()
        &&& post.draws()[pos].cells() == apply_variant(d.cells(), emotion, texels)
    }
}

/// The board after pushing `emotion` and the first `upto` variants of
/// `texels` into the cells of their part, the `k`-th variant into the
/// `k`-th matching cell, one rewrite at a time.
pub open spec fn apply_texels(board: Seq<Cell>, emotion: Emotion, texels: Seq<Texel>, upto: int) -> Seq<Cell>
    decreases upto,
{
    if upto <= 0 {
        board
    } else {
        apply_cell_at(apply_texels(board, emotion, texels, upto - 1), upto - 1, texels[upto - 1], emotion)
    }
}

/// The board after applying the first `upto` requested tuples in turn:
/// each tuple registered in the dictionary pushes its emotion and its
/// registered variants into the cells of its part; an unregistered tuple
/// does nothing.
pub open spec fn apply_tuples(
    board: Seq<Cell>,
    dict: Map<Tuple, Seq<Texel>>,
    tuples: Seq<Tuple>,
    upto: int,
) -> Seq<Cell>
    decreases upto,
{
    if upto <= 0 {
        board
    } else {
        let prev = apply_tuples(board, dict, tuples, upto - 1);
        let t = tuples[upto - 1];
        if dict.contains_key(t) {
            apply_texels(prev, t.emotion, dict[t], dict[t].len() as int)
        } else {
            prev
        }
    }
}

/// The explicit-emotion rule: frame by frame, the `i`-th row of the change
/// table is applied to the `i`-th frame's board (see `apply_tuples`); the
/// dictionary, the cursors and every frame's tag are untouched.
pub open spec fn explicite_rel(pre: Sprite, post: Sprite, change: Seq<[Tuple; SPEC_MAX_XY]>) -> bool {
    &&& post.texel == pre.texel
    &&& post.cursor() == pre.cursor()
    &&& post.count() == pre.count()
    &&& forall|i: int|
        0 <= i < pre.count() ==> {
            &&& (#[trigger] post.draws()[i]).posture == pre.draws()[i].posture
            &&& post.draws()[i].duration == pre.draws()[i].duration
            &&& post.draws()[i].cursor() == pre.draws()[i].cursor()
            &&& post.draws()[i].cells() == apply_tuples(
                pre.draws()[i].cells(),
                entries_view(pre.texel@),
                change[i]@,
                SPEC_MAX_XY as int,
            )
        }
}

/// Frame wrap: on a sprite with frames and the frame cursor at `0`,
/// stepping back one frame lands on the last frame.
pub proof fn lemma_frame_wrap(pre: Sprite, post: Sprite)
    requires
        pre.wf(),
        pre.cursor() == 0,
        pre.count() > 0,
        sub_position_rel(pre, post, 1),
    ensures
        post.cursor() == pre.count() - 1,
{
}

/// Cell-to-frame overflow chaining: moving the cell cursor past the last
/// cell of the current frame advances the frame cursor by exactly one and
/// leaves every frame, and every cell cursor, unchanged.
pub proof fn lemma_cell_overflow_chains(pre: Sprite, post: Sprite, n: usize)
    requires
        pre.wf(),
        pre.count() > 0,
        add_position_draw_rel(pre, post, n),
        pre.draws()[pre.cursor() as int].cursor() + n > SPEC_MAX_PRE_XY,
        pre.cursor() + 1 < pre.count(),
    ensures
        post.cursor() == pre.cursor() + 1,
        post.draws() == pre.draws(),
{
}

/// An ordered, bounded sequence of frames behind a cursor, with the local
/// texel dictionary the frames were resolved against.
#[derive(Clone, Debug)]
pub struct Sprite {
    pub texel: Vec<TexelEntry>,
    pub sheet: Cursor<Vec<Draw>>,
}

impl Sprite {
    /// At most `SPEC_MAX_DRAW` frames, every frame well formed, the cursor
    /// on an existing frame whenever one exists, and dictionary keys unique.
    pub open spec fn wf(self) -> bool {
        &&& self.sheet.inner@.len() <= SPEC_MAX_DRAW
        &&& (self.sheet.inner@.len() == 0 ==> self.sheet.pos == 0)
        &&& (self.sheet.inner@.len() > 0 ==> self.sheet.pos < self.sheet.inner@.len())
        &&& forall|i: int|
            0 <= i < self.sheet.inner@.len() ==> (#[trigger] self.sheet.inner@[i]).wf()
        &&& entries_unique(self.texel@)
    }

    /// The frames of this sprite.
    pub open spec fn draws(self) -> Seq<Draw> {
        self.sheet.inner@
    }

    /// The number of frames of this sprite.
    pub open spec fn count(self) -> int {
        self.sheet.inner@.len() as int
    }

    /// The frame-cursor position of this sprite.
    pub open spec fn cursor(self) -> usize {
        self.sheet.pos
    }

    /// The local texel dictionary, as a map.
    pub open spec fn dict(self) -> Map<Tuple, Seq<Texel>> {
        entries_view(self.texel@)
    }

    /// Appends a frame; a sprite already holding `SPEC_MAX_DRAW` frames is
    /// left unchanged.
    pub fn insert(&mut self, draw: Draw)
        requires
            old(self).wf(),
            draw.wf(),
        ensures
            final(self).wf(),
            final(self).texel == old(self).texel,
            final(self).cursor() == old(self).cursor(),
            old(self).count() < SPEC_MAX_DRAW ==> final(self).draws() == old(self).draws().push(
                draw,
            ),
            old(self).count() == SPEC_MAX_DRAW ==> final(self).draws() == old(self).draws(),
    {
        if self.sheet.get_ref().len() < SPEC_MAX_DRAW {
            self.sheet.get_mut().push(draw);
        }
    }

    /// The pointed cell of the pointed frame; `None` on a sprite without
    /// frames.
    pub fn current(&self) -> (r: Option<Cell>)
        requires
            self.wf(),
        ensures
            self.count() == 0 ==> r is None,
            self.count() > 0 ==> r == Some(
                self.draws()[self.cursor() as int].cells()[self.draws()[self.cursor() as int].cursor() as int],
            ),
    {
        let pos = self.sheet.position();
        if pos < self.sheet.get_ref().len() {
            self.sheet.get_ref()[pos].current()
        } else {
            None
        }
    }

    /// Applies one chosen `(emotion, variants)` pair to the pointed frame
    /// (see `apply_variant`); `None` on a sprite without frames.
    pub fn set_current(&mut self, cell: (&Emotion, &Vec<Texel>)) -> (r: Option<()>)
        requires
            old(self).wf(),
        ensures
            final(self).wf(),
            set_current_rel(*old(self), *final(self), *cell.0, cell.1@),
            r == if old(self).count() > 0 {
                Some(())
            } else {
                Option::<()>::None
            },
    {
        let pos = self.sheet.position();
        if pos < self.sheet.get_ref().len() {
            let d = &mut self.sheet.inner[pos];
            d.set_current(cell);
            Some(())
        } else {
            None
        }
    }

    /// The posture of the pointed frame; `None` on a sprite without frames.
    pub fn get_posture(&self) -> (r: Option<&Posture>)
        requires
            self.wf(),
        ensures
            self.count() == 0 ==> r is None,
            self.count() > 0 ==> (r matches Some(p) && *p == self.draws()[self.cursor() as int].posture),
    {
        let pos = self.sheet.position();
        if pos < self.sheet.get_ref().len() {
            Some(self.sheet.get_ref()[pos].get_posture())
        } else {
            None
        }
    }

    /// The pointed frame; `None` on a sprite without frames.
    pub fn get_current_draw(&self) -> (r: Option<&Draw>)
        requires
            self.wf(),
        ensures
            self.count() == 0 ==> r is None,
            self.count() > 0 ==> (r matches Some(d) && *d == self.draws()[self.cursor() as int]),
    {
        let pos = self.sheet.position();
        if pos < self.sheet.get_ref().len() {
            Some(&self.sheet.get_ref()[pos])
        } else {
            None
        }
    }

    /// Moves the frame cursor forward by `position` frames. A move that
    /// would pass the last frame is a saturating no-op returning `None`.
    pub fn add_position(&mut self, position: usize) -> (r: Option<()>)
        requires
            old(self).wf(),
        ensures
            final(self).wf(),
            add_position_rel(*old(self), *final(self), position),
            r == if add_position_ok(*old(self), position) {
                Some(())
            } else {
                Option::<()>::None
            },
    {
        match self.sheet.position().checked_add(position) {
            Some(pos) => {
                if pos < self.sheet.get_ref().len() {
                    self.sheet.set_position(pos);
                    Some(())
                } else {
                    None
                }
            },
            None => None,
        }
    }

    /// Moves the frame cursor backward by `position` frames. A move that
    /// would pass the first frame wraps to the last frame: the previous
    /// frame of frame `0` is frame `count - 1`. Only a sprite without
    /// frames returns `None`.
    pub fn sub_position(&mut self, position: usize) -> (r: Option<()>)
        requires
            old(self).wf(),
        ensures
            final(self).wf(),
            sub_position_rel(*old(self), *final(self), position),
            r == if sub_position_ok(*old(self), position) {
                Some(())
            } else {
                Option::<()>::None
            },
    {
        match self.sheet.position().checked_sub(position) {
            Some(pos) => {
                self.sheet.set_position(pos);
                Some(())
            },
            None => {
                let len = self.sheet.get_ref().len();
                if len > 0 {
                    self.sheet.set_position(len - 1);
                    Some(())
                } else {
                    None
                }
            },
        }
    }

    /// Moves the cell cursor of the pointed frame forward by `position`
    /// cells; when the frame reports that no further movement is possible,
    /// advances to the next frame instead (cell navigation overflows into
    /// frame navigation). `None` when neither movement is possible.
    pub fn add_position_draw(&mut self, position: usize) -> (r: Option<()>)
        requires
            old(self).wf(),
        ensures
            final(self).wf(),
            add_position_draw_rel(*old(self), *final(self), position),
            r == if add_position_draw_ok(*old(self), position) {
                Some(())
            } else {
                Option::<()>::None
            },
    {
        let pos = self.sheet.position();
        if pos < self.sheet.get_ref().len() {
            let moved = {
                let d = &mut self.sheet.inner[pos];
                d.add_position(position)
            };
            proof {
                if old(self).draws()[pos as int].cursor() + position <= SPEC_MAX_PRE_XY {
                    assert(self.draws() =~= old(self).draws().update(
                        pos as int,
                        Draw {
                            board: Cursor {
                                pos: (old(self).draws()[pos as int].cursor() + position) as usize,
                                inner: old(self).draws()[pos as int].board.inner,
                            },
                            ..old(self).draws()[pos as int]
                        },
                    ));
                } else {
                    assert(self.draws() =~= old(self).draws());
                }
            }
            match moved {
                Some(u) => Some(u),
                None => self.add_position(1),
            }
        } else {
            self.add_position(1)
        }
    }

    /// Moves the cell cursor of the pointed frame backward by `position`
    /// cells; when the frame reports that no further movement is possible,
    /// retreats to the previous frame instead, wrapping to the last frame
    /// from frame `0`. `None` only on a sprite without frames.
    pub fn sub_position_draw(&mut self, position: usize) -> (r: Option<()>)
        requires
            old(self).wf(),
        ensures
            final(self).wf(),
            sub_position_draw_rel(*old(self), *final(self), position),
            r == if sub_position_draw_ok(*old(self)) {
                Some(())
            } else {
                Option::<()>::None
            },
    {
        let pos = self.sheet.position();
        if pos < self.sheet.get_ref().len() {
            let moved = {
                let d = &mut self.sheet.inner[pos];
                d.sub_position(position)
            };
            proof {
                if position <= old(self).draws()[pos as int].cursor() {
                    assert(self.draws() =~= old(self).draws().update(
                        pos as int,
                        Draw {
                            board: Cursor {
                                pos: (old(self).draws()[pos as int].cursor() - position) as usize,
                                inner: old(self).draws()[pos as int].board.inner,
                            },
                            ..old(self).draws()[pos as int]
                        },
                    ));
                } else {
                    assert(self.draws() =~= old(self).draws());
                }
            }
            match moved {
                Some(u) => Some(u),
                None => self.sub_position(1),
            }
        } else {
            self.sub_position(1)
        }
    }

    /// Rewrites the whole sprite from a change table: for each frame, each
    /// requested `(part, emotion)` pair of its row that is registered in
    /// the local dictionary pushes its emotion and its registered variants
    /// into the cells of its part (see `explicite_rel`).
    #[verifier::loop_isolation(false)]
    pub fn explicite_emotion(&mut self, change: &[[Tuple; SPEC_MAX_XY]; SPEC_MAX_DRAW])
        requires
            old(self).wf(),
        ensures
            final(self).wf(),
            explicite_rel(*old(self), *final(self), change@),
    {
        let ghost dict = entries_view(self.texel@);
        let len = self.sheet.get_ref().len();
        let mut i: usize = 0;
        while i < len
            invariant
                i <= len,
                len == self.sheet.inner@.len(),
                self.texel == old(self).texel,
                self.sheet.pos == old(self).sheet.pos,
                dict == entries_view(self.texel@),
                forall|ii: int|
                    i <= ii < len ==> #[trigger] self.sheet.inner@[ii] == old(
                        self,
                    ).sheet.inner@[ii],
                forall|ii: int|
                    0 <= ii < i ==> {
                        &&& (#[trigger] self.sheet.inner@[ii]).posture == old(
                            self,
                        ).sheet.inner@[ii].posture
                        &&& self.sheet.inner@[ii].duration == old(self).sheet.inner@[ii].duration
                        &&& self.sheet.inner@[ii].board.pos == old(
                            self,
                        ).sheet.inner@[ii].board.pos
                        &&& self.sheet.inner@[ii].cells() == apply_tuples(
                            old(self).sheet.inner@[ii].cells(),
                            dict,
                            change@[ii]@,
                            SPEC_MAX_XY as int,
                        )
                    },
                forall|ii: int| 0 <= ii < len ==> (#[trigger] self.sheet.inner@[ii]).wf(),
            decreases len - i,
        {
            let ghost draw0 = self.sheet.inner@[i as int];
            let ghost row = change@[i as int]@;
            let mut ti: usize = 0;
            while ti < SPEC_MAX_XY
                invariant
                    ti <= SPEC_MAX_XY,
                    i < len,
                    len == self.sheet.inner@.len(),
                    self.texel == old(self).texel,
                    self.sheet.pos == old(self).sheet.pos,
                    dict == entries_view(self.texel@),
                    row == change@[i as int]@,
                    forall|ii: int|
                        i < ii < len ==> #[trigger] self.sheet.inner@[ii] == old(
                            self,
                        ).sheet.inner@[ii],
                    forall|ii: int|
                        0 <= ii < i ==> {
                            &&& (#[trigger] self.sheet.inner@[ii]).posture == old(
                                self,
                            ).sheet.inner@[ii].posture
                            &&& self.sheet.inner@[ii].duration == old(
                                self,
                            ).sheet.inner@[ii].duration
                            &&& self.sheet.inner@[ii].board.pos == old(
                                self,
                            ).sheet.inner@[ii].board.pos
                            &&& self.sheet.inner@[ii].cells() == apply_tuples(
                                old(self).sheet.inner@[ii].cells(),
                                dict,
                                change@[ii]@,
                                SPEC_MAX_XY as int,
                            )
                        },
                    self.sheet.inner@[i as int].posture == draw0.posture,
                    self.sheet.inner@[i as int].duration == draw0.duration,
                    self.sheet.inner@[i as int].board.pos == draw0.board.pos,
                    self.sheet.inner@[i as int].cells() == apply_tuples(
                        draw0.cells(),
                        dict,
                        row,
                        ti as int,
                    ),
                    forall|ii: int| 0 <= ii < len ==> (#[trigger] self.sheet.inner@[ii]).wf(),
                decreases SPEC_MAX_XY - ti,
            {
                let t: Tuple = change[i][ti];
                proof {
                    assert(t == row[ti as int]);
                    crate::catalog::lemma_entries_view_contains(self.texel@, t);
                }
                match crate::catalog::find_entry(&self.texel, &t) {
                    Some(e) => {
                        proof {
                            crate::catalog::lemma_entries_view_index(self.texel@, e as int);
                        }
                        let texels = copy_texels(&self.texel[e].texels);
                        let emotion = t.emotion;
                        let ghost cells0 = apply_tuples(draw0.cells(), dict, row, ti as int);
                        let mut k: usize = 0;
                        while k < texels.len()
                            invariant
                                k <= texels@.len(),
                                i < len,
                                len == self.sheet.inner@.len(),
                                self.texel == old(self).texel,
                                self.sheet.pos == old(self).sheet.pos,
                                dict == entries_view(self.texel@),
                                dict.contains_key(t),
                                texels@ == dict[t],
                                emotion == t.emotion,
                                forall|ii: int|
                                    i < ii < len ==> #[trigger] self.sheet.inner@[ii] == old(
                                        self,
                                    ).sheet.inner@[ii],
                                forall|ii: int|
                                    0 <= ii < i ==> {
                                        &&& (#[trigger] self.sheet.inner@[ii]).posture == old(
                                            self,
                                        ).sheet.inner@[ii].posture
                                        &&& self.sheet.inner@[ii].duration == old(
                                            self,
                                        ).sheet.inner@[ii].duration
                                        &&& self.sheet.inner@[ii].board.pos == old(
                                            self,
                                        ).sheet.inner@[ii].board.pos
                                        &&& self.sheet.inner@[ii].cells() == apply_tuples(
                                            old(self).sheet.inner@[ii].cells(),
                                            dict,
                                            change@[ii]@,
                                            SPEC_MAX_XY as int,
                                        )
                                    },
                                self.sheet.inner@[i as int].posture == draw0.posture,
                                self.sheet.inner@[i as int].duration == draw0.duration,
                                self.sheet.inner@[i as int].board.pos == draw0.board.pos,
                                self.sheet.inner@[i as int].cells() == apply_texels(
                                    cells0,
                                    emotion,
                                    texels@,
                                    k as int,
                                ),
                                forall|ii: int|
                                    0 <= ii < len ==> (#[trigger] self.sheet.inner@[ii]).wf(),
                            decreases texels@.len() - k,
                        {
                            let tex: Texel = texels[k];
                            let d = &mut self.sheet.inner[i];
                            d.set_cell_at(k, &tex, &emotion);
                            k = k + 1;
                        }
                        proof {
                            assert(self.sheet.inner@[i as int].cells() == apply_tuples(
                                draw0.cells(),
                                dict,
                                row,
                                ti + 1 as int,
                            ));
                        }
                    },
                    None => {},
                }
                ti = ti + 1;
            }
            i = i + 1;
        }
    }

    /// Resolves each requested `(part, emotion)` pair against the local
    /// dictionary (see `resolve_cells`) and appends the resulting frame.
    /// A request that does not resolve to a full grid, and a sprite already
    /// holding `SPEC_MAX_DRAW` frames, leave the sprite unchanged: this is
    /// the lenient, best-effort mode; the registry's loader checks
    /// resolvability beforehand and reports the strict errors.
    pub fn insert_list(&mut self, duration: i64, posture: &Posture, source: &[Tuple])
        requires
            old(self).wf(),
        ensures
            final(self).wf(),
            final(self).texel == old(self).texel,
            final(self).cursor() == old(self).cursor(),
            ({
                let cells = resolve_cells(old(self).dict(), source@);
                if cells.len() == SPEC_MAX_XY && old(self).count() < SPEC_MAX_DRAW {
                    final(self).draws() == old(self).draws().push(
                        Draw {
                            posture: *posture,
                            duration,
                            board: Cursor { pos: 0, inner: final(self).draws().last().board.inner },
                        },
                    ) && final(self).draws().last().cells() == cells
                } else {
                    final(self).draws() == old(self).draws()
                }
            }),
    {
        let ghost dict = self.dict();
        let mut cells: Vec<Cell> = Vec::new();
        let mut i: usize = 0;
        while i < source.len()
            invariant
                i <= source@.len(),
                cells@ == resolve_cells(dict, source@.subrange(0, i as int)),
                dict == entries_view(self.texel@),
                entries_unique(self.texel@),
            decreases source@.len() - i,
        {
            let t: Tuple = source[i];
            proof {
                assert(source@.subrange(0, i + 1 as int).drop_last() =~= source@.subrange(
                    0,
                    i as int,
                ));
                assert(source@.subrange(0, i + 1 as int).last() == t);
                crate::catalog::lemma_entries_view_contains(self.texel@, t);
            }
            match crate::catalog::find_entry(&self.texel, &t) {
                Some(j) => {
                    proof {
                        crate::catalog::lemma_entries_view_index(self.texel@, j as int);
                    }
                    let texels = &self.texel[j].texels;
                    if texels.len() > 0 {
                        let occ = count_cells_part(&cells, &t.part);
                        let pick = occ % texels.len();
                        cells.push((t.emotion, texels[pick]));
                    }
                },
                None => {},
            }
            i = i + 1;
        }
        assert(source@.subrange(0, source@.len() as int) =~= source@);
        if cells.len() == SPEC_MAX_XY && self.sheet.get_ref().len() < SPEC_MAX_DRAW {
            match Draw::new(posture, duration, cells.as_slice()) {
                Ok(draw) => {
                    self.sheet.get_mut().push(draw);
                },
                Err(_) => {
                    proof {
                        assert(false);
                    }
                },
            }
        }
    }

    /// Merges an external dictionary slice into the local dictionary,
    /// entry by entry, the argument winning on a shared key.
    pub fn extend(&mut self, texels: &Vec<TexelEntry>)
        requires
            old(self).wf(),
        ensures
            final(self).wf(),
            final(self).sheet == old(self).sheet,
            final(self).dict() == old(self).dict().union_prefer_right(entries_view(texels@)),
    {
        let ghost orig = entries_view(self.texel@);
        let mut i: usize = 0;
        proof {
            assert(entries_view(texels@.subrange(0, 0)) =~= Map::<Tuple, Seq<Texel>>::empty());
            assert(orig.union_prefer_right(entries_view(texels@.subrange(0, 0))) =~= orig);
        }
        while i < texels.len()
            invariant
                i <= texels@.len(),
                entries_unique(self.texel@),
                self.sheet == old(self).sheet,
                entries_view(self.texel@) == orig.union_prefer_right(
                    entries_view(texels@.subrange(0, i as int)),
                ),
            decreases texels@.len() - i,
        {
            let key: Tuple = texels[i].key;
            let list: Vec<Texel> = copy_texels(&texels[i].texels);
            set_texels(&mut self.texel, key, list);
            proof {
                assert(texels@.subrange(0, i + 1 as int).drop_last() =~= texels@.subrange(
                    0,
                    i as int,
                ));
                assert(texels@.subrange(0, i + 1 as int).last() == texels@[i as int]);
                assert(entries_view(texels@.subrange(0, i + 1 as int)) =~= entries_view(
                    texels@.subrange(0, i as int),
                ).insert(key, texels@[i as int].texels@));
                assert(orig.union_prefer_right(entries_view(texels@.subrange(0, i + 1 as int)))
                    =~= orig.union_prefer_right(
                    entries_view(texels@.subrange(0, i as int)),
                ).insert(key, texels@[i as int].texels@));
            }
            i = i + 1;
        }
        assert(texels@.subrange(0, texels@.len() as int) =~= texels@);
    }
}

impl Default for Sprite {
    /// A sprite with no frames, an empty dictionary, and the cursor at `0`.
    fn default() -> (r: Sprite)
        ensures
            r.wf(),
            r.draws() == Seq::<Draw>::empty(),
            r.cursor() == 0,
            r.dict() == Map::<Tuple, Seq<Texel>>::empty(),
    {
        let r = Sprite { texel: Vec::new(), sheet: Cursor::new(Vec::new()) };
        proof {
            assert(r.dict() =~= Map::<Tuple, Seq<Texel>>::empty());
            assert(r.draws() =~= Seq::<Draw>::empty());
        }
        r
    }
}

} // verus!
