//! The graphic registry: the per-posture texel catalog and the ordered,
//! cursor-addressed collection of loaded sprites, with the cross-cutting
//! navigation (select sprite, select frame, select cell, cycle the emotion
//! at the pointed cell) and the loaders for the two text formats.

use vstd::prelude::*;

use crate::catalog::{
    PostureEntry, TexelEntry, catalog_unique, catalog_view, entries_unique, entries_view,
    find_entry, find_posture, lemma_catalog_view_contains, lemma_catalog_view_index,
    lemma_catalog_view_push, lemma_catalog_view_update, lemma_entries_view_contains,
    lemma_entries_view_index,
};
use crate::cursor::Cursor;
use crate::draw::SPEC_MAX_XY;
use crate::emotion::{Emotion, EmotionError, emotion_from_name};
use crate::err::GraphicError;
use crate::part::{Part, PartError, part_from_name};
use crate::posture::{Posture, PostureError, posture_from_name};
use crate::sheet::{Sheet, SheetError, sheet_from_name};
use crate::sprite::{
    SPEC_MAX_DRAW, Sprite, add_position_draw_rel, add_position_rel, lemma_resolve_cells_full,
    pair_resolves, resolve_cells, set_current_rel, sub_position_draw_rel, sub_position_rel,
};
use crate::text::{
    SepMode, find_first_char, parse_i64, parse_i64_spec, str_char_at, str_has_char, tokenize,
    tokens,
};
use crate::texel::{Texel, TexelError, copy_texels, glyph_allowed};
use crate::tuple::Tuple;
use vstd::string::StringExecFns;

verus! {

/// `i` is the first position of the registry holding the sheet `name`.
pub open spec fn sheet_at(s: Seq<(Sheet, Sprite)>, name: Sheet, i: int) -> bool {
    &&& 0 <= i < s.len()
    &&& s[i].0 == name
    &&& forall|j: int| 0 <= j < i ==> s[j].0 != name
}

/// Some sprite of the registry carries the sheet `name`.
pub open spec fn has_sheet(s: Seq<(Sheet, Sprite)>, name: Sheet) -> bool {
    exists|i: int| sheet_at(s, name, i)
}

/// Some catalog entry carries the posture.
pub open spec fn has_posture(cat: Seq<PostureEntry>, posture: Posture) -> bool {
    exists|i: int| 0 <= i < cat.len() && cat[i].posture == posture
}

/// The position of the catalog entry of `posture`; meaningful under
/// `has_posture` and unique postures.
pub open spec fn posture_index(cat: Seq<PostureEntry>, posture: Posture) -> int {
    choose|i: int| 0 <= i < cat.len() && cat[i].posture == posture
}

/// The emotions registered for `part`, in catalog order: one per dictionary
/// entry whose key carries that part.
pub open spec fn emotions_for_part(entries: Seq<TexelEntry>, part: Part) -> Seq<Emotion>
    decreases entries.len(),
{
    if entries.len() == 0 {
        Seq::empty()
    } else {
        let rest = emotions_for_part(entries.drop_last(), part);
        if entries.last().key.part == part {
            rest.push(entries.last().key.emotion)
        } else {
            rest
        }
    }
}

/// The `(emotion, variants)` pairs registered for `part`, in catalog order.
pub open spec fn cells_for_part(entries: Seq<TexelEntry>, part: Part) -> Seq<
    (Emotion, Seq<Texel>),
>
    decreases entries.len(),
{
    if entries.len() == 0 {
        Seq::empty()
    } else {
        let rest = cells_for_part(entries.drop_last(), part);
        if entries.last().key.part == part {
            rest.push((entries.last().key.emotion, entries.last().texels@))
        } else {
            rest
        }
    }
}

/// The first position of `c` in `s`; meaningful under `str_has_char`.
pub open spec fn first_char_idx(s: Seq<char>, c: char) -> int {
    choose|i: int| str_char_at(s, c, i)
}

/// The two token groups of a catalog line: the part-and-glyphs tokens left
/// of the first colon and the emotion-and-postures tokens from it on.
/// `None` when the line has no colon or either group is empty: the syntax
/// error.
pub open spec fn line_groups(line: Seq<char>) -> Option<(Seq<Seq<char>>, Seq<Seq<char>>)> {
    if !str_has_char(line, ':') {
        None
    } else {
        let ci = first_char_idx(line, ':');
        let lt = tokens(line.take(ci), SepMode::Glyphs);
        let rt = tokens(line.skip(ci), SepMode::Names);
        if lt.len() == 0 || rt.len() == 0 {
            None
        } else {
            Some((lt, rt))
        }
    }
}

/// The characters of `ts`, concatenated in order.
pub open spec fn concat_tokens(ts: Seq<Seq<char>>) -> Seq<char>
    decreases ts.len(),
{
    if ts.len() == 0 {
        Seq::empty()
    } else {
        concat_tokens(ts.drop_last()) + ts.last()
    }
}

/// Every glyph of the line lies in the allowed block.
pub open spec fn all_glyphs_ok(glyphs: Seq<char>) -> bool {
    forall|j: int| 0 <= j < glyphs.len() ==> glyph_allowed(#[trigger] glyphs[j])
}

/// `j` is the first position of a forbidden glyph.
pub open spec fn bad_glyph_at(glyphs: Seq<char>, j: int) -> bool {
    &&& 0 <= j < glyphs.len()
    &&& !glyph_allowed(glyphs[j])
    &&& forall|k: int| 0 <= k < j ==> glyph_allowed(#[trigger] glyphs[k])
}

/// Every posture token of the line is a posture name.
pub open spec fn all_postures_ok(postures: Seq<Seq<char>>) -> bool {
    forall|i: int| 0 <= i < postures.len() ==> posture_from_name(#[trigger] postures[i]) is Some
}

/// `i` is the first position of an unknown posture name.
pub open spec fn bad_posture_at(postures: Seq<Seq<char>>, i: int) -> bool {
    &&& 0 <= i < postures.len()
    &&& posture_from_name(postures[i]) is None
    &&& forall|k: int| 0 <= k < i ==> posture_from_name(#[trigger] postures[k]) is Some
}

/// The posture a name denotes; meaningful on names the table holds.
pub open spec fn posture_val(s: Seq<char>) -> Posture {
    match posture_from_name(s) {
        Some(p) => p,
        None => Posture::Empty,
    }
}

/// The part a name denotes; meaningful on names the table holds.
pub open spec fn part_val(s: Seq<char>) -> Part {
    match part_from_name(s) {
        Some(p) => p,
        None => Part::Empty,
    }
}

/// The emotion a name denotes; meaningful on names the table holds.
pub open spec fn emotion_val(s: Seq<char>) -> Emotion {
    match emotion_from_name(s) {
        Some(e) => e,
        None => Emotion::Empty,
    }
}

/// One texel registered under `(p, key)`: the catalog map after
/// `insert_texel`.
pub open spec fn cat_insert(
    m: Map<Posture, Map<Tuple, Seq<Texel>>>,
    p: Posture,
    key: Tuple,
    t: Texel,
) -> Map<Posture, Map<Tuple, Seq<Texel>>> {
    m.insert(
        p,
        if m.contains_key(p) {
            m[p].insert(
                key,
                if m[p].contains_key(key) {
                    m[p][key].push(t)
                } else {
                    seq![t]
                },
            )
        } else {
            Map::<Tuple, Seq<Texel>>::empty().insert(key, seq![t])
        },
    )
}

/// Each glyph registered in turn under `(p, key)`, as a fresh texel of
/// `part`.
pub open spec fn cat_insert_glyphs(
    m: Map<Posture, Map<Tuple, Seq<Texel>>>,
    p: Posture,
    key: Tuple,
    part: Part,
    glyphs: Seq<char>,
) -> Map<Posture, Map<Tuple, Seq<Texel>>>
    decreases glyphs.len(),
{
    if glyphs.len() == 0 {
        m
    } else {
        cat_insert(
            cat_insert_glyphs(m, p, key, part, glyphs.drop_last()),
            p,
            key,
            Texel { part, index: 0, glyph: glyphs.last() },
        )
    }
}

/// The line's glyphs registered under each of the first `upto` postures in
/// turn.
pub open spec fn cat_insert_postures(
    m: Map<Posture, Map<Tuple, Seq<Texel>>>,
    postures: Seq<Seq<char>>,
    upto: int,
    key: Tuple,
    part: Part,
    glyphs: Seq<char>,
) -> Map<Posture, Map<Tuple, Seq<Texel>>>
    decreases upto,
{
    if upto <= 0 {
        m
    } else {
        cat_insert_glyphs(
            cat_insert_postures(m, postures, upto - 1, key, part, glyphs),
            posture_val(postures[upto - 1]),
            key,
            part,
            glyphs,
        )
    }
}

/// A line without glyphs registers nothing, whatever its postures.
pub proof fn lemma_cat_insert_postures_trivial(
    m: Map<Posture, Map<Tuple, Seq<Texel>>>,
    postures: Seq<Seq<char>>,
    upto: int,
    key: Tuple,
    part: Part,
    glyphs: Seq<char>,
)
    requires
        glyphs.len() == 0,
    ensures
        cat_insert_postures(m, postures, upto, key, part, glyphs) == m,
    decreases upto,
{
    if upto > 0 {
        lemma_cat_insert_postures_trivial(m, postures, upto - 1, key, part, glyphs);
    }
}

/// The catalog line is rejected: it has no colon, a group is empty, or —
/// when it names at least one posture and one glyph — some name or glyph
/// is not accepted.
pub open spec fn line_fails(line: Seq<char>) -> bool {
    match line_groups(line) {
        None => true,
        Some(g) => {
            let glyphs = concat_tokens(g.0.skip(1));
            let postures = g.1.skip(1);
            postures.len() > 0 && glyphs.len() > 0 && (part_from_name(g.0[0]) is None
                || emotion_from_name(g.1[0]) is None || !all_glyphs_ok(glyphs) || !all_postures_ok(
                postures,
            ))
        },
    }
}

/// The typed error a rejected catalog line produces, with its payload: the
/// checks run in the order posture of the first pair, glyph of the first
/// pair, part, emotion, remaining glyphs, remaining postures.
pub open spec fn err_matches_line(e: GraphicError, line: Seq<char>) -> bool {
    match line_groups(line) {
        None => e matches GraphicError::SyntaxTexel(s) && s@ == line,
        Some(g) => {
            let glyphs = concat_tokens(g.0.skip(1));
            let postures = g.1.skip(1);
            &&& postures.len() > 0
            &&& glyphs.len() > 0
            &&& if posture_from_name(postures[0]) is None {
                e matches GraphicError::Posture(PostureError::UnknownPosture(s)) && s@
                    == postures[0]
            } else if !glyph_allowed(glyphs[0]) {
                e matches GraphicError::Texel(TexelError::ForbiddenGlyph(c)) && c == glyphs[0]
            } else if part_from_name(g.0[0]) is None {
                e matches GraphicError::Texel(TexelError::PartFail(PartError::UnknownPart(s)))
                    && s@ == g.0[0]
            } else if emotion_from_name(g.1[0]) is None {
                e matches GraphicError::Emotion(EmotionError::UnknownEmotion(s)) && s@ == g.1[0]
            } else if !all_glyphs_ok(glyphs) {
                e matches GraphicError::Texel(TexelError::ForbiddenGlyph(c)) && exists|j: int|
                    #[trigger] bad_glyph_at(glyphs, j) && c == glyphs[j]
            } else if !all_postures_ok(postures) {
                e matches GraphicError::Posture(PostureError::UnknownPosture(s)) && exists|i: int|
                    #[trigger] bad_posture_at(postures, i) && s@ == postures[i]
            } else {
                false
            }
        },
    }
}

/// The catalog after an accepted line: its glyphs registered, as texels of
/// its part, under each named posture with the `(part, emotion)` key. A
/// line without postures or without glyphs registers nothing.
pub open spec fn line_catalog(
    m: Map<Posture, Map<Tuple, Seq<Texel>>>,
    line: Seq<char>,
) -> Map<Posture, Map<Tuple, Seq<Texel>>> {
    match line_groups(line) {
        None => m,
        Some(g) => {
            let glyphs = concat_tokens(g.0.skip(1));
            let postures = g.1.skip(1);
            cat_insert_postures(
                m,
                postures,
                postures.len() as int,
                Tuple { part: part_val(g.0[0]), emotion: emotion_val(g.1[0]) },
                part_val(g.0[0]),
                glyphs,
            )
        },
    }
}

/// The catalog after the first `upto` lines of a catalog file.
pub open spec fn load_lines(
    m: Map<Posture, Map<Tuple, Seq<Texel>>>,
    lines: Seq<Seq<char>>,
    upto: int,
) -> Map<Posture, Map<Tuple, Seq<Texel>>>
    decreases upto,
{
    if upto <= 0 {
        m
    } else {
        line_catalog(load_lines(m, lines, upto - 1), lines[upto - 1])
    }
}

/// `k` is the first rejected line of the file.
pub open spec fn line_fails_at(lines: Seq<Seq<char>>, k: int) -> bool {
    &&& 0 <= k < lines.len()
    &&& line_fails(lines[k])
    &&& forall|j: int| 0 <= j < k ==> !line_fails(#[trigger] lines[j])
}

/// The catalog registers, under `(p, key)`, some texel of `part` that
/// displays `glyph`.
pub open spec fn cat_has_glyph(
    m: Map<Posture, Map<Tuple, Seq<Texel>>>,
    p: Posture,
    key: Tuple,
    part: Part,
    glyph: char,
) -> bool {
    &&& m.contains_key(p)
    &&& m[p].contains_key(key)
    &&& exists|x: int|
        0 <= x < m[p][key].len() && m[p][key][x].glyph == glyph && m[p][key][x].part == part
}

/// One registration never removes a registered glyph.
pub proof fn lemma_cat_insert_preserves(
    m: Map<Posture, Map<Tuple, Seq<Texel>>>,
    p: Posture,
    key: Tuple,
    t: Texel,
    p2: Posture,
    key2: Tuple,
    part2: Part,
    glyph2: char,
)
    requires
        cat_has_glyph(m, p2, key2, part2, glyph2),
    ensures
        cat_has_glyph(cat_insert(m, p, key, t), p2, key2, part2, glyph2),
{
    let x = choose|x: int|
        0 <= x < m[p2][key2].len() && m[p2][key2][x].glyph == glyph2 && m[p2][key2][x].part
            == part2;
    let m2 = cat_insert(m, p, key, t);
    assert(m2.contains_key(p2));
    assert(m2[p2].contains_key(key2));
    assert(0 <= x < m2[p2][key2].len() && m2[p2][key2][x].glyph == glyph2 && m2[p2][key2][x].part
        == part2);
}

/// One registration makes its own glyph retrievable.
pub proof fn lemma_cat_insert_adds(
    m: Map<Posture, Map<Tuple, Seq<Texel>>>,
    p: Posture,
    key: Tuple,
    t: Texel,
)
    ensures
        cat_has_glyph(cat_insert(m, p, key, t), p, key, t.part, t.glyph),
{
    let m2 = cat_insert(m, p, key, t);
    assert(m2[p][key].last() == t);
    assert(m2[p][key][m2[p][key].len() - 1] == t);
}

/// Registering a run of glyphs never removes a registered glyph.
pub proof fn lemma_cat_insert_glyphs_preserves(
    m: Map<Posture, Map<Tuple, Seq<Texel>>>,
    p: Posture,
    key: Tuple,
    part: Part,
    glyphs: Seq<char>,
    p2: Posture,
    key2: Tuple,
    part2: Part,
    glyph2: char,
)
    requires
        cat_has_glyph(m, p2, key2, part2, glyph2),
    ensures
        cat_has_glyph(cat_insert_glyphs(m, p, key, part, glyphs), p2, key2, part2, glyph2),
    decreases glyphs.len(),
{
    if glyphs.len() > 0 {
        lemma_cat_insert_glyphs_preserves(
            m,
            p,
            key,
            part,
            glyphs.drop_last(),
            p2,
            key2,
            part2,
            glyph2,
        );
        lemma_cat_insert_preserves(
            cat_insert_glyphs(m, p, key, part, glyphs.drop_last()),
            p,
            key,
            Texel { part, index: 0, glyph: glyphs.last() },
            p2,
            key2,
            part2,
            glyph2,
        );
    }
}

/// Registering a run of glyphs makes each of them retrievable.
pub proof fn lemma_cat_insert_glyphs_adds(
    m: Map<Posture, Map<Tuple, Seq<Texel>>>,
    p: Posture,
    key: Tuple,
    part: Part,
    glyphs: Seq<char>,
    gi: int,
)
    requires
        0 <= gi < glyphs.len(),
    ensures
        cat_has_glyph(cat_insert_glyphs(m, p, key, part, glyphs), p, key, part, glyphs[gi]),
    decreases glyphs.len(),
{
    if gi == glyphs.len() - 1 {
        lemma_cat_insert_adds(
            cat_insert_glyphs(m, p, key, part, glyphs.drop_last()),
            p,
            key,
            Texel { part, index: 0, glyph: glyphs.last() },
        );
    } else {
        lemma_cat_insert_glyphs_adds(m, p, key, part, glyphs.drop_last(), gi);
        lemma_cat_insert_preserves(
            cat_insert_glyphs(m, p, key, part, glyphs.drop_last()),
            p,
            key,
            Texel { part, index: 0, glyph: glyphs.last() },
            p,
            key,
            part,
            glyphs[gi],
        );
    }
}

/// Registering a line's glyphs under a run of postures never removes a
/// registered glyph.
pub proof fn lemma_cat_insert_postures_preserves(
    m: Map<Posture, Map<Tuple, Seq<Texel>>>,
    postures: Seq<Seq<char>>,
    upto: int,
    key: Tuple,
    part: Part,
    glyphs: Seq<char>,
    p2: Posture,
    key2: Tuple,
    part2: Part,
    glyph2: char,
)
    requires
        cat_has_glyph(m, p2, key2, part2, glyph2),
    ensures
        cat_has_glyph(
            cat_insert_postures(m, postures, upto, key, part, glyphs),
            p2,
            key2,
            part2,
            glyph2,
        ),
    decreases upto,
{
    if upto > 0 {
        lemma_cat_insert_postures_preserves(
            m,
            postures,
            upto - 1,
            key,
            part,
            glyphs,
            p2,
            key2,
            part2,
            glyph2,
        );
        lemma_cat_insert_glyphs_preserves(
            cat_insert_postures(m, postures, upto - 1, key, part, glyphs),
            posture_val(postures[upto - 1]),
            key,
            part,
            glyphs,
            p2,
            key2,
            part2,
            glyph2,
        );
    }
}

/// Catalog round-trip, one line: every `(posture, glyph)` combination an
/// accepted catalog line names is afterwards registered under the line's
/// `(part, emotion)` key, as a texel of the line's part displaying exactly
/// that glyph — so `get_texel` returns a list holding it.
pub proof fn lemma_catalog_round_trip(
    m: Map<Posture, Map<Tuple, Seq<Texel>>>,
    line: Seq<char>,
    pi: int,
    gi: int,
)
    requires
        !line_fails(line),
        line_groups(line) is Some,
        0 <= pi < line_groups(line).unwrap().1.skip(1).len(),
        0 <= gi < concat_tokens(line_groups(line).unwrap().0.skip(1)).len(),
    ensures
        ({
            let g = line_groups(line).unwrap();
            let key = Tuple { part: part_val(g.0[0]), emotion: emotion_val(g.1[0]) };
            cat_has_glyph(
                line_catalog(m, line),
                posture_val(g.1.skip(1)[pi]),
                key,
                part_val(g.0[0]),
                concat_tokens(g.0.skip(1))[gi],
            )
        }),
{
    let g = line_groups(line).unwrap();
    let postures = g.1.skip(1);
    let glyphs = concat_tokens(g.0.skip(1));
    let key = Tuple { part: part_val(g.0[0]), emotion: emotion_val(g.1[0]) };
    let part = part_val(g.0[0]);
    lemma_round_trip_postures(m, postures, postures.len() as int, key, part, glyphs, pi, gi);
}

proof fn lemma_round_trip_postures(
    m: Map<Posture, Map<Tuple, Seq<Texel>>>,
    postures: Seq<Seq<char>>,
    upto: int,
    key: Tuple,
    part: Part,
    glyphs: Seq<char>,
    pi: int,
    gi: int,
)
    requires
        0 <= pi < upto <= postures.len(),
        0 <= gi < glyphs.len(),
    ensures
        cat_has_glyph(
            cat_insert_postures(m, postures, upto, key, part, glyphs),
            posture_val(postures[pi]),
            key,
            part,
            glyphs[gi],
        ),
    decreases upto,
{
    if pi == upto - 1 {
        lemma_cat_insert_glyphs_adds(
            cat_insert_postures(m, postures, upto - 1, key, part, glyphs),
            posture_val(postures[upto - 1]),
            key,
            part,
            glyphs,
            gi,
        );
    } else {
        lemma_round_trip_postures(m, postures, upto - 1, key, part, glyphs, pi, gi);
        lemma_cat_insert_glyphs_preserves(
            cat_insert_postures(m, postures, upto - 1, key, part, glyphs),
            posture_val(postures[upto - 1]),
            key,
            part,
            glyphs,
            posture_val(postures[pi]),
            key,
            part,
            glyphs[gi],
        );
    }
}

/// Loading a line never removes a registered glyph.
pub proof fn lemma_line_catalog_preserves(
    m: Map<Posture, Map<Tuple, Seq<Texel>>>,
    line: Seq<char>,
    p2: Posture,
    key2: Tuple,
    part2: Part,
    glyph2: char,
)
    requires
        cat_has_glyph(m, p2, key2, part2, glyph2),
    ensures
        cat_has_glyph(line_catalog(m, line), p2, key2, part2, glyph2),
{
    match line_groups(line) {
        None => {},
        Some(g) => {
            lemma_cat_insert_postures_preserves(
                m,
                g.1.skip(1),
                g.1.skip(1).len() as int,
                Tuple { part: part_val(g.0[0]), emotion: emotion_val(g.1[0]) },
                part_val(g.0[0]),
                concat_tokens(g.0.skip(1)),
                p2,
                key2,
                part2,
                glyph2,
            );
        },
    }
}

/// Catalog round-trip, whole file: every `(posture, glyph)` combination
/// named by any line of a fully accepted catalog file is registered in the
/// loaded catalog, under that line's `(part, emotion)` key, as a texel of
/// that line's part displaying exactly that glyph.
pub proof fn lemma_catalog_round_trip_file(
    m: Map<Posture, Map<Tuple, Seq<Texel>>>,
    lines: Seq<Seq<char>>,
    upto: int,
    k: int,
    pi: int,
    gi: int,
)
    requires
        0 <= k < upto <= lines.len(),
        !line_fails(lines[k]),
        line_groups(lines[k]) is Some,
        0 <= pi < line_groups(lines[k]).unwrap().1.skip(1).len(),
        0 <= gi < concat_tokens(line_groups(lines[k]).unwrap().0.skip(1)).len(),
    ensures
        ({
            let g = line_groups(lines[k]).unwrap();
            let key = Tuple { part: part_val(g.0[0]), emotion: emotion_val(g.1[0]) };
            cat_has_glyph(
                load_lines(m, lines, upto),
                posture_val(g.1.skip(1)[pi]),
                key,
                part_val(g.0[0]),
                concat_tokens(g.0.skip(1))[gi],
            )
        }),
    decreases upto,
{
    let g = line_groups(lines[k]).unwrap();
    let key = Tuple { part: part_val(g.0[0]), emotion: emotion_val(g.1[0]) };
    if k == upto - 1 {
        lemma_catalog_round_trip(load_lines(m, lines, upto - 1), lines[k], pi, gi);
    } else {
        lemma_catalog_round_trip_file(m, lines, upto - 1, k, pi, gi);
        lemma_line_catalog_preserves(
            load_lines(m, lines, upto - 1),
            lines[upto - 1],
            posture_val(g.1.skip(1)[pi]),
            key,
            part_val(g.0[0]),
            concat_tokens(g.0.skip(1))[gi],
        );
    }
}

/// The sheet a name denotes; meaningful on names the table holds.
pub open spec fn sheet_val(s: Seq<char>) -> Sheet {
    match sheet_from_name(s) {
        Some(sh) => sh,
        None => Sheet::Empty,
    }
}

/// Tokens per frame chunk of a sprite file: a duration and `SPEC_MAX_XY`
/// `Part:Emotion` pairs.
pub open spec fn chunk_len() -> int {
    2 * SPEC_MAX_XY + 1
}

/// The first token of frame `f`: the posture token, then whole chunks.
pub open spec fn frame_base(f: int) -> int {
    1 + f * chunk_len()
}

/// The duration token of frame `f`.
pub open spec fn frame_duration_tok(toks: Seq<Seq<char>>, f: int) -> Seq<char> {
    toks[frame_base(f)]
}

/// The part token of pair `j` of frame `f`.
pub open spec fn frame_part_tok(toks: Seq<Seq<char>>, f: int, j: int) -> Seq<char> {
    toks[frame_base(f) + 1 + 2 * j]
}

/// The emotion token of pair `j` of frame `f`.
pub open spec fn frame_emotion_tok(toks: Seq<Seq<char>>, f: int, j: int) -> Seq<char> {
    toks[frame_base(f) + 1 + 2 * j + 1]
}

/// The duration of frame `f`; meaningful when its token parses.
pub open spec fn frame_duration(toks: Seq<Seq<char>>, f: int) -> int {
    match parse_i64_spec(frame_duration_tok(toks, f)) {
        Some(v) => v,
        None => 0,
    }
}

/// The `(part, emotion)` requests of frame `f`; meaningful under
/// `frame_names_ok`.
pub open spec fn frame_tuples(toks: Seq<Seq<char>>, f: int) -> Seq<Tuple> {
    Seq::new(
        SPEC_MAX_XY as nat,
        |j: int|
            Tuple {
                part: part_val(frame_part_tok(toks, f, j)),
                emotion: emotion_val(frame_emotion_tok(toks, f, j)),
            },
    )
}

/// Both names of pair `j` of frame `f` are in their tables.
pub open spec fn pair_names_ok(toks: Seq<Seq<char>>, f: int, j: int) -> bool {
    part_from_name(frame_part_tok(toks, f, j)) is Some && emotion_from_name(
        frame_emotion_tok(toks, f, j),
    ) is Some
}

/// `j` is the first pair of frame `f` with a rejected name.
pub open spec fn pair_bad_name_at(toks: Seq<Seq<char>>, f: int, j: int) -> bool {
    &&& 0 <= j < SPEC_MAX_XY
    &&& !pair_names_ok(toks, f, j)
    &&& forall|k: int| 0 <= k < j ==> pair_names_ok(toks, f, k)
}

/// Every pair of frame `f` names a part and an emotion.
pub open spec fn frame_names_ok(toks: Seq<Seq<char>>, f: int) -> bool {
    forall|j: int| 0 <= j < SPEC_MAX_XY ==> pair_names_ok(toks, f, j)
}

/// `j` is the first pair of frame `f` the dictionary cannot serve.
pub open spec fn frame_unresolved_at(
    dict: Map<Tuple, Seq<Texel>>,
    toks: Seq<Seq<char>>,
    f: int,
    j: int,
) -> bool {
    &&& 0 <= j < SPEC_MAX_XY
    &&& !pair_resolves(dict, frame_tuples(toks, f)[j])
    &&& forall|k: int| 0 <= k < j ==> pair_resolves(dict, frame_tuples(toks, f)[k])
}

/// Frame `f` is accepted: its duration parses, every pair names a part and
/// an emotion, and every request resolves against the dictionary.
pub open spec fn frame_ok(dict: Map<Tuple, Seq<Texel>>, toks: Seq<Seq<char>>, f: int) -> bool {
    &&& parse_i64_spec(frame_duration_tok(toks, f)) is Some
    &&& frame_names_ok(toks, f)
    &&& forall|j: int| 0 <= j < SPEC_MAX_XY ==> pair_resolves(dict, frame_tuples(toks, f)[j])
}

/// The first `upto` frames are accepted.
pub open spec fn frames_ok_upto(
    dict: Map<Tuple, Seq<Texel>>,
    toks: Seq<Seq<char>>,
    upto: int,
) -> bool {
    forall|f: int| 0 <= f < upto ==> frame_ok(dict, toks, f)
}

/// `f` is the first rejected frame of the file.
pub open spec fn frame_bad_at(
    dict: Map<Tuple, Seq<Texel>>,
    toks: Seq<Seq<char>>,
    n: int,
    f: int,
) -> bool {
    &&& 0 <= f < n
    &&& !frame_ok(dict, toks, f)
    &&& forall|g: int| 0 <= g < f ==> frame_ok(dict, toks, g)
}

/// The dictionary a sprite file is resolved against: the catalog entry of
/// its posture token, or the empty dictionary when the posture has none.
pub open spec fn sprite_file_dict(
    cat: Map<Posture, Map<Tuple, Seq<Texel>>>,
    content: Seq<char>,
) -> Map<Tuple, Seq<Texel>> {
    let toks = tokens(content, SepMode::Sprite);
    if toks.len() == 0 {
        Map::empty()
    } else {
        let p = posture_val(toks[0]);
        if cat.contains_key(p) {
            cat[p]
        } else {
            Map::<Tuple, Seq<Texel>>::empty()
        }
    }
}

/// The number of frame chunks of a sprite file.
pub open spec fn sprite_file_frames(content: Seq<char>) -> int {
    let toks = tokens(content, SepMode::Sprite);
    if toks.len() == 0 {
        0
    } else {
        (toks.len() - 1) / chunk_len()
    }
}

/// The sprite file is accepted under the catalog: the base name is a sheet
/// name and either the file is empty, or its first token is a posture
/// name, its remaining tokens split into whole frame chunks, and every
/// frame is accepted.
pub open spec fn sprite_file_ok(
    cat: Map<Posture, Map<Tuple, Seq<Texel>>>,
    name: Seq<char>,
    content: Seq<char>,
) -> bool {
    let toks = tokens(content, SepMode::Sprite);
    &&& sheet_from_name(name) is Some
    &&& (toks.len() == 0 || {
        &&& posture_from_name(toks[0]) is Some
        &&& (toks.len() - 1) % chunk_len() == 0
        &&& frames_ok_upto(sprite_file_dict(cat, content), toks, sprite_file_frames(content))
    })
}

/// The typed error the first rejected frame produces: an unparsable
/// duration, then the first rejected name (part before emotion), then the
/// first request without a registered texel.
pub open spec fn frame_err(
    e: GraphicError,
    dict: Map<Tuple, Seq<Texel>>,
    toks: Seq<Seq<char>>,
    f: int,
) -> bool {
    if parse_i64_spec(frame_duration_tok(toks, f)) is None {
        e matches GraphicError::SpriteSplitFirst(s) && s@ == frame_duration_tok(toks, f)
    } else if !frame_names_ok(toks, f) {
        exists|j: int|
            #[trigger] pair_bad_name_at(toks, f, j) && if part_from_name(
                frame_part_tok(toks, f, j),
            ) is None {
                e matches GraphicError::Part(PartError::UnknownPart(s)) && s@ == frame_part_tok(
                    toks,
                    f,
                    j,
                )
            } else {
                e matches GraphicError::Emotion(EmotionError::UnknownEmotion(s)) && s@
                    == frame_emotion_tok(toks, f, j)
            }
    } else {
        exists|j: int|
            #[trigger] frame_unresolved_at(dict, toks, f, j) && (e
                matches GraphicError::FoundTexel(s) && s@ == frame_part_tok(toks, f, j) + ":"@
                + frame_emotion_tok(toks, f, j))
    }
}

/// The typed error a rejected sprite file produces, with its payload: the
/// checks run in the order posture token, chunking, frames in order, and
/// the sheet name last.
pub open spec fn err_matches_sprite(
    e: GraphicError,
    cat: Map<Posture, Map<Tuple, Seq<Texel>>>,
    name: Seq<char>,
    content: Seq<char>,
) -> bool {
    let toks = tokens(content, SepMode::Sprite);
    let dict = sprite_file_dict(cat, content);
    let n = sprite_file_frames(content);
    if toks.len() == 0 {
        sheet_from_name(name) is None && (e matches GraphicError::Sheet(
            SheetError::UnknownSheet(s),
        ) && s@ == name)
    } else if posture_from_name(toks[0]) is None {
        e matches GraphicError::Posture(PostureError::UnknownPosture(s)) && s@ == toks[0]
    } else if (toks.len() - 1) % chunk_len() != 0 {
        e matches GraphicError::SpriteSplitFirst(s) && s@ == name
    } else if !frames_ok_upto(dict, toks, n) {
        exists|f: int| #[trigger] frame_bad_at(dict, toks, n, f) && frame_err(e, dict, toks, f)
    } else {
        sheet_from_name(name) is None && (e matches GraphicError::Sheet(
            SheetError::UnknownSheet(s),
        ) && s@ == name)
    }
}

/// The top-level in-memory asset registry: the texel catalog keyed by
/// posture, and the loaded sprites keyed by sheet behind a cursor.
#[derive(Clone, Debug)]
pub struct Graphic {
    pub texel: Vec<PostureEntry>,
    pub sprite: Cursor<Vec<(Sheet, Sprite)>>,
}

impl Graphic {
    /// Catalog postures and keys unique, every sprite well formed, and the
    /// sprite cursor on an existing sprite whenever one exists.
    pub open spec fn wf(self) -> bool {
        &&& catalog_unique(self.texel@)
        &&& (self.sprite.inner@.len() == 0 ==> self.sprite.pos == 0)
        &&& (self.sprite.inner@.len() > 0 ==> self.sprite.pos < self.sprite.inner@.len())
        &&& forall|i: int|
            0 <= i < self.sprite.inner@.len() ==> (#[trigger] self.sprite.inner@[i]).1.wf()
    }

    /// The loaded sprites, with their sheets, in load order.
    pub open spec fn sprites(self) -> Seq<(Sheet, Sprite)> {
        self.sprite.inner@
    }

    /// The sprite-cursor position.
    pub open spec fn cursor(self) -> usize {
        self.sprite.pos
    }

    /// The texel catalog, as a map of maps.
    pub open spec fn catalog(self) -> Map<Posture, Map<Tuple, Seq<Texel>>> {
        catalog_view(self.texel@)
    }

    /// The `(emotion, variants)` pair the digit `index` selects at the
    /// pointed cell: the `index`-th pair registered, under the pointed
    /// frame's posture, for the part displayed at the pointed cell.
    pub open spec fn current_variant(self, index: int) -> Option<(Emotion, Seq<Texel>)> {
        if self.sprites().len() == 0 {
            None
        } else {
            let sp = self.sprites()[self.cursor() as int].1;
            if sp.count() == 0 {
                None
            } else {
                let d = sp.draws()[sp.cursor() as int];
                if !has_posture(self.texel@, d.posture) {
                    None
                } else {
                    let entries = self.texel@[posture_index(self.texel@, d.posture)].entries@;
                    let part = d.cells()[d.cursor() as int].1.part;
                    let list = cells_for_part(entries, part);
                    if 0 <= index < list.len() {
                        Some(list[index])
                    } else {
                        None
                    }
                }
            }
        }
    }

    /// The `(key, variants)` catalog entry at position `position` of the
    /// pointed frame's posture.
    pub open spec fn cell_choice(self, position: int) -> Option<(Tuple, Seq<Texel>)> {
        if self.sprites().len() == 0 {
            None
        } else {
            let sp = self.sprites()[self.cursor() as int].1;
            if sp.count() == 0 {
                None
            } else {
                let d = sp.draws()[sp.cursor() as int];
                if !has_posture(self.texel@, d.posture) {
                    None
                } else {
                    let entries = self.texel@[posture_index(self.texel@, d.posture)].entries@;
                    if 0 <= position < entries.len() {
                        Some((entries[position].key, entries[position].texels@))
                    } else {
                        None
                    }
                }
            }
        }
    }

    /// Finds the first sprite carrying the sheet `name`.
    fn find_sheet(&self, name: &Sheet) -> (r: Option<usize>)
        ensures
            match r {
                Some(i) => sheet_at(self.sprites(), *name, i as int),
                None => forall|j: int| 0 <= j < self.sprites().len() ==> self.sprites()[j].0
                    != *name,
            },
    {
        let mut i: usize = 0;
        while i < self.sprite.get_ref().len()
            invariant
                i <= self.sprites().len(),
                forall|j: int| 0 <= j < i ==> self.sprites()[j].0 != *name,
            decreases self.sprites().len() - i,
        {
            if self.sprite.get_ref()[i].0 == *name {
                return Some(i);
            }
            i = i + 1;
        }
        None
    }

    /// The posture of the pointed frame of the first sprite carrying the
    /// sheet `name`; `None` when no sprite carries it or that sprite has
    /// no frames.
    pub fn get_posture(&self, name: &Sheet) -> (r: Option<&Posture>)
        requires
            self.wf(),
        ensures
            match r {
                Some(p) => exists|i: int|
                    {
                        &&& #[trigger] sheet_at(self.sprites(), *name, i)
                        &&& self.sprites()[i].1.count() > 0
                        &&& *p
                            == self.sprites()[i].1.draws()[self.sprites()[i].1.cursor() as int].posture
                    },
                None => forall|i: int|
                    #[trigger] sheet_at(self.sprites(), *name, i) ==> self.sprites()[i].1.count()
                        == 0,
            },
    {
        match self.find_sheet(name) {
            Some(i) => self.sprite.get_ref()[i].1.get_posture(),
            None => None,
        }
    }

    /// Rewrites the first sprite carrying the sheet `name` from a change
    /// table (see `explicite_rel`), and returns it; `None`, and no change,
    /// when no sprite carries the sheet.
    pub fn explicite_emotion(
        &mut self,
        name: &Sheet,
        change: &[[Tuple; SPEC_MAX_XY]; SPEC_MAX_DRAW],
    ) -> (r: Option<&Sprite>)
        requires
            old(self).wf(),
        ensures
            final(self).wf(),
            final(self).texel == old(self).texel,
            final(self).cursor() == old(self).cursor(),
            match r {
                None => !has_sheet(old(self).sprites(), *name) && *final(self) == *old(self),
                Some(sp) => exists|i: int|
                    {
                        &&& #[trigger] sheet_at(old(self).sprites(), *name, i)
                        &&& final(self).sprites().len() == old(self).sprites().len()
                        &&& (forall|j: int|
                            0 <= j < old(self).sprites().len() && j != i
                                ==> (#[trigger] final(self).sprites()[j]) == old(
                                self,
                            ).sprites()[j])
                        &&& final(self).sprites()[i].0 == old(self).sprites()[i].0
                        &&& crate::sprite::explicite_rel(
                            old(self).sprites()[i].1,
                            final(self).sprites()[i].1,
                            change@,
                        )
                        &&& *sp == final(self).sprites()[i].1
                    },
            },
    {
        match self.find_sheet(name) {
            Some(i) => {
                let rec = &mut self.sprite.inner[i];
                rec.1.explicite_emotion(change);
                Some(&self.sprite.get_ref()[i].1)
            },
            None => None,
        }
    }

    /// The first sprite carrying the sheet `name`, if any.
    pub fn get_sprite(&self, name: &Sheet) -> (r: Option<&Sprite>)
        ensures
            match r {
                Some(sp) => exists|i: int|
                    #[trigger] sheet_at(self.sprites(), *name, i) && *sp == self.sprites()[i].1,
                None => !has_sheet(self.sprites(), *name),
            },
    {
        match self.find_sheet(name) {
            Some(i) => Some(&self.sprite.get_ref()[i].1),
            None => None,
        }
    }

    /// The pointed sprite with its sheet, if any sprite is loaded.
    pub fn get_current_sprite(&self) -> (r: Option<&(Sheet, Sprite)>)
        requires
            self.wf(),
        ensures
            self.sprites().len() == 0 ==> r is None,
            self.sprites().len() > 0 ==> (r matches Some(p) && *p == self.sprites()[self.cursor() as int]),
    {
        let pos = self.get_position();
        if pos < self.sprite.get_ref().len() {
            Some(&self.sprite.get_ref()[pos])
        } else {
            None
        }
    }

    /// The variant lists registered under `position` for `tuple`.
    pub fn get_texel(&self, position: &Posture, tuple: &Tuple) -> (r: Option<&Vec<Texel>>)
        requires
            self.wf(),
        ensures
            match r {
                Some(v) => self.catalog().contains_key(*position)
                    && self.catalog()[*position].contains_key(*tuple) && v@
                    == self.catalog()[*position][*tuple],
                None => !(self.catalog().contains_key(*position)
                    && self.catalog()[*position].contains_key(*tuple)),
            },
    {
        match find_posture(&self.texel, position) {
            Some(i) => {
                proof {
                    lemma_catalog_view_index(self.texel@, i as int);
                }
                match find_entry(&self.texel[i].entries, tuple) {
                    Some(j) => {
                        proof {
                            lemma_entries_view_index(self.texel@[i as int].entries@, j as int);
                        }
                        Some(&self.texel[i].entries[j].texels)
                    },
                    None => {
                        proof {
                            lemma_entries_view_contains(self.texel@[i as int].entries@, *tuple);
                        }
                        None
                    },
                }
            },
            None => {
                proof {
                    lemma_catalog_view_contains(self.texel@, *position);
                }
                None
            },
        }
    }

    /// The emotions available under `posture_key` for `part_key`, in
    /// catalog order; `None` when the posture has no catalog entry.
    pub fn get_emotion_list(&self, posture_key: &Posture, part_key: &Part) -> (r: Option<
        Vec<Emotion>,
    >)
        requires
            self.wf(),
        ensures
            match r {
                Some(v) => exists|i: int|
                    0 <= i < self.texel@.len() && (#[trigger] self.texel@[i]).posture
                        == *posture_key && v@ == emotions_for_part(
                        self.texel@[i].entries@,
                        *part_key,
                    ),
                None => !has_posture(self.texel@, *posture_key),
            },
    {
        match find_posture(&self.texel, posture_key) {
            Some(i) => {
                let entries = &self.texel[i].entries;
                let mut v: Vec<Emotion> = Vec::new();
                let mut j: usize = 0;
                while j < entries.len()
                    invariant
                        j <= entries@.len(),
                        v@ == emotions_for_part(entries@.subrange(0, j as int), *part_key),
                    decreases entries@.len() - j,
                {
                    proof {
                        assert(entries@.subrange(0, j + 1 as int).drop_last() =~= entries@.subrange(
                            0,
                            j as int,
                        ));
                        assert(entries@.subrange(0, j + 1 as int).last() == entries@[j as int]);
                    }
                    if entries[j].key.part == *part_key {
                        v.push(entries[j].key.emotion);
                    }
                    j = j + 1;
                }
                assert(entries@.subrange(0, entries@.len() as int) =~= entries@);
                Some(v)
            },
            None => None,
        }
    }

    /// The `(emotion, variants)` pairs available under `posture_key` for
    /// `part_key`, in catalog order; `None` when the posture has no
    /// catalog entry.
    pub fn get_cell_list(&self, posture_key: &Posture, part_key: &Part) -> (r: Option<
        Vec<(Emotion, Vec<Texel>)>,
    >)
        requires
            self.wf(),
        ensures
            match r {
                Some(v) => exists|i: int|
                    {
                        let spec = cells_for_part(
                            (#[trigger] self.texel@[i]).entries@,
                            *part_key,
                        );
                        &&& 0 <= i < self.texel@.len()
                        &&& self.texel@[i].posture == *posture_key
                        &&& v@.len() == spec.len()
                        &&& forall|k: int|
                            0 <= k < spec.len() ==> (#[trigger] v@[k]).0 == spec[k].0 && v@[k].1@
                                == spec[k].1
                    },
                None => !has_posture(self.texel@, *posture_key),
            },
    {
        match find_posture(&self.texel, posture_key) {
            Some(i) => {
                let entries = &self.texel[i].entries;
                let mut v: Vec<(Emotion, Vec<Texel>)> = Vec::new();
                let mut j: usize = 0;
                while j < entries.len()
                    invariant
                        j <= entries@.len(),
                        v@.len() == cells_for_part(entries@.subrange(0, j as int), *part_key).len(),
                        forall|k: int|
                            0 <= k < v@.len() ==> {
                                let spec = cells_for_part(
                                    entries@.subrange(0, j as int),
                                    *part_key,
                                );
                                (#[trigger] v@[k]).0 == spec[k].0 && v@[k].1@ == spec[k].1
                            },
                    decreases entries@.len() - j,
                {
                    proof {
                        assert(entries@.subrange(0, j + 1 as int).drop_last() =~= entries@.subrange(
                            0,
                            j as int,
                        ));
                        assert(entries@.subrange(0, j + 1 as int).last() == entries@[j as int]);
                    }
                    if entries[j].key.part == *part_key {
                        let texels = copy_texels(&entries[j].texels);
                        v.push((entries[j].key.emotion, texels));
                    }
                    j = j + 1;
                }
                assert(entries@.subrange(0, entries@.len() as int) =~= entries@);
                Some(v)
            },
            None => None,
        }
    }

    /// Registers one texel under `(position, tuple)`, appending it to the
    /// variants already registered there.
    fn insert_texel(&mut self, position: &Posture, tuple: Tuple, val: Texel)
        requires
            old(self).wf(),
        ensures
            final(self).wf(),
            final(self).sprite == old(self).sprite,
            final(self).catalog() == cat_insert(old(self).catalog(), *position, tuple, val),
    {
        let ghost orig = self.texel@;
        match find_posture(&self.texel, position) {
            Some(i) => {
                proof {
                    lemma_catalog_view_index(orig, i as int);
                }
                let entry = &mut self.texel[i];
                crate::catalog::append_texel(&mut entry.entries, tuple, val);
                proof {
                    lemma_catalog_view_update(orig, i as int, self.texel@[i as int]);
                }
            },
            None => {
                proof {
                    lemma_catalog_view_contains(orig, *position);
                }
                let mut texels: Vec<Texel> = Vec::new();
                texels.push(val);
                let mut entries: Vec<TexelEntry> = Vec::new();
                entries.push(TexelEntry { key: tuple, texels });
                let entry = PostureEntry { posture: *position, entries };
                self.texel.push(entry);
                proof {
                    lemma_catalog_view_push(orig, self.texel@.last());
                    let s = self.texel@.last().entries@;
                    assert(s.len() == 1);
                    assert(entries_view(s.drop_last()) =~~= Map::<Tuple, Seq<Texel>>::empty());
                    assert(s.last().key == tuple);
                    assert(s.last().texels@ =~= seq![val]);
                    assert(entries_view(s) =~~= Map::<Tuple, Seq<Texel>>::empty().insert(
                        tuple,
                        seq![val],
                    ));
                }
            },
        }
    }

    /// Parses one catalog line, `PartName(glyph, ...) : EmotionName
    /// [PostureName, ...]`, and registers every `(posture, glyph)`
    /// combination it names (see `line_catalog`). A rejected line registers
    /// nothing and reports its first offence (see `err_matches_line`).
    #[verifier::loop_isolation(false)]
    pub fn texel_with_line(&mut self, line: &str) -> (r: Result<(), GraphicError>)
        requires
            old(self).wf(),
        ensures
            final(self).wf(),
            final(self).sprite == old(self).sprite,
            match r {
                Ok(u) => !line_fails(line@) && final(self).catalog() == line_catalog(
                    old(self).catalog(),
                    line@,
                ),
                Err(e) => line_fails(line@) && final(self).catalog() == old(self).catalog()
                    && err_matches_line(e, line@),
            },
    {
        let len = line.unicode_len();
        let ci = match find_first_char(line, ':') {
            None => {
                return Err(GraphicError::SyntaxTexel(line.to_owned()));
            },
            Some(ci) => ci,
        };
        proof {
            let i0 = first_char_idx(line@, ':');
            assert(str_char_at(line@, ':', ci as int));
            assert(str_has_char(line@, ':'));
            assert(str_char_at(line@, ':', i0));
            if i0 < ci as int {
                assert(line@[i0] != ':');
            }
            if (ci as int) < i0 {
                assert(line@[ci as int] != ':');
            }
            assert(i0 == ci as int);
        }
        let left = line.substring_char(0, ci);
        let right = line.substring_char(ci, len);
        proof {
            assert(left@ =~= line@.take(ci as int));
            assert(right@ =~= line@.skip(ci as int));
        }
        let lt = tokenize(left, SepMode::Glyphs);
        let rt = tokenize(right, SepMode::Names);
        let ghost lts = tokens(left@, SepMode::Glyphs);
        let ghost rts = tokens(right@, SepMode::Names);
        if lt.len() == 0 || rt.len() == 0 {
            return Err(GraphicError::SyntaxTexel(line.to_owned()));
        }
        let ghost postures = rts.skip(1);
        let part_name: &str = lt[0];
        let emotion_name: &str = rt[0];
        let mut glyphs: Vec<char> = Vec::new();
        let mut ti: usize = 1;
        proof {
            assert(lts.skip(1).subrange(0, 0) =~= Seq::<Seq<char>>::empty());
        }
        while ti < lt.len()
            invariant
                1 <= ti <= lt.len(),
                glyphs@ == concat_tokens(lts.skip(1).subrange(0, ti - 1)),
            decreases lt.len() - ti,
        {
            let tok: &str = lt[ti];
            let tlen = tok.unicode_len();
            let mut j: usize = 0;
            while j < tlen
                invariant
                    j <= tlen,
                    tlen == tok@.len(),
                    glyphs@ == concat_tokens(lts.skip(1).subrange(0, ti - 1)) + tok@.take(j as int),
                decreases tlen - j,
            {
                glyphs.push(tok.get_char(j));
                proof {
                    assert(tok@.take(j + 1 as int) =~= tok@.take(j as int).push(tok@[j as int]));
                    assert(concat_tokens(lts.skip(1).subrange(0, ti - 1)) + tok@.take(j + 1 as int)
                        =~= (concat_tokens(lts.skip(1).subrange(0, ti - 1)) + tok@.take(
                        j as int,
                    )).push(tok@[j as int]));
                }
                j = j + 1;
            }
            proof {
                assert(lts.skip(1).subrange(0, ti as int).drop_last() =~= lts.skip(1).subrange(
                    0,
                    ti - 1,
                ));
                assert(lts.skip(1).subrange(0, ti as int).last() == lts[ti as int]);
                assert(tok@.take(tlen as int) =~= tok@);
            }
            ti = ti + 1;
        }
        proof {
            assert(lts.skip(1).subrange(0, lts.skip(1).len() as int) =~= lts.skip(1));
        }
        let np = rt.len() - 1;
        proof {
            assert(line_groups(line@) == Some((lts, rts)));
            assert(postures.len() == np);
            assert(glyphs@ == concat_tokens(lts.skip(1)));
        }
        if np == 0 || glyphs.len() == 0 {
            proof {
                if glyphs@.len() == 0 {
                    lemma_cat_insert_postures_trivial(
                        self.catalog(),
                        postures,
                        postures.len() as int,
                        Tuple { part: part_val(lts[0]), emotion: emotion_val(rts[0]) },
                        part_val(lts[0]),
                        concat_tokens(lts.skip(1)),
                    );
                }
            }
            return Ok(());
        }
        let ptok0: &str = rt[1];
        proof {
            assert(ptok0@ == rts[1]);
            assert(postures[0] == rts[1]);
        }
        match Posture::new(ptok0) {
            Err(e) => {
                return Err(GraphicError::Posture(e));
            },
            Ok(_) => {},
        }
        let g0: char = glyphs[0];
        if (g0 as u32) < 0xe000 || (g0 as u32) > 0xefff {
            return Err(GraphicError::Texel(TexelError::ForbiddenGlyph(g0)));
        }
        let part = match Part::new(part_name) {
            Err(e) => {
                return Err(GraphicError::Texel(TexelError::PartFail(e)));
            },
            Ok(p) => p,
        };
        let emotion = match Emotion::new(emotion_name) {
            Err(e) => {
                return Err(GraphicError::Emotion(e));
            },
            Ok(e) => e,
        };
        let mut j: usize = 0;
        while j < glyphs.len()
            invariant
                j <= glyphs@.len(),
                forall|k: int| 0 <= k < j ==> glyph_allowed(#[trigger] glyphs@[k]),
            decreases glyphs@.len() - j,
        {
            let g: char = glyphs[j];
            if (g as u32) < 0xe000 || (g as u32) > 0xefff {
                proof {
                    assert(bad_glyph_at(glyphs@, j as int));
                }
                return Err(GraphicError::Texel(TexelError::ForbiddenGlyph(g)));
            }
            j = j + 1;
        }
        let mut pvals: Vec<Posture> = Vec::new();
        let mut i: usize = 0;
        while i < np
            invariant
                i <= np,
                np + 1 == rt@.len(),
                pvals@.len() == i,
                forall|k: int|
                    0 <= k < i ==> posture_from_name(#[trigger] postures[k]) is Some && pvals@[k]
                        == posture_val(postures[k]),
            decreases np - i,
        {
            match Posture::new(rt[i + 1]) {
                Err(e) => {
                    proof {
                        assert(bad_posture_at(postures, i as int));
                    }
                    return Err(GraphicError::Posture(e));
                },
                Ok(p) => {
                    pvals.push(p);
                },
            }
            i = i + 1;
        }
        let key = Tuple { part, emotion };
        let mut i: usize = 0;
        while i < np
            invariant
                i <= np,
                self.wf(),
                self.sprite == old(self).sprite,
                self.catalog() == cat_insert_postures(
                    old(self).catalog(),
                    postures,
                    i as int,
                    key,
                    part,
                    glyphs@,
                ),
            decreases np - i,
        {
            let p: Posture = pvals[i];
            let ghost base = self.catalog();
            let mut j: usize = 0;
            while j < glyphs.len()
                invariant
                    j <= glyphs@.len(),
                    self.wf(),
                    self.sprite == old(self).sprite,
                    self.catalog() == cat_insert_glyphs(base, p, key, part, glyphs@.take(j as int)),
                decreases glyphs@.len() - j,
            {
                let g: char = glyphs[j];
                let t = Texel { part, index: 0, glyph: g };
                self.insert_texel(&p, key, t);
                proof {
                    assert(glyphs@.take(j + 1 as int).drop_last() =~= glyphs@.take(j as int));
                    assert(glyphs@.take(j + 1 as int).last() == glyphs@[j as int]);
                }
                j = j + 1;
            }
            proof {
                assert(glyphs@.take(glyphs@.len() as int) =~= glyphs@);
            }
            i = i + 1;
        }
        Ok(())
    }

    /// Loads a whole texel-catalog file: each non-blank line in turn, the
    /// first rejected line aborting the load with its typed error. Lines
    /// before the rejected one stay registered.
    #[verifier::loop_isolation(false)]
    pub fn insert_from_texelfile(&mut self, content: &str) -> (r: Result<(), GraphicError>)
        requires
            old(self).wf(),
        ensures
            final(self).wf(),
            final(self).sprite == old(self).sprite,
            ({
                let lines = tokens(content@, SepMode::Lines);
                match r {
                    Ok(u) => (forall|k: int| 0 <= k < lines.len() ==> !line_fails(
                        #[trigger] lines[k],
                    )) && final(self).catalog() == load_lines(
                        old(self).catalog(),
                        lines,
                        lines.len() as int,
                    ),
                    Err(e) => exists|k: int|
                        #[trigger] line_fails_at(lines, k) && final(self).catalog() == load_lines(
                            old(self).catalog(),
                            lines,
                            k,
                        ) && err_matches_line(e, lines[k]),
                }
            }),
    {
        let lines = tokenize(content, SepMode::Lines);
        let ghost liness = tokens(content@, SepMode::Lines);
        let mut li: usize = 0;
        while li < lines.len()
            invariant
                li <= lines@.len(),
                self.wf(),
                self.sprite == old(self).sprite,
                forall|k: int| 0 <= k < li ==> !line_fails(#[trigger] liness[k]),
                self.catalog() == load_lines(old(self).catalog(), liness, li as int),
            decreases lines@.len() - li,
        {
            match self.texel_with_line(lines[li]) {
                Ok(_) => {},
                Err(e) => {
                    proof {
                        assert(line_fails_at(liness, li as int));
                    }
                    return Err(e);
                },
            }
            li = li + 1;
        }
        Ok(())
    }

    /// Loads one sprite file. The first token names the posture; the
    /// remaining tokens split into whole frame chunks of a duration and
    /// `SPEC_MAX_XY` `Part:Emotion` pairs. Every request is resolved against
    /// the posture's catalog entry, and the finished sprite is registered
    /// under the file's base name as its sheet; an empty file registers an
    /// empty sprite. A rejected file registers nothing and reports its
    /// first offence (see `err_matches_sprite`); frames past the
    /// `SPEC_MAX_DRAW` limit are dropped.
    #[verifier::loop_isolation(false)]
    pub fn insert_from_spritefile(&mut self, name: &str, content: &str) -> (r: Result<
        (),
        GraphicError,
    >)
        requires
            old(self).wf(),
        ensures
            final(self).wf(),
            final(self).texel == old(self).texel,
            final(self).cursor() == old(self).cursor(),
            match r {
                Ok(u) => {
                    let toks = tokens(content@, SepMode::Sprite);
                    let dict = sprite_file_dict(old(self).catalog(), content@);
                    let n = sprite_file_frames(content@);
                    let count = if n < SPEC_MAX_DRAW {
                        n
                    } else {
                        SPEC_MAX_DRAW as int
                    };
                    &&& sprite_file_ok(old(self).catalog(), name@, content@)
                    &&& final(self).sprites().len() == old(self).sprites().len() + 1
                    &&& forall|j: int|
                        0 <= j < old(self).sprites().len() ==> #[trigger] final(self).sprites()[j]
                            == old(self).sprites()[j]
                    &&& final(self).sprites().last().0 == sheet_val(name@)
                    &&& {
                        let sp = final(self).sprites().last().1;
                        &&& sp.cursor() == 0
                        &&& sp.dict() == dict
                        &&& sp.count() == count
                        &&& forall|f: int|
                            0 <= f < count ==> {
                                &&& (#[trigger] sp.draws()[f]).posture == posture_val(toks[0])
                                &&& sp.draws()[f].duration == frame_duration(toks, f)
                                &&& sp.draws()[f].cursor() == 0
                                &&& sp.draws()[f].cells() == resolve_cells(
                                    dict,
                                    frame_tuples(toks, f),
                                )
                            }
                    }
                },
                Err(e) => *final(self) == *old(self) && err_matches_sprite(
                    e,
                    old(self).catalog(),
                    name@,
                    content@,
                ),
            },
    {
        let toks = tokenize(content, SepMode::Sprite);
        let ghost tokss = tokens(content@, SepMode::Sprite);
        let mut sprite = Sprite::default();
        if toks.len() == 0 {
            match Sheet::new(name) {
                Err(e) => {
                    return Err(GraphicError::Sheet(e));
                },
                Ok(sheet) => {
                    self.insert_sprite((sheet, sprite));
                    return Ok(());
                },
            }
        }
        let ptok: &str = toks[0];
        proof {
            assert(ptok@ == tokss[0]);
        }
        let posture = match Posture::new(ptok) {
            Err(e) => {
                return Err(GraphicError::Posture(e));
            },
            Ok(p) => p,
        };
        let rest = toks.len() - 1;
        if rest % (2 * SPEC_MAX_XY + 1) != 0 {
            return Err(GraphicError::SpriteSplitFirst(name.to_owned()));
        }
        let n = rest / (2 * SPEC_MAX_XY + 1);
        proof {
            vstd::arithmetic::div_mod::lemma_fundamental_div_mod(rest as int, chunk_len());
            assert(rest == chunk_len() * n);
            assert(n == sprite_file_frames(content@));
        }
        match find_posture(&self.texel, &posture) {
            Some(i) => {
                proof {
                    lemma_catalog_view_index(self.texel@, i as int);
                }
                sprite.extend(&self.texel[i].entries);
                proof {
                    assert(sprite.dict() =~= entries_view(self.texel@[i as int].entries@));
                    assert(sprite.dict() == sprite_file_dict(self.catalog(), content@));
                }
            },
            None => {
                proof {
                    lemma_catalog_view_contains(self.texel@, posture);
                    assert(sprite.dict() =~= sprite_file_dict(self.catalog(), content@));
                }
            },
        }
        let ghost dict = sprite.dict();
        let mut f: usize = 0;
        while f < n
            invariant
                f <= n,
                sprite.wf(),
                sprite.dict() == dict,
                sprite.cursor() == 0,
                frames_ok_upto(dict, tokss, f as int),
                sprite.count() == if (f as int) < SPEC_MAX_DRAW {
                    f as int
                } else {
                    SPEC_MAX_DRAW as int
                },
                forall|g: int|
                    0 <= g < sprite.count() ==> {
                        &&& (#[trigger] sprite.draws()[g]).posture == posture
                        &&& sprite.draws()[g].duration == frame_duration(tokss, g)
                        &&& sprite.draws()[g].cursor() == 0
                        &&& sprite.draws()[g].cells() == resolve_cells(dict, frame_tuples(tokss, g))
                    },
            decreases n - f,
        {
            proof {
                assert(1 + f * (2 * SPEC_MAX_XY + 1) + (2 * SPEC_MAX_XY + 1) <= tokss.len())
                    by (nonlinear_arith)
                    requires
                        f < n,
                        rest == (2 * SPEC_MAX_XY + 1) * n,
                        tokss.len() == rest + 1,
                ;
            }
            let base = 1 + f * (2 * SPEC_MAX_XY + 1);
            let dtok: &str = toks[base];
            proof {
                assert(dtok@ == frame_duration_tok(tokss, f as int));
            }
            let duration = match parse_i64(dtok) {
                None => {
                    proof {
                        assert(frame_bad_at(dict, tokss, n as int, f as int));
                    }
                    return Err(GraphicError::SpriteSplitFirst(dtok.to_owned()));
                },
                Some(d) => d,
            };
            let mut pairs: Vec<Tuple> = Vec::new();
            let mut j: usize = 0;
            while j < SPEC_MAX_XY
                invariant
                    j <= SPEC_MAX_XY,
                    pairs@.len() == j,
                    forall|k: int|
                        0 <= k < j ==> pair_names_ok(tokss, f as int, k) && pairs@[k]
                            == frame_tuples(tokss, f as int)[k],
                decreases SPEC_MAX_XY - j,
            {
                let ptk: &str = toks[base + 1 + 2 * j];
                let etk: &str = toks[base + 2 + 2 * j];
                proof {
                    assert(ptk@ == frame_part_tok(tokss, f as int, j as int));
                    assert(etk@ == frame_emotion_tok(tokss, f as int, j as int));
                }
                let part = match Part::new(ptk) {
                    Err(e) => {
                        proof {
                            assert(pair_bad_name_at(tokss, f as int, j as int));
                            assert(frame_bad_at(dict, tokss, n as int, f as int));
                        }
                        return Err(GraphicError::Part(e));
                    },
                    Ok(p) => p,
                };
                let emotion = match Emotion::new(etk) {
                    Err(e) => {
                        proof {
                            assert(pair_bad_name_at(tokss, f as int, j as int));
                            assert(frame_bad_at(dict, tokss, n as int, f as int));
                        }
                        return Err(GraphicError::Emotion(e));
                    },
                    Ok(em) => em,
                };
                pairs.push(Tuple { part, emotion });
                j = j + 1;
            }
            proof {
                assert(pairs@ =~= frame_tuples(tokss, f as int));
                assert(frame_names_ok(tokss, f as int));
            }
            let mut j: usize = 0;
            while j < SPEC_MAX_XY
                invariant
                    j <= SPEC_MAX_XY,
                    forall|k: int|
                        0 <= k < j ==> pair_resolves(
                            dict,
                            #[trigger] frame_tuples(tokss, f as int)[k],
                        ),
                decreases SPEC_MAX_XY - j,
            {
                let t: Tuple = pairs[j];
                let resolved = match find_entry(&sprite.texel, &t) {
                    Some(idx) => {
                        proof {
                            lemma_entries_view_index(sprite.texel@, idx as int);
                        }
                        sprite.texel[idx].texels.len() > 0
                    },
                    None => {
                        proof {
                            lemma_entries_view_contains(sprite.texel@, t);
                        }
                        false
                    },
                };
                if !resolved {
                    let ptk: &str = toks[base + 1 + 2 * j];
                    let etk: &str = toks[base + 2 + 2 * j];
                    let mut s = ptk.to_owned();
                    s.append(":");
                    s.append(etk);
                    proof {
                        assert(frame_unresolved_at(dict, tokss, f as int, j as int));
                        assert(frame_bad_at(dict, tokss, n as int, f as int));
                    }
                    return Err(GraphicError::FoundTexel(s));
                }
                j = j + 1;
            }
            sprite.insert_list(duration, &posture, pairs.as_slice());
            proof {
                lemma_resolve_cells_full(dict, pairs@);
                assert(frame_ok(dict, tokss, f as int));
            }
            f = f + 1;
        }
        let sheet = match Sheet::new(name) {
            Err(e) => {
                return Err(GraphicError::Sheet(e));
            },
            Ok(s) => s,
        };
        self.insert_sprite((sheet, sprite));
        Ok(())
    }

    /// Registers a loaded sprite under its sheet.
    fn insert_sprite(&mut self, sprite: (Sheet, Sprite))
        requires
            old(self).wf(),
            sprite.1.wf(),
        ensures
            final(self).wf(),
            final(self).texel == old(self).texel,
            final(self).cursor() == old(self).cursor(),
            final(self).sprites() == old(self).sprites().push(sprite),
    {
        self.sprite.get_mut().push(sprite);
    }

    /// The sprite-cursor position.
    fn get_position(&self) -> (r: usize)
        ensures
            r == self.cursor(),
    {
        self.sprite.position()
    }

    /// Moves the sprite cursor to `position`.
    fn set_position(&mut self, position: usize)
        ensures
            final(self).cursor() == position,
            final(self).texel == old(self).texel,
            final(self).sprite.inner == old(self).sprite.inner,
    {
        self.sprite.set_position(position);
    }

    /// Moves the sprite cursor forward by `position` sprites; a move past
    /// the last sprite is a saturating no-op.
    pub fn add_position(&mut self, position: usize)
        requires
            old(self).wf(),
        ensures
            final(self).wf(),
            final(self).texel == old(self).texel,
            final(self).sprite.inner == old(self).sprite.inner,
            final(self).cursor() == if old(self).cursor() + position < old(
                self,
            ).sprites().len() {
                (old(self).cursor() + position) as usize
            } else {
                old(self).cursor()
            },
    {
        match self.get_position().checked_add(position) {
            Some(pos) => {
                if pos < self.sprite.get_ref().len() {
                    self.set_position(pos);
                }
            },
            None => {
                proof {
                    vstd::std_specs::vec::axiom_spec_len(&self.sprite.inner);
                }
            },
        }
    }

    /// Moves the sprite cursor backward by `position` sprites; a move past
    /// the first sprite wraps to the last one.
    pub fn sub_position(&mut self, position: usize)
        requires
            old(self).wf(),
        ensures
            final(self).wf(),
            final(self).texel == old(self).texel,
            final(self).sprite.inner == old(self).sprite.inner,
            final(self).cursor() == if position <= old(self).cursor() {
                (old(self).cursor() - position) as usize
            } else if old(self).sprites().len() > 0 {
                (old(self).sprites().len() - 1) as usize
            } else {
                old(self).cursor()
            },
    {
        match self.get_position().checked_sub(position) {
            Some(pos) => {
                self.set_position(pos);
            },
            None => {
                let len = self.sprite.get_ref().len();
                if len > 0 {
                    self.set_position(len - 1);
                }
            },
        }
    }

    /// Jumps to the first sprite, then forward by `position`.
    pub fn start_position(&mut self, position: usize)
        requires
            old(self).wf(),
        ensures
            final(self).wf(),
            final(self).texel == old(self).texel,
            final(self).sprite.inner == old(self).sprite.inner,
            final(self).cursor() == if position < old(self).sprites().len() {
                position
            } else {
                0
            },
    {
        self.set_position(0);
        self.add_position(position);
    }

    /// Jumps to the last sprite, then backward by `position`; on an empty
    /// registry the cursor stays at `0`.
    pub fn end_position(&mut self, position: usize)
        requires
            old(self).wf(),
        ensures
            final(self).wf(),
            final(self).texel == old(self).texel,
            final(self).sprite.inner == old(self).sprite.inner,
            old(self).sprites().len() == 0 ==> final(self).cursor() == old(self).cursor(),
            old(self).sprites().len() > 0 ==> final(self).cursor() == if position < old(
                self,
            ).sprites().len() {
                (old(self).sprites().len() - 1 - position) as usize
            } else {
                (old(self).sprites().len() - 1) as usize
            },
    {
        let len = self.sprite.get_ref().len();
        if len > 0 {
            self.set_position(len - 1);
            self.sub_position(position);
        }
    }

    /// Moves the pointed sprite's frame cursor forward by `position`.
    pub fn add_position_sprite(&mut self, position: usize)
        requires
            old(self).wf(),
        ensures
            final(self).wf(),
            final(self).texel == old(self).texel,
            final(self).cursor() == old(self).cursor(),
            old(self).sprites().len() == 0 ==> *final(self) == *old(self),
            old(self).sprites().len() > 0 ==> {
                let pos = old(self).cursor() as int;
                &&& final(self).sprites().len() == old(self).sprites().len()
                &&& forall|j: int|
                    0 <= j < old(self).sprites().len() && j != pos
                        ==> #[trigger] final(self).sprites()[j] == old(self).sprites()[j]
                &&& final(self).sprites()[pos].0 == old(self).sprites()[pos].0
                &&& add_position_rel(
                    old(self).sprites()[pos].1,
                    final(self).sprites()[pos].1,
                    position,
                )
            },
    {
        let pos = self.get_position();
        if pos < self.sprite.get_ref().len() {
            let rec = &mut self.sprite.inner[pos];
            rec.1.add_position(position);
        }
    }

    /// Moves the pointed sprite's frame cursor backward by `position`,
    /// wrapping to the last frame past frame `0`.
    pub fn sub_position_sprite(&mut self, position: usize)
        requires
            old(self).wf(),
        ensures
            final(self).wf(),
            final(self).texel == old(self).texel,
            final(self).cursor() == old(self).cursor(),
            old(self).sprites().len() == 0 ==> *final(self) == *old(self),
            old(self).sprites().len() > 0 ==> {
                let pos = old(self).cursor() as int;
                &&& final(self).sprites().len() == old(self).sprites().len()
                &&& forall|j: int|
                    0 <= j < old(self).sprites().len() && j != pos
                        ==> #[trigger] final(self).sprites()[j] == old(self).sprites()[j]
                &&& final(self).sprites()[pos].0 == old(self).sprites()[pos].0
                &&& sub_position_rel(
                    old(self).sprites()[pos].1,
                    final(self).sprites()[pos].1,
                    position,
                )
            },
    {
        let pos = self.get_position();
        if pos < self.sprite.get_ref().len() {
            let rec = &mut self.sprite.inner[pos];
            rec.1.sub_position(position);
        }
    }

    /// Moves the pointed sprite's cell cursor forward by `position`,
    /// overflowing into frame navigation at the last cell.
    pub fn add_position_sprite_draw(&mut self, position: usize)
        requires
            old(self).wf(),
        ensures
            final(self).wf(),
            final(self).texel == old(self).texel,
            final(self).cursor() == old(self).cursor(),
            old(self).sprites().len() == 0 ==> *final(self) == *old(self),
            old(self).sprites().len() > 0 ==> {
                let pos = old(self).cursor() as int;
                &&& final(self).sprites().len() == old(self).sprites().len()
                &&& forall|j: int|
                    0 <= j < old(self).sprites().len() && j != pos
                        ==> #[trigger] final(self).sprites()[j] == old(self).sprites()[j]
                &&& final(self).sprites()[pos].0 == old(self).sprites()[pos].0
                &&& add_position_draw_rel(
                    old(self).sprites()[pos].1,
                    final(self).sprites()[pos].1,
                    position,
                )
            },
    {
        let pos = self.get_position();
        if pos < self.sprite.get_ref().len() {
            let rec = &mut self.sprite.inner[pos];
            rec.1.add_position_draw(position);
        }
    }

    /// Moves the pointed sprite's cell cursor backward by `position`,
    /// overflowing into frame navigation at the first cell.
    pub fn sub_position_sprite_draw(&mut self, position: usize)
        requires
            old(self).wf(),
        ensures
            final(self).wf(),
            final(self).texel == old(self).texel,
            final(self).cursor() == old(self).cursor(),
            old(self).sprites().len() == 0 ==> *final(self) == *old(self),
            old(self).sprites().len() > 0 ==> {
                let pos = old(self).cursor() as int;
                &&& final(self).sprites().len() == old(self).sprites().len()
                &&& forall|j: int|
                    0 <= j < old(self).sprites().len() && j != pos
                        ==> #[trigger] final(self).sprites()[j] == old(self).sprites()[j]
                &&& final(self).sprites()[pos].0 == old(self).sprites()[pos].0
                &&& sub_position_draw_rel(
                    old(self).sprites()[pos].1,
                    final(self).sprites()[pos].1,
                    position,
                )
            },
    {
        let pos = self.get_position();
        if pos < self.sprite.get_ref().len() {
            let rec = &mut self.sprite.inner[pos];
            rec.1.sub_position_draw(position);
        }
    }
    /// The catalog entry at position `position` under the pointed frame's
    /// posture: its key and a copy of its variant list (see `cell_choice`).
    pub fn get_cell(&self, position: usize) -> (r: Option<(Tuple, Vec<Texel>)>)
        requires
            self.wf(),
        ensures
            match r {
                Some(pair) => self.cell_choice(position as int) matches Some(c) && pair.0 == c.0
                    && pair.1@ == c.1,
                None => self.cell_choice(position as int) is None,
            },
    {
        let pos = self.get_position();
        if pos >= self.sprite.get_ref().len() {
            return None;
        }
        let sp = &self.sprite.get_ref()[pos].1;
        match sp.get_posture() {
            None => None,
            Some(posture) => {
                let posture = *posture;
                match find_posture(&self.texel, &posture) {
                    Some(i) => {
                        proof {
                            let pi = posture_index(self.texel@, posture);
                            assert(self.texel@[i as int].posture == posture);
                            assert(has_posture(self.texel@, posture));
                            assert(0 <= pi < self.texel@.len() && self.texel@[pi].posture
                                == posture);
                            assert(pi == i as int);
                        }
                        let entries = &self.texel[i].entries;
                        if position < entries.len() {
                            let texels = copy_texels(&entries[position].texels);
                            Some((entries[position].key, texels))
                        } else {
                            None
                        }
                    },
                    None => None,
                }
            },
        }
    }

    /// The `index`-th `(emotion, variants)` pair registered, under the
    /// pointed frame's posture, for the part displayed at the pointed cell
    /// (see `current_variant`): what pressing the digit `index` selects.
    pub fn get_current_cell_number(&self, index: usize) -> (r: Option<(Emotion, Vec<Texel>)>)
        requires
            self.wf(),
        ensures
            match r {
                Some(pair) => self.current_variant(index as int) matches Some(c) && pair.0 == c.0
                    && pair.1@ == c.1,
                None => self.current_variant(index as int) is None,
            },
    {
        let pos = self.get_position();
        if pos >= self.sprite.get_ref().len() {
            return None;
        }
        let sp = &self.sprite.get_ref()[pos].1;
        match sp.get_posture() {
            None => None,
            Some(posture) => {
                let posture = *posture;
                match sp.current() {
                    None => None,
                    Some(cell) => {
                        let part = cell.1.part;
                        match self.get_cell_list(&posture, &part) {
                            Some(list) => {
                                proof {
                                    let i = choose|i: int|
                                        0 <= i < self.texel@.len() && (
                                        #[trigger] self.texel@[i]).posture == posture
                                            && list@.len() == cells_for_part(
                                            self.texel@[i].entries@,
                                            part,
                                        ).len() && forall|k: int|
                                            0 <= k < cells_for_part(
                                                self.texel@[i].entries@,
                                                part,
                                            ).len() ==> (#[trigger] list@[k]).0
                                                == cells_for_part(self.texel@[i].entries@, part)[k].0
                                                && list@[k].1@ == cells_for_part(
                                                self.texel@[i].entries@,
                                                part,
                                            )[k].1;
                                    let pi = posture_index(self.texel@, posture);
                                    assert(has_posture(self.texel@, posture));
                                    assert(0 <= pi < self.texel@.len() && self.texel@[pi].posture
                                        == posture);
                                    assert(pi == i);
                                }
                                if index < list.len() {
                                    let pair = &list[index];
                                    let texels = copy_texels(&pair.1);
                                    Some((pair.0, texels))
                                } else {
                                    None
                                }
                            },
                            None => None,
                        }
                    },
                }
            },
        }
    }

    /// Applies the `(emotion, variants)` pair the digit `index` selects to
    /// every cell of the focused part in the pointed frame: the "cycle
    /// emotion with digit key" action. When `index` selects nothing, the
    /// registry is unchanged.
    pub fn set_current_emotion(&mut self, index: usize)
        requires
            old(self).wf(),
        ensures
            final(self).wf(),
            final(self).texel == old(self).texel,
            final(self).cursor() == old(self).cursor(),
            match old(self).current_variant(index as int) {
                Some(c) => {
                    let pos = old(self).cursor() as int;
                    &&& final(self).sprites().len() == old(self).sprites().len()
                    &&& forall|j: int|
                        0 <= j < old(self).sprites().len() && j != pos
                            ==> #[trigger] final(self).sprites()[j] == old(self).sprites()[j]
                    &&& final(self).sprites()[pos].0 == old(self).sprites()[pos].0
                    &&& set_current_rel(
                        old(self).sprites()[pos].1,
                        final(self).sprites()[pos].1,
                        c.0,
                        c.1,
                    )
                },
                None => *final(self) == *old(self),
            },
    {
        let pos = self.get_position();
        let cell = self.get_current_cell_number(index);
        match cell {
            Some(pair) => {
                if pos < self.sprite.get_ref().len() {
                    let rec = &mut self.sprite.inner[pos];
                    rec.1.set_current((&pair.0, &pair.1));
                }
            },
            None => {},
        }
    }

    /// Applies the catalog entry at position `position` of the pointed
    /// frame's posture to the pointed frame, rewriting every cell of that
    /// entry's part. When `position` selects nothing, the registry is
    /// unchanged.
    pub fn set_cell_draw(&mut self, position: usize)
        requires
            old(self).wf(),
        ensures
            final(self).wf(),
            final(self).texel == old(self).texel,
            final(self).cursor() == old(self).cursor(),
            match old(self).cell_choice(position as int) {
                Some(c) => {
                    let pos = old(self).cursor() as int;
                    &&& final(self).sprites().len() == old(self).sprites().len()
                    &&& forall|j: int|
                        0 <= j < old(self).sprites().len() && j != pos
                            ==> #[trigger] final(self).sprites()[j] == old(self).sprites()[j]
                    &&& final(self).sprites()[pos].0 == old(self).sprites()[pos].0
                    &&& set_current_rel(
                        old(self).sprites()[pos].1,
                        final(self).sprites()[pos].1,
                        c.0.emotion,
                        c.1,
                    )
                },
                None => *final(self) == *old(self),
            },
    {
        let pos = self.get_position();
        let cell = self.get_cell(position);
        match cell {
            Some(pair) => {
                if pos < self.sprite.get_ref().len() {
                    let rec = &mut self.sprite.inner[pos];
                    rec.1.set_current((&pair.0.emotion, &pair.1));
                }
            },
            None => {},
        }
    }
}

impl Default for Graphic {
    /// An empty registry: no catalog entries, no sprites, the cursor at `0`.
    fn default() -> (r: Graphic)
        ensures
            r.wf(),
            r.catalog() == Map::<Posture, Map<Tuple, Seq<Texel>>>::empty(),
            r.sprites() == Seq::<(Sheet, Sprite)>::empty(),
            r.cursor() == 0,
    {
        let r = Graphic { texel: Vec::new(), sprite: Cursor::new(Vec::new()) };
        proof {
            assert(r.catalog() =~= Map::<Posture, Map<Tuple, Seq<Texel>>>::empty());
            assert(r.sprites() =~= Seq::<(Sheet, Sprite)>::empty());
        }
        r
    }
}

} // verus!
