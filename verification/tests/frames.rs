use graphic::catalog::TexelEntry;
use graphic::{
    Draw, Emotion, Part, Posture, SPEC_MAX_DRAW, SPEC_MAX_XY, Sprite, Texel, Tuple,
};

fn board_of(part: &str, glyph: char) -> Vec<(Emotion, Texel)> {
    vec![(Emotion::Empty, Texel::new(part, glyph).unwrap()); SPEC_MAX_XY]
}

fn sprite_with_frames(n: usize) -> Sprite {
    let mut sp = Sprite::default();
    for _ in 0..n {
        let d = Draw::new(&Posture::Talk, 100, &board_of("Heart", '\u{e000}')).unwrap();
        sp.insert(d);
    }
    sp
}

#[test]
fn sprite_insert_is_bounded() {
    let mut sp = sprite_with_frames(SPEC_MAX_DRAW);
    assert_eq!(sp.sheet.inner.len(), SPEC_MAX_DRAW);
    let d = Draw::new(&Posture::Talk, 100, &board_of("Heart", '\u{e000}')).unwrap();
    sp.insert(d);
    assert_eq!(sp.sheet.inner.len(), SPEC_MAX_DRAW);
}

#[test]
fn sprite_frame_cursor_saturates_forward() {
    let mut sp = sprite_with_frames(3);
    assert_eq!(sp.add_position(2), Some(()));
    assert_eq!(sp.sheet.position(), 2);
    assert_eq!(sp.add_position(1), None);
    assert_eq!(sp.sheet.position(), 2);
}

#[test]
fn sprite_frame_cursor_wraps_backward() {
    // From frame 0, one step back lands on the last frame.
    let mut sp = sprite_with_frames(4);
    assert_eq!(sp.sheet.position(), 0);
    assert_eq!(sp.sub_position(1), Some(()));
    assert_eq!(sp.sheet.position(), 3);
    assert_eq!(sp.sub_position(2), Some(()));
    assert_eq!(sp.sheet.position(), 1);
    // A move past frame 0 also wraps.
    assert_eq!(sp.sub_position(5), Some(()));
    assert_eq!(sp.sheet.position(), 3);
    // Only a sprite without frames cannot move.
    let mut empty = Sprite::default();
    assert_eq!(empty.sub_position(1), None);
    assert_eq!(empty.add_position(1), None);
}

#[test]
fn cell_navigation_overflows_into_frames() {
    let mut sp = sprite_with_frames(3);
    // Within the first frame.
    assert_eq!(sp.add_position_draw(10), Some(()));
    assert_eq!(sp.sheet.inner[0].get_position(), 10);
    assert_eq!(sp.sheet.position(), 0);
    // Past the last cell: the frame cursor advances by one, no cell moves,
    // and no frame is skipped.
    assert_eq!(sp.add_position_draw(SPEC_MAX_XY), Some(()));
    assert_eq!(sp.sheet.position(), 1);
    assert_eq!(sp.sheet.inner[0].get_position(), 10);
    assert_eq!(sp.sheet.inner[1].get_position(), 0);
    // Backward below cell 0: the frame cursor retreats.
    assert_eq!(sp.sub_position_draw(1), Some(()));
    assert_eq!(sp.sheet.position(), 0);
    // Backward from frame 0 wraps to the last frame.
    assert_eq!(sp.sub_position_draw(SPEC_MAX_XY), Some(()));
    assert_eq!(sp.sheet.position(), 2);
}

#[test]
fn sprite_current_and_set_current() {
    let mut sp = sprite_with_frames(2);
    let (e, t) = sp.current().unwrap();
    assert_eq!(e, Emotion::Empty);
    assert_eq!(t.get_glyph(), '\u{e000}');
    assert_eq!(sp.get_posture(), Some(&Posture::Talk));
    assert!(sp.get_current_draw().is_some());
    let variants = vec![Texel::new("Heart", '\u{e005}').unwrap()];
    assert_eq!(sp.set_current((&Emotion::Love, &variants)), Some(()));
    let (e, t) = sp.current().unwrap();
    assert_eq!(e, Emotion::Love);
    assert_eq!(t.get_glyph(), '\u{e005}');
    // Only the pointed frame changed.
    assert_eq!(sp.sheet.inner[1].board.inner[0].1.get_glyph(), '\u{e000}');
    let mut empty = Sprite::default();
    assert_eq!(empty.current(), None);
    assert_eq!(empty.get_posture(), None);
    assert_eq!(empty.set_current((&Emotion::Love, &variants)), None);
}

#[test]
fn insert_list_resolves_with_occurrence_cycling() {
    let mut sp = Sprite::default();
    let key = Tuple { part: Part::Heart, emotion: Emotion::Empty };
    let dict = vec![TexelEntry {
        key,
        texels: vec![
            Texel::new("Heart", '\u{e000}').unwrap(),
            Texel::new("Heart", '\u{e001}').unwrap(),
        ],
    }];
    sp.extend(&dict);
    let source = vec![key; SPEC_MAX_XY];
    sp.insert_list(250, &Posture::Talk, &source);
    assert_eq!(sp.sheet.inner.len(), 1);
    let d = &sp.sheet.inner[0];
    assert_eq!(d.get_duration(), 250);
    assert_eq!(*d.get_posture(), Posture::Talk);
    // The n-th Heart cell pulls the n-th variant, cycling past the end.
    assert_eq!(d.board.inner[0].1.get_glyph(), '\u{e000}');
    assert_eq!(d.board.inner[1].1.get_glyph(), '\u{e001}');
    assert_eq!(d.board.inner[2].1.get_glyph(), '\u{e000}');
    assert_eq!(d.board.inner[3].1.get_glyph(), '\u{e001}');
}

#[test]
fn insert_list_drops_unresolved_requests() {
    let mut sp = Sprite::default();
    let key = Tuple { part: Part::Heart, emotion: Emotion::Empty };
    let other = Tuple { part: Part::Mouth, emotion: Emotion::Empty };
    let dict = vec![TexelEntry {
        key,
        texels: vec![Texel::new("Heart", '\u{e000}').unwrap()],
    }];
    sp.extend(&dict);
    // One request of the 50 does not resolve: the frame misses a cell and
    // is dropped whole.
    let mut source = vec![key; SPEC_MAX_XY - 1];
    source.push(other);
    sp.insert_list(250, &Posture::Talk, &source);
    assert_eq!(sp.sheet.inner.len(), 0);
}

#[test]
fn extend_is_last_writer_wins() {
    let mut sp = Sprite::default();
    let key = Tuple { part: Part::Heart, emotion: Emotion::Empty };
    sp.extend(&vec![TexelEntry {
        key,
        texels: vec![Texel::new("Heart", '\u{e000}').unwrap()],
    }]);
    sp.extend(&vec![TexelEntry {
        key,
        texels: vec![Texel::new("Heart", '\u{e001}').unwrap()],
    }]);
    assert_eq!(sp.texel.len(), 1);
    assert_eq!(sp.texel[0].texels.len(), 1);
    assert_eq!(sp.texel[0].texels[0].get_glyph(), '\u{e001}');
}

#[test]
fn explicite_emotion_rewrites_each_frame() {
    let mut sp = Sprite::default();
    let key = Tuple { part: Part::Heart, emotion: Emotion::Love };
    sp.extend(&vec![TexelEntry {
        key,
        texels: vec![Texel::new("Heart", '\u{e009}').unwrap()],
    }]);
    let d = Draw::new(&Posture::Talk, 100, &board_of("Heart", '\u{e000}')).unwrap();
    sp.insert(d);
    let empty_key = Tuple { part: Part::Empty, emotion: Emotion::Empty };
    let mut row = [empty_key; SPEC_MAX_XY];
    row[0] = key;
    let change = [row; SPEC_MAX_DRAW];
    sp.explicite_emotion(&change);
    // The one registered variant lands on the first Heart cell.
    assert_eq!(sp.sheet.inner[0].board.inner[0].0, Emotion::Love);
    assert_eq!(sp.sheet.inner[0].board.inner[0].1.get_glyph(), '\u{e009}');
    // The second Heart cell is beyond the variant list and unchanged.
    assert_eq!(sp.sheet.inner[0].board.inner[1].0, Emotion::Empty);
    assert_eq!(sp.sheet.inner[0].board.inner[1].1.get_glyph(), '\u{e000}');
}
