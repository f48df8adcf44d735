use graphic::{
    Draw, DrawError, Emotion, Part, Posture, SPEC_MAX_XY, Texel, TexelError, Tuple,
};

fn heart_texel() -> Texel {
    Texel::new("Heart", '\u{e000}').unwrap()
}

fn full_board() -> Vec<(Emotion, Texel)> {
    vec![(Emotion::Empty, heart_texel()); SPEC_MAX_XY]
}

#[test]
fn texel_new_checks_glyph_then_part() {
    let t = heart_texel();
    assert_eq!(*t.get_part(), Part::Heart);
    assert_eq!(t.get_glyph(), '\u{e000}');
    assert_eq!(t.get_index(), 0);
    // A glyph outside U+E000..U+EFFF is rejected before the part is looked at.
    assert_eq!(
        Texel::new("Heart", 's'),
        Err(TexelError::ForbiddenGlyph('s'))
    );
    assert_eq!(
        Texel::new("Bogus", 's'),
        Err(TexelError::ForbiddenGlyph('s'))
    );
    assert!(matches!(
        Texel::new("Bogus", '\u{e000}'),
        Err(TexelError::PartFail(_))
    ));
    // Both block edges are allowed.
    assert!(Texel::new("Heart", '\u{e000}').is_ok());
    assert!(Texel::new("Heart", '\u{efff}').is_ok());
    assert_eq!(
        Texel::new("Heart", '\u{f000}'),
        Err(TexelError::ForbiddenGlyph('\u{f000}'))
    );
}

#[test]
fn texel_mutators_keep_identity() {
    let mut t = heart_texel();
    assert_eq!(t.is_first(), Some(&Part::Heart));
    t.set_index(2);
    assert_eq!(t.get_index(), 2);
    assert_eq!(t.is_first(), None);
    t.set_glyph('\u{e00a}');
    assert_eq!(t.get_glyph(), '\u{e00a}');
    assert_eq!(*t.get_part(), Part::Heart);
    // Texels compare by part alone.
    assert_eq!(t, heart_texel());
    assert_ne!(t, Texel::new("Mouth", '\u{e00a}').unwrap());
}

#[test]
fn draw_new_rejects_wrong_grid_size() {
    let cells = full_board();
    assert!(Draw::new(&Posture::Talk, 200, &cells).is_ok());
    let short = &cells[..SPEC_MAX_XY - 1];
    assert_eq!(
        Draw::new(&Posture::Talk, 200, short).err(),
        Some(DrawError::OutOfSize(SPEC_MAX_XY - 1, SPEC_MAX_XY))
    );
    let empty: [(Emotion, Texel); 0] = [];
    assert_eq!(
        Draw::new(&Posture::Talk, 200, &empty).err(),
        Some(DrawError::OutOfSize(0, SPEC_MAX_XY))
    );
}

#[test]
fn draw_cursor_saturates() {
    let cells = full_board();
    let mut d = Draw::new(&Posture::Talk, 200, &cells).unwrap();
    assert_eq!(d.get_position(), 0);
    assert_eq!(d.add_position(3), Some(()));
    assert_eq!(d.get_position(), 3);
    // Exactly onto the last cell.
    assert_eq!(d.add_position(SPEC_MAX_XY - 4), Some(()));
    assert_eq!(d.get_position(), SPEC_MAX_XY - 1);
    // One past the last cell: a no-op returning none.
    assert_eq!(d.add_position(1), None);
    assert_eq!(d.get_position(), SPEC_MAX_XY - 1);
    assert_eq!(d.sub_position(SPEC_MAX_XY - 1), Some(()));
    assert_eq!(d.get_position(), 0);
    // Below zero: a no-op returning none, no wraparound.
    assert_eq!(d.sub_position(1), None);
    assert_eq!(d.get_position(), 0);
}

#[test]
fn draw_accessors() {
    let cells = full_board();
    let d = Draw::new(&Posture::Lying, 350, &cells).unwrap();
    assert_eq!(d.get_duration(), 350);
    assert_eq!(*d.get_posture(), Posture::Lying);
    let (e, t) = d.current().unwrap();
    assert_eq!(e, Emotion::Empty);
    assert_eq!(t.get_glyph(), '\u{e000}');
    assert_eq!(d.get_current_part(), Some(Part::Heart));
    let d0 = Draw::default();
    assert_eq!(*d0.get_posture(), Posture::Empty);
    assert_eq!(d0.get_duration(), 0);
    assert_eq!(d0.current().map(|c| c.0), Some(Emotion::Empty));
}

#[test]
fn draw_set_cell_at_rewrites_nth_match() {
    let mut cells = full_board();
    cells[4] = (Emotion::Empty, Texel::new("Mouth", '\u{e010}').unwrap());
    let mut d = Draw::new(&Posture::Talk, 200, &cells).unwrap();
    let variant = Texel::new("Heart", '\u{e001}').unwrap();
    // The second matching cell (grid order) of part Heart is cell 1.
    d.set_cell_at(1, &variant, &Emotion::Love);
    assert_eq!(d.board.inner[1].0, Emotion::Love);
    assert_eq!(d.board.inner[1].1.get_glyph(), '\u{e001}');
    // Its neighbours are untouched.
    assert_eq!(d.board.inner[0].0, Emotion::Empty);
    assert_eq!(d.board.inner[0].1.get_glyph(), '\u{e000}');
    assert_eq!(d.board.inner[2].0, Emotion::Empty);
    // The Mouth cell is not a match.
    assert_eq!(d.board.inner[4].1.get_glyph(), '\u{e010}');
}

#[test]
fn draw_set_current_applies_variants_positionally() {
    let mut cells = full_board();
    cells[7] = (Emotion::Empty, Texel::new("Mouth", '\u{e010}').unwrap());
    let mut d = Draw::new(&Posture::Talk, 200, &cells).unwrap();
    let variants = vec![
        Texel::new("Heart", '\u{e002}').unwrap(),
        Texel::new("Heart", '\u{e003}').unwrap(),
    ];
    d.set_current((&Emotion::Happy, &variants));
    // The first two Heart cells take the two variants...
    assert_eq!(d.board.inner[0].0, Emotion::Happy);
    assert_eq!(d.board.inner[0].1.get_glyph(), '\u{e002}');
    assert_eq!(d.board.inner[1].0, Emotion::Happy);
    assert_eq!(d.board.inner[1].1.get_glyph(), '\u{e003}');
    // ...later Heart cells, and the Mouth cell, are untouched.
    assert_eq!(d.board.inner[2].0, Emotion::Empty);
    assert_eq!(d.board.inner[2].1.get_glyph(), '\u{e000}');
    assert_eq!(d.board.inner[7].0, Emotion::Empty);
    assert_eq!(d.board.inner[7].1.get_glyph(), '\u{e010}');
    // An empty variant list changes nothing.
    let before: Vec<char> = d.board.inner.iter().map(|c| c.1.get_glyph()).collect();
    d.set_current((&Emotion::Angry, &Vec::new()));
    let after: Vec<char> = d.board.inner.iter().map(|c| c.1.get_glyph()).collect();
    assert_eq!(before, after);
}

#[test]
fn tuple_packs_part_and_emotion() {
    let t = Tuple::from((Part::Heart, Emotion::Love));
    assert_eq!(t.part, Part::Heart);
    assert_eq!(t.emotion, Emotion::Love);
    assert_eq!(t, Tuple { part: Part::Heart, emotion: Emotion::Love });
}
