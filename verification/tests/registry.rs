use graphic::{
    Emotion, EmotionError, Graphic, GraphicError, Part, PartError, Posture, PostureError,
    SPEC_MAX_XY, Sheet, SheetError, TexelError, Tuple,
};

fn heart_catalog() -> Graphic {
    let mut g = Graphic::default();
    g.insert_from_texelfile("Heart(\u{e000}):None [Talk]").unwrap();
    g
}

fn talk_sprite_content() -> String {
    let mut content = String::from("Talk 200\n");
    for _ in 0..SPEC_MAX_XY {
        content.push_str("Heart:None ");
    }
    content.push(';');
    content
}

#[test]
fn example_end_to_end() {
    // One catalog line, then a one-frame sprite file of fifty Heart:None
    // pairs, registered under the file's base name.
    let mut g = heart_catalog();
    g.insert_from_spritefile("Talk", &talk_sprite_content()).unwrap();

    let sprite = g.get_sprite(&Sheet::Talk).expect("sprite registered under Talk");
    assert_eq!(sprite.sheet.inner.len(), 1);
    let draw = &sprite.sheet.inner[0];
    assert_eq!(draw.get_duration(), 200);
    assert_eq!(*draw.get_posture(), Posture::Talk);
    // The first two cells both carry part Heart, emotion None, glyph U+E000.
    for cell in &draw.board.inner[..2] {
        assert_eq!(cell.0, Emotion::Empty);
        assert_eq!(*cell.1.get_part(), Part::Heart);
        assert_eq!(cell.1.get_glyph(), '\u{e000}');
    }
    let emotions = g.get_emotion_list(&Posture::Talk, &Part::Heart).unwrap();
    assert_eq!(emotions, vec![Emotion::Empty]);
}

#[test]
fn catalog_round_trip_scenario() {
    // Every (posture, glyph) combination of an accepted line is retrievable
    // under its (part, emotion) key with the parsed glyph.
    let mut g = Graphic::default();
    g.insert_from_texelfile("Heart(\u{e000},\u{e001}):Love [Talk,Seiza]").unwrap();
    let key = Tuple { part: Part::Heart, emotion: Emotion::Love };
    for posture in [Posture::Talk, Posture::Seiza] {
        let texels = g.get_texel(&posture, &key).expect("registered");
        let glyphs: Vec<char> = texels.iter().map(|t| t.get_glyph()).collect();
        assert_eq!(glyphs, vec!['\u{e000}', '\u{e001}']);
        assert!(texels.iter().all(|t| *t.get_part() == Part::Heart));
    }
    assert_eq!(g.get_texel(&Posture::Lying, &key), None);
    assert_eq!(
        g.get_texel(&Posture::Talk, &Tuple { part: Part::Mouth, emotion: Emotion::Love }),
        None
    );
}

#[test]
fn catalog_line_syntax_errors() {
    let mut g = Graphic::default();
    // No colon.
    assert_eq!(
        g.insert_from_texelfile("Heart(\u{e000}) None [Talk]"),
        Err(GraphicError::SyntaxTexel(String::from("Heart(\u{e000}) None [Talk]")))
    );
    // An empty leading group.
    assert_eq!(
        g.insert_from_texelfile("  :None [Talk]"),
        Err(GraphicError::SyntaxTexel(String::from("  :None [Talk]")))
    );
    // Blank lines are skipped; later lines still load.
    g.insert_from_texelfile("\n\nHeart(\u{e000}):None [Talk]\n").unwrap();
    assert!(g.get_texel(&Posture::Talk, &Tuple { part: Part::Heart, emotion: Emotion::Empty }).is_some());
}

#[test]
fn catalog_line_typed_errors() {
    let mut g = Graphic::default();
    assert_eq!(
        g.insert_from_texelfile("Heart(\u{e000}):None [Floating]"),
        Err(GraphicError::Posture(PostureError::UnknownPosture(String::from("Floating"))))
    );
    assert_eq!(
        g.insert_from_texelfile("Heart(x):None [Talk]"),
        Err(GraphicError::Texel(TexelError::ForbiddenGlyph('x')))
    );
    assert_eq!(
        g.insert_from_texelfile("Fin(\u{e000}):None [Talk]"),
        Err(GraphicError::Texel(TexelError::PartFail(PartError::UnknownPart(String::from(
            "Fin"
        )))))
    );
    assert_eq!(
        g.insert_from_texelfile("Heart(\u{e000}):Giddy [Talk]"),
        Err(GraphicError::Emotion(EmotionError::UnknownEmotion(String::from("Giddy"))))
    );
    // An error line registers nothing.
    assert_eq!(
        g.get_texel(&Posture::Talk, &Tuple { part: Part::Heart, emotion: Emotion::Empty }),
        None
    );
    // The first failing line aborts the file; the line before it stays.
    let two = "Heart(\u{e000}):None [Talk]\nHeart(y):None [Talk]";
    assert_eq!(
        g.insert_from_texelfile(two),
        Err(GraphicError::Texel(TexelError::ForbiddenGlyph('y')))
    );
    assert!(g.get_texel(&Posture::Talk, &Tuple { part: Part::Heart, emotion: Emotion::Empty }).is_some());
}

#[test]
fn sprite_file_typed_errors() {
    let mut g = heart_catalog();
    // An unknown posture token.
    assert_eq!(
        g.insert_from_spritefile("Talk", "Flying 200 Heart:None"),
        Err(GraphicError::Posture(PostureError::UnknownPosture(String::from("Flying"))))
    );
    // Tokens that do not split into whole frame chunks.
    assert_eq!(
        g.insert_from_spritefile("Talk", "Talk 200 Heart:None"),
        Err(GraphicError::SpriteSplitFirst(String::from("Talk")))
    );
    // A duration that is not a number.
    let bad_duration = talk_sprite_content().replace("200", "soon");
    assert_eq!(
        g.insert_from_spritefile("Talk", &bad_duration),
        Err(GraphicError::SpriteSplitFirst(String::from("soon")))
    );
    // An unknown part name inside a pair.
    let bad_part = talk_sprite_content().replacen("Heart:None", "Fin:None", 1);
    assert_eq!(
        g.insert_from_spritefile("Talk", &bad_part),
        Err(GraphicError::Part(PartError::UnknownPart(String::from("Fin"))))
    );
    // An unknown emotion name inside a pair.
    let bad_emotion = talk_sprite_content().replacen("Heart:None", "Heart:Giddy", 1);
    assert_eq!(
        g.insert_from_spritefile("Talk", &bad_emotion),
        Err(GraphicError::Emotion(EmotionError::UnknownEmotion(String::from("Giddy"))))
    );
    // A pair with no texel registered under the posture.
    let unresolved = talk_sprite_content().replacen("Heart:None", "Mouth:None", 1);
    assert_eq!(
        g.insert_from_spritefile("Talk", &unresolved),
        Err(GraphicError::FoundTexel(String::from("Mouth:None")))
    );
    // A base name outside the sheet table.
    assert_eq!(
        g.insert_from_spritefile("Scribble", &talk_sprite_content()),
        Err(GraphicError::Sheet(SheetError::UnknownSheet(String::from("Scribble"))))
    );
    // A rejected file registers nothing.
    assert!(g.get_sprite(&Sheet::Talk).is_none());
    // An empty file registers an empty sprite.
    g.insert_from_spritefile("Lying", "").unwrap();
    let sp = g.get_sprite(&Sheet::Lying).unwrap();
    assert_eq!(sp.sheet.inner.len(), 0);
}

#[test]
fn sprite_file_missing_catalog_posture_is_unresolved() {
    // Without any catalog entry for the posture, the first pair already
    // fails to resolve.
    let mut g = Graphic::default();
    assert_eq!(
        g.insert_from_spritefile("Talk", &talk_sprite_content()),
        Err(GraphicError::FoundTexel(String::from("Heart:None")))
    );
}

#[test]
fn registry_navigation() {
    let mut g = heart_catalog();
    g.insert_from_texelfile("Heart(\u{e000}):None [Lying]").unwrap();
    g.insert_from_spritefile("Talk", &talk_sprite_content()).unwrap();
    let lying = talk_sprite_content().replace("Talk", "Lying");
    g.insert_from_spritefile("Lying", &lying).unwrap();
    g.insert_from_spritefile("Seiza", "").unwrap();

    assert_eq!(g.get_current_sprite().unwrap().0, Sheet::Talk);
    g.add_position(1);
    assert_eq!(g.get_current_sprite().unwrap().0, Sheet::Lying);
    // Forward past the last sprite: a saturating no-op.
    g.add_position(5);
    assert_eq!(g.get_current_sprite().unwrap().0, Sheet::Lying);
    g.add_position(1);
    assert_eq!(g.get_current_sprite().unwrap().0, Sheet::Seiza);
    // Backward past the first sprite wraps to the last.
    g.sub_position(3);
    assert_eq!(g.get_current_sprite().unwrap().0, Sheet::Seiza);
    g.start_position(0);
    assert_eq!(g.get_current_sprite().unwrap().0, Sheet::Talk);
    g.end_position(1);
    assert_eq!(g.get_current_sprite().unwrap().0, Sheet::Lying);
    g.end_position(0);
    assert_eq!(g.get_current_sprite().unwrap().0, Sheet::Seiza);

    assert_eq!(g.get_posture(&Sheet::Lying), Some(&Posture::Lying));
    // The registered-but-empty sprite has no posture to report.
    assert_eq!(g.get_posture(&Sheet::Seiza), None);
    assert_eq!(g.get_posture(&Sheet::Bust), None);
    assert!(g.get_sprite(&Sheet::Bust).is_none());
}

#[test]
fn registry_cell_navigation_delegates() {
    let mut g = heart_catalog();
    let two_frames = {
        let mut c = talk_sprite_content().replace(";", "");
        c.push_str("300 ");
        for _ in 0..SPEC_MAX_XY {
            c.push_str("Heart:None ");
        }
        c
    };
    g.insert_from_spritefile("Talk", &two_frames).unwrap();
    g.add_position_sprite_draw(SPEC_MAX_XY - 1);
    {
        let sp = &g.get_current_sprite().unwrap().1;
        assert_eq!(sp.sheet.position(), 0);
        assert_eq!(sp.sheet.inner[0].get_position(), SPEC_MAX_XY - 1);
    }
    // Past the last cell: the frame cursor advances instead.
    g.add_position_sprite_draw(1);
    {
        let sp = &g.get_current_sprite().unwrap().1;
        assert_eq!(sp.sheet.position(), 1);
    }
    g.sub_position_sprite(1);
    {
        let sp = &g.get_current_sprite().unwrap().1;
        assert_eq!(sp.sheet.position(), 0);
    }
    g.add_position_sprite(1);
    {
        let sp = &g.get_current_sprite().unwrap().1;
        assert_eq!(sp.sheet.position(), 1);
    }
}

#[test]
fn emotion_cycling_at_current_cell() {
    let mut g = Graphic::default();
    g.insert_from_texelfile("Heart(\u{e000}):None [Talk]\nHeart(\u{e004}):Love [Talk]")
        .unwrap();
    g.insert_from_spritefile("Talk", &talk_sprite_content()).unwrap();

    // Two (emotion, variants) pairs are registered for the focused part.
    let cells = g.get_cell_list(&Posture::Talk, &Part::Heart).unwrap();
    assert_eq!(cells.len(), 2);
    assert_eq!(cells[0].0, Emotion::Empty);
    assert_eq!(cells[1].0, Emotion::Love);
    assert_eq!(cells[1].1[0].get_glyph(), '\u{e004}');

    let pair = g.get_current_cell_number(1).unwrap();
    assert_eq!(pair.0, Emotion::Love);
    assert_eq!(pair.1[0].get_glyph(), '\u{e004}');
    assert_eq!(g.get_current_cell_number(2), None);

    // Applying pair 1 rewrites the first Heart cell of the pointed frame.
    g.set_current_emotion(1);
    let sp = &g.get_current_sprite().unwrap().1;
    assert_eq!(sp.sheet.inner[0].board.inner[0].0, Emotion::Love);
    assert_eq!(sp.sheet.inner[0].board.inner[0].1.get_glyph(), '\u{e004}');
    // One variant only: the second Heart cell keeps its glyph.
    assert_eq!(sp.sheet.inner[0].board.inner[1].0, Emotion::Empty);
    assert_eq!(sp.sheet.inner[0].board.inner[1].1.get_glyph(), '\u{e000}');
}

#[test]
fn get_cell_and_set_cell_draw() {
    let mut g = Graphic::default();
    g.insert_from_texelfile("Heart(\u{e000}):None [Talk]\nHeart(\u{e004}):Love [Talk]")
        .unwrap();
    g.insert_from_spritefile("Talk", &talk_sprite_content()).unwrap();

    let (key, texels) = g.get_cell(1).unwrap();
    assert_eq!(key, Tuple { part: Part::Heart, emotion: Emotion::Love });
    assert_eq!(texels[0].get_glyph(), '\u{e004}');
    assert_eq!(g.get_cell(2), None);

    g.set_cell_draw(1);
    let sp = &g.get_current_sprite().unwrap().1;
    assert_eq!(sp.sheet.inner[0].board.inner[0].0, Emotion::Love);
    assert_eq!(sp.sheet.inner[0].board.inner[0].1.get_glyph(), '\u{e004}');
}

#[test]
fn explicite_emotion_by_sheet() {
    let mut g = Graphic::default();
    g.insert_from_texelfile("Heart(\u{e000}):None [Talk]\nHeart(\u{e004}):Love [Talk]")
        .unwrap();
    g.insert_from_spritefile("Talk", &talk_sprite_content()).unwrap();
    let love = Tuple { part: Part::Heart, emotion: Emotion::Love };
    let empty_key = Tuple { part: Part::Empty, emotion: Emotion::Empty };
    let mut row = [empty_key; SPEC_MAX_XY];
    row[0] = love;
    let change = [row; graphic::SPEC_MAX_DRAW];
    {
        let sp = g.explicite_emotion(&Sheet::Talk, &change).unwrap();
        assert_eq!(sp.sheet.inner[0].board.inner[0].0, Emotion::Love);
        assert_eq!(sp.sheet.inner[0].board.inner[0].1.get_glyph(), '\u{e004}');
    }
    assert!(g.explicite_emotion(&Sheet::Bust, &change).is_none());
}

#[test]
fn catalog_line_with_plain_letter_glyph_is_rejected() {
    // A glyph outside the reserved private-use block fails the line, even
    // when every name is known.
    let mut g = Graphic::default();
    assert_eq!(
        g.insert_from_texelfile("None('s'):None [Talk, Talk]"),
        Err(GraphicError::Texel(TexelError::ForbiddenGlyph('s')))
    );
}

#[test]
fn sprite_file_frames_are_bounded() {
    let mut g = heart_catalog();
    let mut content = String::from("Talk");
    for f in 0..(graphic::SPEC_MAX_DRAW + 1) {
        content.push_str(&format!(" {}", 100 + f));
        for _ in 0..SPEC_MAX_XY {
            content.push_str(" Heart:None");
        }
    }
    g.insert_from_spritefile("Talk", &content).unwrap();
    let sp = g.get_sprite(&Sheet::Talk).unwrap();
    // The frame past the limit is dropped.
    assert_eq!(sp.sheet.inner.len(), graphic::SPEC_MAX_DRAW);
    assert_eq!(sp.sheet.inner[0].get_duration(), 100);
    assert_eq!(
        sp.sheet.inner[graphic::SPEC_MAX_DRAW - 1].get_duration(),
        (100 + graphic::SPEC_MAX_DRAW - 1) as i64
    );
}

#[test]
fn error_descriptions() {
    assert_eq!(
        GraphicError::SyntaxTexel(String::new()).description(),
        "Unvalid texel syntax."
    );
    assert_eq!(
        GraphicError::FoundTexel(String::new()).description(),
        "Can't found the texel."
    );
    assert_eq!(GraphicError::NekoPath.description(), "Can't found the path of the asset root.");
}
