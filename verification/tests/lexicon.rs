use graphic::{Emotion, EmotionError, Part, PartError, Posture, PostureError, Sheet, SheetError};

#[test]
fn part_new_known_names() {
    assert_eq!(Part::new("Heart"), Ok(Part::Heart));
    assert_eq!(Part::new("ArmLeft"), Ok(Part::ArmLeft));
    assert_eq!(Part::new("ArmRight"), Ok(Part::ArmRight));
    assert_eq!(Part::new("Boobs"), Ok(Part::Boobs));
    assert_eq!(Part::new("Clavicle"), Ok(Part::Clavicle));
    assert_eq!(Part::new("EarLeft"), Ok(Part::EarLeft));
    assert_eq!(Part::new("EarRight"), Ok(Part::EarRight));
    assert_eq!(Part::new("EyeLeft"), Ok(Part::EyeLeft));
    assert_eq!(Part::new("EyeRight"), Ok(Part::EyeRight));
    assert_eq!(Part::new("HairTop"), Ok(Part::HairTop));
    assert_eq!(Part::new("HairLeft"), Ok(Part::HairLeft));
    assert_eq!(Part::new("HairRight"), Ok(Part::HairRight));
    assert_eq!(Part::new("HandLeft"), Ok(Part::HandLeft));
    assert_eq!(Part::new("HandRight"), Ok(Part::HandRight));
    assert_eq!(Part::new("Mouth"), Ok(Part::Mouth));
    assert_eq!(Part::new("Tail"), Ok(Part::Tail));
    assert_eq!(Part::new("Bell"), Ok(Part::Bell));
    assert_eq!(Part::new("ExclamationMark"), Ok(Part::ExclamationMark));
    assert_eq!(Part::new("ExclamationMarks"), Ok(Part::ExclamationMarks));
    assert_eq!(Part::new("Hearts"), Ok(Part::Hearts));
    assert_eq!(Part::new("Lantern"), Ok(Part::Lantern));
    assert_eq!(Part::new("QuestionMark"), Ok(Part::QuestionMark));
    assert_eq!(Part::new("QuestionMarks"), Ok(Part::QuestionMarks));
    assert_eq!(Part::new("WoolBall"), Ok(Part::WoolBall));
    assert_eq!(Part::new("None"), Ok(Part::Empty));
}

#[test]
fn part_new_unknown_name_is_rejected() {
    // An unknown name never panics and never defaults silently.
    assert_eq!(
        Part::new("Bogus"),
        Err(PartError::UnknownPart(String::from("Bogus")))
    );
    // Matching is exact and case-sensitive.
    assert_eq!(
        Part::new("heart"),
        Err(PartError::UnknownPart(String::from("heart")))
    );
    assert_eq!(Part::new(""), Err(PartError::UnknownPart(String::new())));
}

#[test]
fn part_codes_and_sentinel() {
    assert_eq!(Part::Heart.get_code(), "He");
    assert_eq!(Part::ArmLeft.get_code(), "Ml");
    assert_eq!(Part::Empty.get_code(), "__");
    assert_eq!(Part::default(), Part::Empty);
    assert_eq!(Part::Empty.not_empty(), None);
    assert_eq!(Part::Tail.not_empty(), Some(&Part::Tail));
}

#[test]
fn emotion_new_and_classify() {
    assert_eq!(Emotion::new("Angry"), Ok(Emotion::Angry));
    assert_eq!(Emotion::new("Happy"), Ok(Emotion::Happy));
    assert_eq!(Emotion::new("Love"), Ok(Emotion::Love));
    assert_eq!(Emotion::new("Malicious"), Ok(Emotion::Malicious));
    assert_eq!(Emotion::new("Misunderstanding"), Ok(Emotion::Misunderstanding));
    assert_eq!(Emotion::new("Shocked"), Ok(Emotion::Shocked));
    assert_eq!(Emotion::new("Sleepy"), Ok(Emotion::Sleepy));
    assert_eq!(Emotion::new("Speechless"), Ok(Emotion::Speechless));
    assert_eq!(Emotion::new("None"), Ok(Emotion::Empty));
    assert_eq!(
        Emotion::new("Joyful"),
        Err(EmotionError::UnknownEmotion(String::from("Joyful")))
    );
    assert!(Emotion::Empty.is_none());
    assert!(!Emotion::Happy.is_none());
    assert_eq!(Emotion::Empty.not_empty(), None);
    assert_eq!(Emotion::Love.not_empty(), Some(&Emotion::Love));
    assert_eq!(Emotion::default(), Emotion::Empty);
}

#[test]
fn posture_new_names() {
    assert_eq!(Posture::new("Talk"), Ok(Posture::Talk));
    assert_eq!(Posture::new("NotTalk"), Ok(Posture::NotTalk));
    assert_eq!(Posture::new("Bust"), Ok(Posture::Bust));
    assert_eq!(Posture::new("Lying"), Ok(Posture::Lying));
    assert_eq!(Posture::new("Seiza"), Ok(Posture::Seiza));
    assert_eq!(Posture::new("None"), Ok(Posture::Empty));
    assert_eq!(
        Posture::new("Stand"),
        Err(PostureError::UnknownPosture(String::from("Stand")))
    );
    assert_eq!(Posture::default(), Posture::Empty);
}

#[test]
fn sheet_new_and_get_name() {
    assert_eq!(Sheet::new("Talk"), Ok(Sheet::Talk));
    assert_eq!(Sheet::new("NotTalk"), Ok(Sheet::NotTalk));
    assert_eq!(Sheet::new("Bust"), Ok(Sheet::Bust));
    assert_eq!(Sheet::new("Lying"), Ok(Sheet::Lying));
    assert_eq!(Sheet::new("Seiza"), Ok(Sheet::Seiza));
    assert_eq!(Sheet::new("None"), Ok(Sheet::Empty));
    assert_eq!(
        Sheet::new("Sit"),
        Err(SheetError::UnknownSheet(String::from("Sit")))
    );
    assert_eq!(Sheet::Talk.get_name(), "Talk");
    assert_eq!(Sheet::Empty.get_name(), "None");
    assert_eq!(Sheet::default(), Sheet::Empty);
}
