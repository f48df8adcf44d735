use graphic::text::{SepMode, find_first_char, parse_i64, str_eq, tokenize};
use graphic::util::init;
use graphic::Cursor;

#[test]
fn str_eq_compares_by_characters() {
    assert!(str_eq("Heart", "Heart"));
    assert!(!str_eq("Heart", "Hearts"));
    assert!(!str_eq("Heart", "heart"));
    assert!(str_eq("", ""));
    assert!(str_eq("\u{e000}a", "\u{e000}a"));
}

#[test]
fn tokenize_by_mode() {
    assert_eq!(
        tokenize("Heart(\u{e000},\u{e001})", SepMode::Glyphs),
        vec!["Heart", "\u{e000}", "\u{e001}"]
    );
    assert_eq!(
        tokenize(":None [Talk,Seiza]", SepMode::Names),
        vec!["None", "Talk", "Seiza"]
    );
    assert_eq!(
        tokenize("Talk 200\nHeart:None ;", SepMode::Sprite),
        vec!["Talk", "200", "Heart", "None"]
    );
    assert_eq!(
        tokenize("a\n\nb\r\nc", SepMode::Lines),
        vec!["a", "b", "c"]
    );
    assert_eq!(tokenize("", SepMode::Sprite), Vec::<&str>::new());
    assert_eq!(tokenize(" :: ", SepMode::Sprite), Vec::<&str>::new());
}

#[test]
fn parse_i64_exact() {
    assert_eq!(parse_i64("200"), Some(200));
    assert_eq!(parse_i64("0"), Some(0));
    assert_eq!(parse_i64("-42"), Some(-42));
    assert_eq!(parse_i64("9223372036854775807"), Some(i64::MAX));
    assert_eq!(parse_i64("-9223372036854775808"), Some(i64::MIN));
    assert_eq!(parse_i64("9223372036854775808"), None);
    assert_eq!(parse_i64("-9223372036854775809"), None);
    assert_eq!(parse_i64(""), None);
    assert_eq!(parse_i64("-"), None);
    assert_eq!(parse_i64("1a"), None);
    assert_eq!(parse_i64("soon"), None);
}

#[test]
fn find_first_char_returns_first() {
    assert_eq!(find_first_char("a:b:c", ':'), Some(1));
    assert_eq!(find_first_char("abc", ':'), None);
    assert_eq!(find_first_char(":x", ':'), Some(0));
}

#[test]
fn cursor_wraps_a_value() {
    let mut c = Cursor::new(7u8);
    assert_eq!(c.position(), 0);
    assert_eq!(*c.get_ref(), 7);
    c.set_position(3);
    assert_eq!(c.position(), 3);
    *c.get_mut() = 9;
    assert_eq!(c.into_inner(), 9);
}

#[test]
fn init_appends_present_values() {
    assert_eq!(init(Some(3), vec![1, 2]), vec![1, 2, 3]);
    assert_eq!(init(None, vec![1, 2]), vec![1, 2]);
}
