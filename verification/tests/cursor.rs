use sqlfront::parser::error::PError;
use sqlfront::parser::input::{IResult, Input};
use sqlfront::parser::to_chars;
use sqlfront::parser::token::{identifier, keyword, symbol, word_is, word_len};

#[test]
fn to_chars_keeps_every_character() {
    assert_eq!(to_chars("a é\n"), vec!['a', ' ', 'é', '\n']);
    assert!(to_chars("").is_empty());
}

#[test]
fn cursor_peeks_and_advances() {
    let chars = to_chars("ab c");
    let input = Input::new(&chars);
    assert_eq!(input.offset(), 0);
    assert_eq!(input.remaining(), 4);
    assert_eq!(input.peek(), Some('a'));
    assert_eq!(input.peek_at(1), Some('b'));
    assert_eq!(input.peek_at(4), None);
    let next = input.advance(3);
    assert_eq!(next.offset(), 3);
    assert_eq!(next.peek(), Some('c'));
    assert_eq!(next.remaining_text(), "c");
    assert_eq!(input.take_text(2), "ab");
    // the cursor that was advanced from is unchanged
    assert_eq!(input.offset(), 0);
    let end = input.advance(4);
    assert_eq!(end.peek(), None);
    assert_eq!(end.remaining(), 0);
    assert_eq!(end.remaining_text(), "");
}

#[test]
fn cursor_skips_blanks_and_comments() {
    let chars = to_chars(" \t\r\n-- note\n  --x\n a");
    let input = Input::new(&chars).skip_trivia();
    assert_eq!(input.peek(), Some('a'));
    assert_eq!(input.remaining(), 1);
    let chars = to_chars("- a");
    assert_eq!(Input::new(&chars).skip_trivia().offset(), 0);
    let chars = to_chars("  -- to the end");
    assert_eq!(Input::new(&chars).skip_trivia().remaining(), 0);
    let chars = to_chars("a  ");
    assert_eq!(Input::new(&chars).skip_trivia().offset(), 0);
    let chars = to_chars("/* one */ /**/\n/* two\nlines -- */x");
    assert_eq!(Input::new(&chars).skip_trivia().peek(), Some('x'));
    let chars = to_chars(" /*/ a");
    assert_eq!(Input::new(&chars).skip_trivia().offset(), 1);
    let chars = to_chars("-- /* \n a */");
    assert_eq!(Input::new(&chars).skip_trivia().peek(), Some('a'));
    let chars = to_chars("/ * a");
    assert_eq!(Input::new(&chars).skip_trivia().offset(), 0);
}

#[test]
fn cursor_reports_line_and_column() {
    let chars = to_chars("ab\ncd\n\nxyz");
    let input = Input::new(&chars);
    assert_eq!(input.line_column(), (0, 0));
    assert_eq!(input.advance(2).line_column(), (0, 2));
    assert_eq!(input.advance(3).line_column(), (1, 0));
    assert_eq!(input.advance(5).line_column(), (1, 2));
    assert_eq!(input.advance(7).line_column(), (3, 0));
    assert_eq!(input.advance(10).line_column(), (3, 3));
}

#[test]
fn words_and_keywords() {
    let chars = to_chars("from_1 x");
    let input = Input::new(&chars);
    assert_eq!(word_len(input), 6);
    assert_eq!(word_len(input.advance(6)), 0);
    let chars = to_chars("  FrOm t");
    let input = Input::new(&chars);
    let rest = keyword(input, "FROM").unwrap();
    assert_eq!(rest.offset(), 6);
    assert!(keyword(input, "WHERE").is_none());
    assert!(word_is(input.advance(2), 4, "FROM"));
    assert!(!word_is(input.advance(2), 4, "FROG"));
    assert!(!word_is(input.advance(2), 3, "FROM"));
    // a keyword is a whole word
    let chars = to_chars("FROMAGE");
    assert!(keyword(Input::new(&chars), "FROM").is_none());
}

#[test]
fn symbols() {
    let chars = to_chars("  ( a");
    let input = Input::new(&chars);
    assert_eq!(symbol(input, '(').unwrap().offset(), 3);
    assert!(symbol(input, ')').is_none());
    let chars = to_chars("");
    assert!(symbol(Input::new(&chars), '(').is_none());
}

#[test]
fn identifiers() {
    let chars = to_chars(" _a1 b");
    let (rest, name) = identifier(Input::new(&chars)).unwrap();
    assert_eq!(name.value, "_a1");
    assert_eq!(rest.offset(), 4);
    for text in ["1a", "select", "Window", "", "(a)", "é"] {
        let chars = to_chars(text);
        let failure = identifier(Input::new(&chars)).unwrap_err();
        assert_eq!(failure.0, "expected identifier at offset 0");
    }
    let chars = to_chars("a\n  42");
    let failure = identifier(Input::new(&chars).advance(1)).unwrap_err();
    assert_eq!(failure.0, "expected identifier at offset 4");
    {
    }
}

#[test]
fn error_model() {
    let failed: IResult<u8> = PError::from("expected something");
    assert_eq!(failed.unwrap_err().0, "expected something");
    let long = to_chars(&"x".repeat(1234));
    for (offset, message) in [
        (0, "here at offset 0"),
        (9, "here at offset 9"),
        (10, "here at offset 10"),
        (107, "here at offset 107"),
        (1234, "here at offset 1234"),
    ] {
        assert_eq!(PError::at("here", Input::new(&long).advance(offset)).0, message);
    }
    let chars = to_chars("x");
    let input = Input::new(&chars);
    let generic = PError::from_error_kind(input, nom::error::ErrorKind::Tag);
    assert_eq!(generic.0, "parse error");
    let inner = PError(String::from("inner"));
    let kept = PError::append(input, nom::error::ErrorKind::Alt, inner);
    assert_eq!(kept.0, "inner");
}
