use fajt::lexer_error::{Error, ErrorKind};
use fajt::reader::Reader;

#[test]
fn new_reader_on_empty_input_fails() {
    let error = Reader::new("").err().unwrap();
    assert_eq!(error, Error::of(ErrorKind::EndOfFile));
}

#[test]
fn reader_walks_characters() {
    let mut reader = Reader::new("ab").ok().unwrap();
    assert_eq!(reader.current(), 'a');
    assert_eq!(reader.peek(), Some('b'));
    assert_eq!(reader.position(), 0);
    assert!(!reader.eof());

    assert_eq!(reader.next().ok(), Some('b'));
    assert_eq!(reader.current(), 'b');
    assert_eq!(reader.peek(), None);
    assert_eq!(reader.position(), 1);

    let error = reader.next().err().unwrap();
    assert_eq!(*error.kind(), ErrorKind::EndOfFile);
    assert!(reader.eof());
    assert_eq!(reader.position(), 2);
    assert_eq!(reader.current(), 'b');

    // At the end of the file the reader stays where it is.
    assert!(reader.next().is_err());
    assert_eq!(reader.position(), 2);
    assert!(reader.consume().is_err());
    assert_eq!(reader.position(), 2);
}

#[test]
fn consume_moves_one_character() {
    let mut reader = Reader::new("xyz").ok().unwrap();
    assert!(reader.consume().is_ok());
    assert_eq!(reader.current(), 'y');
    assert_eq!(reader.position(), 1);
    assert!(reader.consume().is_ok());
    assert!(reader.consume().is_ok());
    assert!(reader.eof());
    assert_eq!(reader.position(), 3);
}

#[test]
fn read_until_stops_on_first_failing_character() {
    let mut reader = Reader::new("abc1 d").ok().unwrap();
    let word = reader.read_until(|c: char| c.is_ascii_alphabetic()).ok().unwrap();
    assert_eq!(word, "abc");
    assert_eq!(reader.current(), '1');
    assert_eq!(reader.position(), 3);
    assert!(!reader.eof());
}

#[test]
fn read_until_keeps_the_current_character() {
    let mut reader = Reader::new("1ab").ok().unwrap();
    let text = reader.read_until(|c: char| c.is_ascii_alphabetic()).ok().unwrap();
    assert_eq!(text, "1ab");
    assert!(reader.eof());
    assert_eq!(reader.position(), 3);
}

#[test]
fn read_until_at_end_of_file() {
    let mut reader = Reader::new("é!").ok().unwrap();
    let text = reader.read_until(|_c: char| true).ok().unwrap();
    assert_eq!(text, "é!");
    assert!(reader.eof());
    let again = reader.read_until(|_c: char| true).ok().unwrap();
    assert_eq!(again, "!");
    assert_eq!(reader.position(), 2);
}

#[test]
fn position_counts_characters_not_bytes() {
    let mut reader = Reader::new("éa").ok().unwrap();
    assert_eq!(reader.current(), 'é');
    assert_eq!(reader.peek(), Some('a'));
    assert_eq!(reader.next().ok(), Some('a'));
    assert_eq!(reader.position(), 1);
    assert!(!reader.eof());
}

#[test]
fn k_moves_give_position_min_k_n() {
    let input = "héllo";
    let n = input.chars().count();
    for k in 0..9 {
        let mut reader = Reader::new(input).ok().unwrap();
        for i in 0..k {
            if i % 2 == 0 {
                let _ = reader.next();
            } else {
                let _ = reader.consume();
            }
        }
        assert_eq!(reader.position(), k.min(n));
        assert_eq!(reader.eof(), k >= n);
        assert_eq!(reader.current(), input.chars().nth(k.min(n - 1)).unwrap());
        assert_eq!(reader.peek(), input.chars().nth(k + 1));
        assert_eq!(reader.position(), k.min(n));
    }
}
