use jenner::parser::{Buf, BufCursor, ParseError, Parser, Tag};

#[test]
fn test_parse() {
    let input = b"foobar".to_vec();
    let (buf, cur) = Buf::new(input);
    let buffer = BufCursor { buf, cur };

    let (buffer, foo) = Tag::new(b"foo".to_vec()).parse(buffer).unwrap();
    let (_buffer, bar) = Tag::new(b"bar".to_vec()).parse(buffer).unwrap();

    assert_eq!(foo.bytes, (0, 3));
    assert_eq!(bar.bytes, (3, 6));
}

#[test]
fn ensure_eof_reported() {
    let (mut buf, _cur) = Buf::new(b"ab".to_vec());
    assert_eq!(buf.ensure(2), Ok(()));
    assert_eq!(buf.ensure(3), Err(ParseError::UnexpectedEof));
}

#[test]
fn parse_past_end_fails() {
    let (buf, cur) = Buf::new(b"fo".to_vec());
    let buffer = BufCursor { buf, cur };
    match Tag::new(b"foo".to_vec()).parse(buffer) {
        Err(ParseError::UnexpectedEof) => {}
        Ok(_) => panic!("a tag longer than the input must fail"),
    }
}

#[test]
fn span_view_bytes() {
    let (buf, cur) = Buf::new(b"header:rest".to_vec());
    let buffer = BufCursor { buf, cur };
    let (buffer, span) = Tag::new(b"header".to_vec()).parse(buffer).unwrap();
    assert_eq!(span.view_bytes(&buffer.buf), b"header".to_vec());
}

#[test]
fn cursor_advances_across_parses() {
    let (buf, cur) = Buf::new(b"aabbcc".to_vec());
    let buffer = BufCursor { buf, cur };
    let (buffer, a) = Tag::new(b"aa".to_vec()).parse(buffer).unwrap();
    let (buffer, b) = Tag::new(b"bb".to_vec()).parse(buffer).unwrap();
    let (_buffer, c) = Tag::new(b"cc".to_vec()).parse(buffer).unwrap();
    assert_eq!(a.bytes, (0, 2));
    assert_eq!(b.bytes, (2, 4));
    assert_eq!(c.bytes, (4, 6));
}
