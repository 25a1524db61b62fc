//! Parsing, validation, backtracking and repetition against byte cursors.

use destruct::examples::validated::{Identifier, Test, TestEnum, TestEnum2};
use destruct::{
    parse, parse_structural, Cursor, Destruct, EnumParseError, IsAsciiDigit, IsAsciiLowerCase,
    IsAsciiUpperCase, ParseError, Parsable, Validated, ValidateError,
};

#[test]
fn test_simple() {
    let s = b"a";
    let d = b"2";
    let result = Validated::<u8, IsAsciiDigit>::parse(&mut Cursor::new(s.to_vec()));
    assert!(result.is_err());
    let result = Validated::<u8, IsAsciiDigit>::parse(&mut Cursor::new(d.to_vec()));
    assert_eq!(result.unwrap(), Validated::new(b'2'));
}

#[test]
fn test_struct() {
    let ab = b"a2";
    let result: Test = Test::parse(&mut Cursor::new(ab.to_vec())).unwrap();
    assert_eq!(
        result,
        Test {
            a: Validated::new(b'a'),
            b: Validated::new(b'2'),
        }
    )
}

#[test]
fn test_parse_enum() {
    let s1 = b"a1";
    let s2 = b"aa";
    let s3 = b"1a";

    let result = TestEnum::parse(&mut Cursor::new(s1.to_vec())).unwrap();
    assert_eq!(
        result,
        TestEnum::CaseA(Validated::new(b'a'), Validated::new(b'1'))
    );
    let result = TestEnum::parse(&mut Cursor::new(s2.to_vec()));
    assert!(result.is_err());
    let result = TestEnum::parse(&mut Cursor::new(s3.to_vec())).unwrap();
    assert_eq!(
        result,
        TestEnum::CaseB {
            a: Validated::new(b'1'),
            b: Validated::new(b'a')
        }
    );
}

#[test]
fn test_parse_enum_same_initial() {
    let s1 = b"a1";
    let s2 = b"aa";
    let s3 = b"1a";

    let result = TestEnum2::parse(&mut Cursor::new(s1.to_vec())).unwrap();
    assert_eq!(
        result,
        TestEnum2::CaseA(Validated::new(b'a'), Validated::new(b'1'))
    );
    let result = TestEnum2::parse(&mut Cursor::new(s2.to_vec())).unwrap();
    assert_eq!(
        result,
        TestEnum2::CaseB(Validated::new(b'a'), Validated::new(b'a'))
    );
    let result: Result<TestEnum2, ParseError> = TestEnum2::parse(&mut Cursor::new(s3.to_vec()));
    assert!(result.is_err());
}

#[test]
fn test_identifier() {
    let s1 = b"a1";
    let s2 = b"a12";
    let s3 = b"1a";

    let result = Identifier::parse(&mut Cursor::new(s1.to_vec())).unwrap();
    assert_eq!(
        result,
        Identifier::new(Validated::new(b'a'), vec![Validated::new(b'1')])
    );
    let result = Identifier::parse(&mut Cursor::new(s2.to_vec())).unwrap();
    assert_eq!(
        result,
        Identifier::new(
            Validated::new(b'a'),
            vec![Validated::new(b'1'), Validated::new(b'2')]
        )
    );
    let result = Identifier::parse(&mut Cursor::new(s3.to_vec()));
    assert!(result.is_err())
}

#[test]
fn test_scalar_reads_one_byte() {
    let mut cur = Cursor::new(b"xy".to_vec());
    assert_eq!(u8::parse(&mut cur).unwrap(), b'x');
    assert_eq!(cur.mark(), 1);
    assert_eq!(u8::parse(&mut cur).unwrap(), b'y');
    assert_eq!(cur.mark(), 2);
}

#[test]
fn test_scalar_end_of_input() {
    let mut cur = Cursor::new(Vec::new());
    let r = u8::parse(&mut cur);
    assert!(matches!(r, Err(ParseError::EndOfInput)));
    assert_eq!(cur.mark(), 0);
}

#[test]
fn test_validation_error_names_validator() {
    let mut cur = Cursor::new(b"a".to_vec());
    let r = Validated::<u8, IsAsciiDigit>::parse(&mut cur);
    match r {
        Err(ParseError::Validation(ValidateError(name))) => assert_eq!(name, "IsAsciiDigit"),
        other => panic!("expected a validation failure, got {:?}", other),
    }
}

#[test]
fn test_enum_exhausted_names_enum() {
    let mut cur = Cursor::new(b"aa".to_vec());
    let r = TestEnum::parse(&mut cur);
    match r {
        Err(ParseError::EnumExhausted(EnumParseError(name))) => assert_eq!(name, "TestEnum"),
        other => panic!("expected enum exhaustion, got {:?}", other),
    }
}

#[test]
fn test_upper_case_validator() {
    let r = Validated::<u8, IsAsciiUpperCase>::parse(&mut Cursor::new(b"Q".to_vec()));
    assert_eq!(r.unwrap(), Validated::new(b'Q'));
    let r = Validated::<u8, IsAsciiUpperCase>::parse(&mut Cursor::new(b"q".to_vec()));
    assert!(r.is_err());
    let r = Validated::<u8, IsAsciiLowerCase>::parse(&mut Cursor::new(b"q".to_vec()));
    assert_eq!(r.unwrap(), Validated::new(b'q'));
}

#[test]
fn test_rewind_after_failed_validation() {
    let mut cur = Cursor::new(b"ab".to_vec());
    let before = cur.mark();
    let r = Validated::<u8, IsAsciiDigit>::parse(&mut cur);
    assert!(r.is_err());
    assert_eq!(cur.mark(), before);
    // The same cursor, reparsed with a validator that accepts, consumes
    // exactly one byte.
    let r = Validated::<u8, IsAsciiLowerCase>::parse(&mut cur);
    assert_eq!(r.unwrap(), Validated::new(b'a'));
    assert_eq!(cur.mark(), before + 1);
}

#[test]
fn test_rewind_after_enum_exhaustion() {
    let mut cur = Cursor::new(b"aa".to_vec());
    assert!(TestEnum::parse(&mut cur).is_err());
    assert_eq!(cur.mark(), 0);
    // Parsing the same cursor again consumes the same number of bytes:
    // zero, then a successful parse of another type starts cleanly.
    assert!(TestEnum::parse(&mut cur).is_err());
    assert_eq!(cur.mark(), 0);
    let r = TestEnum2::parse(&mut cur).unwrap();
    assert_eq!(
        r,
        TestEnum2::CaseB(Validated::new(b'a'), Validated::new(b'a'))
    );
    assert_eq!(cur.mark(), 2);
}

#[test]
fn test_backtracking_rewinds_shared_prefix() {
    // Both variants of TestEnum2 start with a lower-case letter.  On
    // "aa" the first variant consumes the letter and then rejects the
    // second byte, so choosing the second variant proves the cursor was
    // rewound past the shared first byte.
    let mut cur = Cursor::new(b"aa".to_vec());
    let r = TestEnum2::parse(&mut cur).unwrap();
    assert_eq!(
        r,
        TestEnum2::CaseB(Validated::new(b'a'), Validated::new(b'a'))
    );
    assert_eq!(cur.mark(), 2);
}

#[test]
fn test_repetition_collects_greedily() {
    let mut cur = Cursor::new(b"12a".to_vec());
    let r = Vec::<Validated<u8, IsAsciiDigit>>::parse(&mut cur).unwrap();
    assert_eq!(r, vec![Validated::new(b'1'), Validated::new(b'2')]);
    assert_eq!(cur.mark(), 2);
}

#[test]
fn test_repetition_never_fails() {
    let mut cur = Cursor::new(Vec::new());
    let r = Vec::<Validated<u8, IsAsciiDigit>>::parse(&mut cur).unwrap();
    assert_eq!(r, Vec::new());
    assert_eq!(cur.mark(), 0);

    let mut cur = Cursor::new(b"abc".to_vec());
    let r = Vec::<Validated<u8, IsAsciiDigit>>::parse(&mut cur).unwrap();
    assert_eq!(r.len(), 0);
    assert_eq!(cur.mark(), 0);
}

#[test]
fn test_parse_entry_points() {
    let mut cur = Cursor::new(b"a2".to_vec());
    let direct: Test = parse(&mut cur).unwrap();
    assert_eq!(
        direct,
        Test {
            a: Validated::new(b'a'),
            b: Validated::new(b'2'),
        }
    );
    let mut cur = Cursor::new(b"b7".to_vec());
    let structural: Test = parse_structural(&mut cur).unwrap();
    assert_eq!(
        structural,
        Test {
            a: Validated::new(b'b'),
            b: Validated::new(b'7'),
        }
    );
}

#[test]
fn test_cursor_snapshot_restore() {
    let mut cur = Cursor::new(b"abc".to_vec());
    assert_eq!(cur.read_byte(), Some(b'a'));
    let snap = cur.mark();
    assert_eq!(cur.read_byte(), Some(b'b'));
    assert_eq!(cur.read_byte(), Some(b'c'));
    assert_eq!(cur.read_byte(), None);
    cur.restore(snap);
    assert_eq!(cur.read_byte(), Some(b'b'));
}

#[test]
fn test_identifier_round_trip() {
    let parsed = Identifier::parse(&mut Cursor::new(b"a12".to_vec())).unwrap();
    let d = parsed.destruct();
    assert_eq!(d.fields.head, Validated::new(b'a'));
    let rebuilt = Identifier::construct(d);
    assert_eq!(
        rebuilt,
        Identifier::new(
            Validated::new(b'a'),
            vec![Validated::new(b'1'), Validated::new(b'2')]
        )
    );
}
