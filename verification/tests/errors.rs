use pls::text::same_text;
use pls::{ElementLength, ErrorSource, IniError, IntegerError, ParseError};

fn ini_error() -> IniError {
    IniError {
        line: 12,
        col: 3,
        msg: "Missing key".to_string(),
    }
}

#[test]
fn message_of_each_error() {
    assert_eq!(ParseError::InvalidVersion(0).message(), "Invalid version 0 specified");
    assert_eq!(ParseError::InvalidVersion(999).message(), "Invalid version 999 specified");
    assert_eq!(ParseError::MissingPlaylistSection.message(), "Missing [playlist] section");
    assert_eq!(ParseError::MissingKey("File3".to_string()).message(), "Key \"File3\" missing");
    assert_eq!(ParseError::InvalidInteger(IntegerError::InvalidDigit).message(),
               "invalid digit found in string");
    assert_eq!(ParseError::Ini(ini_error()).message(), "12:3 Missing key");
}

#[test]
fn integer_messages_are_those_of_std() {
    assert_eq!(IntegerError::Empty.message(), "".parse::<u64>().unwrap_err().to_string());
    assert_eq!(IntegerError::InvalidDigit.message(), "-1".parse::<u64>().unwrap_err().to_string());
    assert_eq!(IntegerError::PosOverflow.message(),
               "18446744073709551616".parse::<u64>().unwrap_err().to_string());
}

#[test]
fn ini_message_is_that_of_the_reader() {
    let theirs = match ini::Ini::load_from_str("[playlist\n") {
        Err(e) => e,
        Ok(_) => panic!("the header is not closed"),
    };
    let ours = match pls::parse(b"[playlist\n") {
        Err(ParseError::Ini(e)) => e,
        other => panic!("{:?}", other),
    };
    assert_eq!(ours.line, theirs.line);
    assert_eq!(ours.col, theirs.col);
    assert_eq!(ours.msg, theirs.msg);
    assert_eq!(ours.message(), theirs.to_string());
    assert_eq!(ours.message(), "1:0 Expecting \"[Some(']')]\" but found EOF.");
    assert_eq!(ParseError::Ini(ours).message(), theirs.to_string());
}

#[test]
fn ini_fault_keeps_its_place() {
    match pls::parse(b"[playlist]\nFile1=a\n=b\n") {
        Err(ParseError::Ini(e)) => {
            assert_eq!((e.line, e.col), (2, 1));
            assert_eq!(e.msg, "Missing key");
        }
        other => panic!("{:?}", other),
    }
}

#[test]
fn errors_are_equal_by_what_they_hold() {
    assert_eq!(ParseError::InvalidVersion(3), ParseError::InvalidVersion(3));
    assert_ne!(ParseError::InvalidVersion(3), ParseError::InvalidVersion(4));
    assert_eq!(ParseError::MissingPlaylistSection, ParseError::MissingPlaylistSection);
    assert_ne!(ParseError::MissingPlaylistSection, ParseError::InvalidVersion(0));
    assert_eq!(ParseError::MissingKey("File1".to_string()), ParseError::MissingKey("File1".to_string()));
    assert_ne!(ParseError::MissingKey("File1".to_string()), ParseError::MissingKey("File2".to_string()));
    assert_eq!(ParseError::InvalidInteger(IntegerError::Empty),
               ParseError::InvalidInteger(IntegerError::Empty));
    assert_ne!(ParseError::InvalidInteger(IntegerError::Empty),
               ParseError::InvalidInteger(IntegerError::PosOverflow));
    assert_eq!(ParseError::Ini(ini_error()), ParseError::Ini(ini_error()));
    assert_ne!(ParseError::Ini(ini_error()), ParseError::Ini(IniError { line: 13, ..ini_error() }));
    assert_ne!(ParseError::Ini(ini_error()), ParseError::Ini(IniError { col: 4, ..ini_error() }));
    assert_ne!(ParseError::Ini(ini_error()),
               ParseError::Ini(IniError { msg: "Missing value".to_string(), ..ini_error() }));
    assert_ne!(ParseError::Ini(ini_error()), ParseError::MissingKey("Missing key".to_string()));
}

#[test]
fn faults_become_parse_errors() {
    assert_eq!(ParseError::from(IntegerError::Empty), ParseError::InvalidInteger(IntegerError::Empty));
    assert_eq!(ParseError::from(ini_error()), ParseError::Ini(ini_error()));
    let converted: Result<u64, ParseError> = pls::decimal::parse_u64("x").map_err(ParseError::from);
    assert_eq!(converted, Err(ParseError::InvalidInteger(IntegerError::InvalidDigit)));
}

#[test]
fn clone_is_equal() {
    let errors = [ParseError::InvalidVersion(7),
                  ParseError::MissingPlaylistSection,
                  ParseError::MissingKey("File1".to_string()),
                  ParseError::InvalidInteger(IntegerError::PosOverflow),
                  ParseError::Ini(ini_error())];
    for e in &errors {
        assert_eq!(&e.clone(), e);
    }
    let copy = ini_error().clone();
    assert_eq!((copy.line, copy.col, copy.msg), (12, 3, "Missing key".to_string()));
}

#[test]
fn only_integer_and_ini_errors_have_a_source() {
    assert!(ParseError::InvalidVersion(7).source().is_none());
    assert!(ParseError::MissingPlaylistSection.source().is_none());
    assert!(ParseError::MissingKey("File1".to_string()).source().is_none());
    match ParseError::InvalidInteger(IntegerError::PosOverflow).source() {
        Some(ErrorSource::InvalidInteger(e)) => assert_eq!(*e, IntegerError::PosOverflow),
        other => panic!("{:?}", other),
    }
    match ParseError::Ini(ini_error()).source() {
        Some(ErrorSource::Ini(e)) => assert_eq!(e.message(), "12:3 Missing key"),
        other => panic!("{:?}", other),
    }
}

#[test]
fn texts_are_compared_by_their_characters() {
    assert!(same_text("", ""));
    assert!(same_text("-1", "-1"));
    assert!(same_text("za\u{17c}\u{f3}\u{142}\u{107}", "za\u{17c}\u{f3}\u{142}\u{107}"));
    assert!(!same_text("-1", "-2"));
    assert!(!same_text("-1", "-"));
    assert!(!same_text("-", "-1"));
    assert!(!same_text("", "-1"));
    assert!(!same_text("-1", "-1 "));
    assert!(!same_text("e\u{301}", "\u{e9}"));
}

#[test]
fn length_is_read_from_its_text() {
    assert_eq!(ElementLength::parse(None), Ok(ElementLength::Unknown));
    assert_eq!(ElementLength::parse(Some("-1")), Ok(ElementLength::Unknown));
    assert_eq!(ElementLength::parse(Some("0")), Ok(ElementLength::Seconds(0)));
    assert_eq!(ElementLength::parse(Some("420")), Ok(ElementLength::Seconds(420)));
    assert_eq!(ElementLength::parse(Some("18446744073709551615")), Ok(ElementLength::Seconds(u64::MAX)));
    assert_eq!(ElementLength::parse(Some("-2")), Err(ParseError::InvalidInteger(IntegerError::InvalidDigit)));
    assert_eq!(ElementLength::parse(Some("-1 ")), Err(ParseError::InvalidInteger(IntegerError::InvalidDigit)));
    assert_eq!(ElementLength::parse(Some("+1")), Ok(ElementLength::Seconds(1)));
    assert_eq!(ElementLength::parse(Some("")), Err(ParseError::InvalidInteger(IntegerError::Empty)));
    assert_eq!(ElementLength::parse(Some("18446744073709551616")),
               Err(ParseError::InvalidInteger(IntegerError::PosOverflow)));
}
