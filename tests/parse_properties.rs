use command_parser::{parse, parse_with_prefix, Command, ParseError, MIN_INPUT_BYTES};

#[test]
fn every_line_under_eight_bytes_is_too_short() {
    for line in ["", "R", "RETRIE", "PUBLISH", "RETRIEV", "\n\n\n\n\n\n\n", "äää"] {
        assert!(line.len() < 8);
        assert_eq!(parse(line).err(), Some(ParseError::TooShortInput));
    }
}

#[test]
fn bytes_not_characters_are_counted() {
    // four two-byte characters make eight bytes: long enough
    assert_eq!(parse("ääää").err(), Some(ParseError::NoPatternDetected));
    // three two-byte characters and one one-byte character make seven
    assert_eq!(parse("äääa").err(), Some(ParseError::TooShortInput));
}

#[test]
fn minimum_is_eight_bytes() {
    assert_eq!(MIN_INPUT_BYTES, 8);
}

#[test]
fn exact_retrieve_line_is_accepted() {
    let package = parse("RETRIEVE\n").unwrap();
    assert_eq!(package.command, Command::Retrieve);
    assert_eq!(package.payload, "");
}

#[test]
fn retrieve_with_trailing_text_is_rejected() {
    assert_eq!(parse("RETRIEVE\nmore").err(), Some(ParseError::NoPatternDetected));
}

#[test]
fn retrieve_with_argument_is_a_syntax_error() {
    assert_eq!(parse("RETRIEVE something\n").err(), Some(ParseError::RetrieveSyntaxError));
    assert_eq!(parse("RETRIEVE ").err(), Some(ParseError::RetrieveSyntaxError));
}

#[test]
fn publish_payload_is_the_text_between_lead_and_newline() {
    let package = parse("PUBLISH hello world\n").unwrap();
    assert_eq!(package.command, Command::Publish);
    assert_eq!(package.payload, "hello world");
}

#[test]
fn publish_payload_keeps_multibyte_characters() {
    assert_eq!(parse("PUBLISH héllo ✓\n").unwrap().payload, "héllo ✓");
}

#[test]
fn publish_drops_the_last_character_whatever_it_is() {
    assert_eq!(parse("PUBLISH abc").unwrap().payload, "ab");
}

#[test]
fn publish_with_empty_payload() {
    let package = parse("PUBLISH \n").unwrap();
    assert_eq!(package.command, Command::Publish);
    assert_eq!(package.payload, "");
}

#[test]
fn publish_lead_alone_is_no_command() {
    assert_eq!(parse("PUBLISH ").err(), Some(ParseError::NoPatternDetected));
}

#[test]
fn lines_with_neither_prefix_match_nothing() {
    assert_eq!(parse("random text\n").err(), Some(ParseError::NoPatternDetected));
    assert_eq!(parse("\n\n\n\n\n\n\n\n").err(), Some(ParseError::NoPatternDetected));
    assert_eq!(parse("publish lower\n").err(), Some(ParseError::NoPatternDetected));
    assert_eq!(parse("RETRIEVED it\n").err(), Some(ParseError::NoPatternDetected));
}

#[test]
fn publish_without_space_matches_nothing() {
    assert_eq!(parse("PUBLISH\n").err(), Some(ParseError::NoPatternDetected));
}

#[test]
fn parsing_twice_gives_the_same_result() {
    for line in ["PUBLISH twice\n", "RETRIEVE\n", "RETRIEVE x\n", "nothing here\n", "short"] {
        let first = parse(line);
        let second = parse(line);
        match (first, second) {
            (Ok(a), Ok(b)) => {
                assert_eq!(a.command, b.command);
                assert_eq!(a.payload, b.payload);
            }
            (Err(a), Err(b)) => assert_eq!(a, b),
            _ => panic!("two parses of {:?} disagree", line),
        }
    }
}

#[test]
fn each_error_has_its_text() {
    assert_eq!(ParseError::TooShortInput.description(), "Input message is too short.");
    assert_eq!(ParseError::RetrieveSyntaxError.description(), "Wrong RETRIEVE syntax.");
    assert_eq!(ParseError::NoPatternDetected.description(), "No pattern detected.");
    assert_eq!(ParseError::TooShortInput.to_string(), "Input message is too short.");
    assert_eq!(ParseError::RetrieveSyntaxError.to_string(), "Wrong RETRIEVE syntax.");
    assert_eq!(ParseError::NoPatternDetected.to_string(), "No pattern detected.");
}

#[test]
fn prefix_and_space_are_removed_before_matching() {
    let package = parse_with_prefix("/usr/bin/app PUBLISH hi\n", "/usr/bin/app").unwrap();
    assert_eq!(package.command, Command::Publish);
    assert_eq!(package.payload, "hi");
    let package = parse_with_prefix("/usr/bin/app RETRIEVE\n", "/usr/bin/app").unwrap();
    assert_eq!(package.command, Command::Retrieve);
}

#[test]
fn prefix_without_space_is_kept() {
    assert_eq!(
        parse_with_prefix("/usr/bin/appPUBLISH hi\n", "/usr/bin/app").err(),
        Some(ParseError::NoPatternDetected)
    );
}

#[test]
fn only_a_leading_prefix_is_removed() {
    let package = parse_with_prefix("PUBLISH /usr/bin/app x\n", "/usr/bin/app").unwrap();
    assert_eq!(package.payload, "/usr/bin/app x");
}

#[test]
fn prefix_does_not_change_the_length_check() {
    // eight bytes before removal, one after: long enough, but no command
    assert_eq!(parse_with_prefix("abcdef x", "abcdef").err(), Some(ParseError::NoPatternDetected));
    assert_eq!(parse_with_prefix("ab RETR", "ab").err(), Some(ParseError::TooShortInput));
}

#[test]
fn line_without_the_prefix_parses_as_usual() {
    let package = parse_with_prefix("PUBLISH plain\n", "/usr/bin/app").unwrap();
    assert_eq!(package.payload, "plain");
    assert_eq!(parse_with_prefix("RETRIEVE x\n", "/p").err(), Some(ParseError::RetrieveSyntaxError));
}
