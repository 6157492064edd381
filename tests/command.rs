use lhr::{parse_line, parse_words, Command, CommandError, Field};

#[test]
fn parses_listing_commands() {
    assert_eq!(parse_line("ls"), Ok(Command::ListLights));
    assert_eq!(parse_line("  ls   loops "), Ok(Command::ListLoops));
}

#[test]
fn parses_switching_commands() {
    assert_eq!(parse_line("all on"), Ok(Command::AllOn(true)));
    assert_eq!(parse_line("all\toff"), Ok(Command::AllOn(false)));
    assert_eq!(parse_line("on 3"), Ok(Command::SetOn { id: 3, on: true }));
    assert_eq!(parse_line("off 255"), Ok(Command::SetOn { id: 255, on: false }));
    assert_eq!(parse_line("off 256"), Err(CommandError::BadNumber(Field::Id)));
    assert_eq!(parse_line("on loops"), Err(CommandError::BadNumber(Field::Id)));
}

#[test]
fn parses_brightness_and_colour() {
    assert_eq!(parse_line("bri 3 +200"), Ok(Command::SetBri { id: 3, bri: 200 }));
    assert_eq!(parse_line("bri x 2"), Err(CommandError::BadNumber(Field::Id)));
    assert_eq!(parse_line("bri 2 +"), Err(CommandError::BadNumber(Field::Bri)));
    assert_eq!(parse_line("rgb 1 2 3 4"), Ok(Command::SetColor { id: 1, r: 2, g: 3, b: 4 }));
    assert_eq!(parse_line("rgb 1 2 -3 4"), Err(CommandError::BadNumber(Field::Green)));
    assert_eq!(parse_line("rgb 1 999 -3 4"), Err(CommandError::BadNumber(Field::Red)));
    assert_eq!(parse_line("rgb 1 2 3 04x"), Err(CommandError::BadNumber(Field::Blue)));
}

#[test]
fn parses_play_commands() {
    assert_eq!(parse_line("play"), Ok(Command::Play("random-hue".to_string())));
    assert_eq!(parse_line("play solo-hue"), Ok(Command::Play("solo-hue".to_string())));
}

#[test]
fn rejects_unknown_lines() {
    assert_eq!(parse_line(""), Err(CommandError::Unknown));
    assert_eq!(parse_line("dance"), Err(CommandError::Unknown));
    assert_eq!(parse_line("ls lights"), Err(CommandError::Unknown));
    assert_eq!(parse_line("bri 3"), Err(CommandError::Unknown));
    let words = vec!["play".to_string(), "a".to_string(), "b".to_string()];
    assert_eq!(parse_words(&words), Err(CommandError::Unknown));
}
