use lol_macro::command::{parse_command, Command};

fn parse(s: &str) -> Command {
    parse_command(&s.chars().collect())
}

fn switch_to(s: &str) -> Command {
    Command::Switch(s.chars().collect())
}

#[test]
fn blank_lines_are_empty() {
    assert_eq!(parse(""), Command::Empty);
    assert_eq!(parse("  \t\n"), Command::Empty);
}

#[test]
fn quit_words() {
    assert_eq!(parse("quit\n"), Command::Quit);
    assert_eq!(parse("  exit "), Command::Quit);
    assert_eq!(parse("q"), Command::Quit);
}

#[test]
fn list_words() {
    assert_eq!(parse("list"), Command::List);
    assert_eq!(parse("ls\r\n"), Command::List);
    assert_eq!(parse("l"), Command::List);
}

#[test]
fn help_words() {
    assert_eq!(parse("help"), Command::Help);
    assert_eq!(parse("h"), Command::Help);
    assert_eq!(parse("?"), Command::Help);
}

#[test]
fn switch_takes_second_word() {
    assert_eq!(parse("switch riven\n"), switch_to("riven"));
    assert_eq!(parse("s yasuo"), switch_to("yasuo"));
    assert_eq!(parse("  switch   ahri  extra "), switch_to("ahri"));
}

#[test]
fn unknown_commands() {
    assert_eq!(parse("switch"), Command::Unknown);
    assert_eq!(parse("quitting"), Command::Unknown);
    assert_eq!(parse("sx riven"), Command::Unknown);
}
