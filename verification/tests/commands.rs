use currency_converter::amount::{decimal, digit, Amount};
use currency_converter::command::{
    blank, help_text, parse_command, read_command, split_words, Command, ParseFailure,
};
use currency_converter::error::{Failure, RequestError};
use currency_converter::session::{Session, Step};

fn owned(list: &[&str]) -> Vec<String> {
    list.iter().map(|word| word.to_string()).collect()
}

#[test]
fn digits_are_zero_to_nine() {
    for c in ['0', '1', '5', '9'] {
        assert!(digit(c));
    }
    for c in ['/', ':', 'a', '.', '-', ' ', '\u{663}'] {
        assert!(!digit(c));
    }
}

#[test]
fn decimal_numerals_are_accepted() {
    for text in ["0", "7", "100", "100.0", "0.00025", "4231.1296", "326235234543.32452", "007", "1.50"] {
        assert!(decimal(text), "{}", text);
        let amount = Amount::from_text(text).unwrap();
        assert_eq!(amount.as_str(), text);
    }
}

#[test]
fn a_copied_amount_keeps_its_numeral() {
    let amount = Amount::from_text("326235234543.32452").unwrap();
    let copy = amount.clone();
    assert_eq!(copy, amount);
    assert_eq!(copy.as_str(), "326235234543.32452");
}

#[test]
fn other_texts_are_no_amounts() {
    for text in [
        "", ".", "-1", "+1", "1.", ".5", "1.2.3", "1..2", "1e3", "1,5", " 1", "1 ", "NaN", "inf",
        "-0", "0x10", "1_000", "\u{663}",
    ] {
        assert!(!decimal(text), "{}", text);
        assert!(Amount::from_text(text).is_none(), "{}", text);
    }
}

#[test]
fn negative_and_unbounded_numbers_are_no_amounts() {
    assert!(Amount::from_text(&format!("{}", -1.5f64)).is_none());
    assert!(Amount::from_text(&format!("{}", f64::NAN)).is_none());
    assert!(Amount::from_text(&format!("{}", f64::INFINITY)).is_none());
    assert!(Amount::from_text(&format!("{}", f64::MAX)).is_some());
    assert!(Amount::from_text(&format!("{}", f64::MIN_POSITIVE)).is_some());
}

#[test]
fn blanks_separate_words() {
    for c in [' ', '\t', '\n', '\r'] {
        assert!(blank(c));
    }
    for c in ['a', '0', '-', '\u{a0}', '\u{b}'] {
        assert!(!blank(c));
    }
}

#[test]
fn lines_are_split_at_blanks() {
    assert_eq!(split_words(""), Vec::<String>::new());
    assert_eq!(split_words("   \t\r\n"), Vec::<String>::new());
    assert_eq!(split_words("help"), owned(&["help"]));
    assert_eq!(split_words("rate USD EUR"), owned(&["rate", "USD", "EUR"]));
    assert_eq!(
        split_words("  convert\tUSD   EUR 12.5\r\n"),
        owned(&["convert", "USD", "EUR", "12.5"])
    );
    assert_eq!(split_words("a b c d e f"), owned(&["a", "b", "c", "d", "e", "f"]));
    assert_eq!(split_words("\u{e9}t\u{e9} \u{20ac}"), owned(&["\u{e9}t\u{e9}", "\u{20ac}"]));
    assert_eq!(split_words("x"), owned(&["x"]));
    assert_eq!(split_words(" x"), owned(&["x"]));
    assert_eq!(split_words("x "), owned(&["x"]));
}

fn is_rate(command: &Command, a: &str, b: &str) -> bool {
    match command {
        Command::Rate { from, to } => from == a && to == b,
        _ => false,
    }
}

fn is_rates(command: &Command, a: &str) -> bool {
    match command {
        Command::Rates { base } => base == a,
        _ => false,
    }
}

fn is_convert(command: &Command, a: &str, b: &str, c: &str) -> bool {
    match command {
        Command::Convert { from, to, amount } => from == a && to == b && amount.as_str() == c,
        _ => false,
    }
}

#[test]
fn each_command_is_read() {
    assert!(matches!(parse_command("help"), Ok(Command::Help)));
    assert!(matches!(parse_command("  help  "), Ok(Command::Help)));
    assert!(matches!(parse_command("exit"), Ok(Command::Exit)));
    assert!(matches!(parse_command("quit\n"), Ok(Command::Exit)));
    assert!(is_rate(&parse_command("rate USD EUR").ok().unwrap(), "USD", "EUR"));
    assert!(is_rate(&parse_command("rate usd x/y").ok().unwrap(), "usd", "x/y"));
    assert!(is_rates(&parse_command("rates GBP").ok().unwrap(), "GBP"));
    assert!(is_convert(
        &parse_command("convert USD EUR 100").ok().unwrap(),
        "USD",
        "EUR",
        "100"
    ));
    assert!(is_convert(
        &parse_command("\tconvert  JPY\tCHF  0.00025 ").ok().unwrap(),
        "JPY",
        "CHF",
        "0.00025"
    ));
}

#[test]
fn lines_that_spell_no_command_are_refused() {
    assert_eq!(parse_command("").err(), Some(ParseFailure::Empty));
    assert_eq!(parse_command(" \t ").err(), Some(ParseFailure::Empty));
    assert_eq!(parse_command("hello").err(), Some(ParseFailure::UnknownCommand));
    assert_eq!(parse_command("HELP").err(), Some(ParseFailure::UnknownCommand));
    assert_eq!(parse_command("rat USD EUR").err(), Some(ParseFailure::UnknownCommand));
    assert_eq!(parse_command("help me").err(), Some(ParseFailure::WrongArguments));
    assert_eq!(parse_command("exit now").err(), Some(ParseFailure::WrongArguments));
    assert_eq!(parse_command("quit 1").err(), Some(ParseFailure::WrongArguments));
    assert_eq!(parse_command("rate USD").err(), Some(ParseFailure::WrongArguments));
    assert_eq!(parse_command("rate").err(), Some(ParseFailure::WrongArguments));
    assert_eq!(parse_command("rate USD EUR GBP").err(), Some(ParseFailure::WrongArguments));
    assert_eq!(parse_command("rates").err(), Some(ParseFailure::WrongArguments));
    assert_eq!(parse_command("rates USD EUR").err(), Some(ParseFailure::WrongArguments));
    assert_eq!(parse_command("convert USD EUR").err(), Some(ParseFailure::WrongArguments));
    assert_eq!(
        parse_command("convert USD EUR 1 2").err(),
        Some(ParseFailure::WrongArguments)
    );
    assert_eq!(
        parse_command("convert USD EUR -5").err(),
        Some(ParseFailure::InvalidAmount)
    );
    assert_eq!(
        parse_command("convert USD EUR ten").err(),
        Some(ParseFailure::InvalidAmount)
    );
    assert_eq!(
        parse_command("convert USD EUR 1.").err(),
        Some(ParseFailure::InvalidAmount)
    );
}

#[test]
fn words_spell_commands() {
    assert_eq!(read_command(&owned(&[])).err(), Some(ParseFailure::Empty));
    assert!(matches!(read_command(&owned(&["quit"])), Ok(Command::Exit)));
    assert!(is_rates(&read_command(&owned(&["rates", "a b"])).ok().unwrap(), "a b"));
    assert_eq!(
        read_command(&owned(&["rates", "USD", ""])).err(),
        Some(ParseFailure::WrongArguments)
    );
}

#[test]
fn each_parse_failure_has_its_message() {
    assert_eq!(ParseFailure::Empty.message(), "Type help for a list of commands.");
    assert_eq!(
        ParseFailure::UnknownCommand.message(),
        "Unknown command. Type help for a list of commands."
    );
    assert_eq!(
        ParseFailure::WrongArguments.message(),
        "Wrong number of arguments. Type help for a list of commands."
    );
    assert_eq!(
        ParseFailure::InvalidAmount.message(),
        "The amount must be a non-negative decimal number."
    );
    assert_eq!(
        help_text(),
        "Commands: help | rate <from> <to> | rates <base> | convert <from> <to> <amount> | exit"
    );
}

#[test]
fn the_prompt_stops_on_exit() {
    let mut session = Session::new();
    assert!(session.is_running());
    assert!(matches!(session.accept(Some("help")), Step::Run(Command::Help)));
    assert!(session.is_running());
    assert!(matches!(session.accept(Some("exit")), Step::Stop));
    assert!(!session.is_running());
    assert!(matches!(session.accept(Some("help")), Step::Stop));
    assert!(!session.is_running());
}

#[test]
fn the_prompt_stops_on_quit_and_at_the_end_of_input() {
    let mut session = Session::new();
    assert!(matches!(session.accept(Some(" quit ")), Step::Stop));
    assert!(!session.is_running());
    let mut session = Session::new();
    assert!(matches!(session.accept(None), Step::Stop));
    assert!(!session.is_running());
    assert!(matches!(session.accept(None), Step::Stop));
}

#[test]
fn the_prompt_goes_on_after_every_failure() {
    let mut session = Session::new();
    for line in ["", "nonsense", "rate USD", "convert USD EUR -1", "exit please"] {
        assert!(matches!(session.accept(Some(line)), Step::Report(_)));
        assert!(session.is_running());
    }
    for failure in [
        Failure::Request(RequestError::UnsupportedCurrency),
        Failure::Request(RequestError::MalformedRequest),
        Failure::Request(RequestError::InvalidApiKey),
        Failure::Request(RequestError::InactiveAccount),
        Failure::Request(RequestError::QuotaReached),
        Failure::Transport,
        Failure::Configuration,
    ] {
        match session.accept(Some("rate UST EUR")) {
            Step::Run(command) => assert!(is_rate(&command, "UST", "EUR")),
            _ => panic!("expected a command"),
        }
        assert_eq!(session.finish(Err(failure)), Some(failure.message()));
        assert!(session.is_running());
    }
    assert_eq!(session.finish(Ok(())), None);
    assert!(session.is_running());
}

#[test]
fn a_stopped_prompt_stays_stopped() {
    let mut session = Session::new();
    assert!(matches!(session.accept(Some("quit")), Step::Stop));
    assert_eq!(session.finish(Err(Failure::Transport)), Some(Failure::Transport.message()));
    assert!(!session.is_running());
    assert_eq!(session.finish(Ok(())), None);
    assert!(!session.is_running());
    assert!(matches!(session.accept(Some("rates USD")), Step::Stop));
}

#[test]
fn the_prompt_reports_what_is_wrong_with_a_line() {
    let mut session = Session::new();
    assert!(matches!(session.accept(Some("")), Step::Report(ParseFailure::Empty)));
    assert!(matches!(
        session.accept(Some("fetch")),
        Step::Report(ParseFailure::UnknownCommand)
    ));
    assert!(matches!(
        session.accept(Some("rates")),
        Step::Report(ParseFailure::WrongArguments)
    ));
    assert!(matches!(
        session.accept(Some("convert a b c")),
        Step::Report(ParseFailure::InvalidAmount)
    ));
    match session.accept(Some("convert USD EUR 3.50")) {
        Step::Run(command) => assert!(is_convert(&command, "USD", "EUR", "3.50")),
        _ => panic!("expected a command"),
    }
    match session.accept(Some("rates EUR")) {
        Step::Run(command) => assert!(is_rates(&command, "EUR")),
        _ => panic!("expected a command"),
    }
}
