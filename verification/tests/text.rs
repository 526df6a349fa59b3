//! Tests of line tokenization, JSON field extraction, prompt rendering,
//! and decimal parsing and rendering.

use zecwallet_cli::ReadEvent;
use zecwallet_cli::ReplAction;
use zecwallet_cli::chain_name_from_info;
use zecwallet_cli::command_from_tokens;
use zecwallet_cli::height_from_response;
use zecwallet_cli::i64_to_decimal;
use zecwallet_cli::parse_u64;
use zecwallet_cli::render_prompt;
use zecwallet_cli::repl_step;
use zecwallet_cli::u64_to_decimal;

#[test]
fn a_line_becomes_name_and_args() {
    match repl_step(ReadEvent::Line("send addr 100".to_owned())) {
        ReplAction::Send { cmd, quit_after } => {
            assert_eq!(cmd.name, "send");
            assert_eq!(cmd.args, vec!["addr".to_owned(), "100".to_owned()]);
            assert!(!quit_after);
        }
        _ => panic!("expected a send action"),
    }
}

#[test]
fn quoted_words_stay_one_argument() {
    // tokenization must honour shell quoting, not just split on spaces
    match repl_step(ReadEvent::Line("label \"two words\"".to_owned())) {
        ReplAction::Send { cmd, .. } => {
            assert_eq!(cmd.name, "label");
            assert_eq!(cmd.args, vec!["two words".to_owned()]);
        }
        _ => panic!("expected a send action"),
    }
}

#[test]
fn mismatched_quotes_are_reported_not_sent() {
    match repl_step(ReadEvent::Line("send \"unclosed".to_owned())) {
        ReplAction::ReportMismatchedQuotes => {}
        _ => panic!("expected a mismatched-quotes report"),
    }
}

#[test]
fn an_empty_line_is_ignored() {
    assert!(matches!(
        repl_step(ReadEvent::Line(String::new())),
        ReplAction::Ignore
    ));
    assert!(matches!(
        repl_step(ReadEvent::Line("   ".to_owned())),
        ReplAction::Ignore
    ));
}

#[test]
fn the_quit_line_sends_and_then_leaves() {
    match repl_step(ReadEvent::Line("quit".to_owned())) {
        ReplAction::Send { cmd, quit_after } => {
            assert_eq!(cmd.name, "quit");
            assert!(cmd.args.is_empty());
            assert!(quit_after);
        }
        _ => panic!("expected a send action"),
    }
}

#[test]
fn interrupts_and_end_of_input_save_before_leaving() {
    assert!(matches!(
        repl_step(ReadEvent::Interrupted),
        ReplAction::SaveAndExit
    ));
    assert!(matches!(
        repl_step(ReadEvent::EndOfInput),
        ReplAction::SaveAndExit
    ));
}

#[test]
fn other_read_failures_abort_without_saving() {
    assert!(matches!(repl_step(ReadEvent::Failed), ReplAction::Abort));
}

#[test]
fn tokens_become_a_command() {
    let r = command_from_tokens(vec!["addresses".to_owned(), "z".to_owned()]).unwrap();
    assert_eq!(r.name, "addresses");
    assert_eq!(r.args, vec!["z".to_owned()]);
    assert!(command_from_tokens(Vec::new()).is_none());
}

#[test]
fn chain_name_is_read_from_the_info_response() {
    let info = "{\"chain_name\":\"main\",\"version\":42}";
    assert_eq!(chain_name_from_info(info), Some("main".to_owned()));
    assert_eq!(chain_name_from_info("not json"), None);
    assert_eq!(chain_name_from_info("{\"version\":42}"), None);
}

#[test]
fn height_is_read_from_the_height_response() {
    assert_eq!(height_from_response("{\"height\":663194}"), Some(663194));
    assert_eq!(height_from_response("{\"height\":\"tall\"}"), None);
    assert_eq!(height_from_response("nonsense"), None);
}

#[test]
fn the_prompt_embeds_chain_and_height() {
    assert_eq!(
        render_prompt("main", 663194),
        "(main) Block:663194 (type 'help') >> "
    );
    assert_eq!(render_prompt("test", 0), "(test) Block:0 (type 'help') >> ");
}

#[test]
fn decimal_rendering_is_exact() {
    assert_eq!(u64_to_decimal(0), "0");
    assert_eq!(u64_to_decimal(307), "307");
    assert_eq!(u64_to_decimal(u64::MAX), "18446744073709551615");
    assert_eq!(i64_to_decimal(-5), "-5");
    assert_eq!(i64_to_decimal(0), "0");
    assert_eq!(i64_to_decimal(i64::MIN), "-9223372036854775808");
    assert_eq!(i64_to_decimal(i64::MAX), "9223372036854775807");
}

#[test]
fn decimal_parsing_is_exact() {
    assert_eq!(parse_u64("0"), Some(0));
    assert_eq!(parse_u64("42"), Some(42));
    assert_eq!(parse_u64("+7"), Some(7));
    assert_eq!(parse_u64("663194"), Some(663194));
    assert_eq!(parse_u64("18446744073709551615"), Some(u64::MAX));
    assert_eq!(parse_u64("18446744073709551616"), None);
    assert_eq!(parse_u64(""), None);
    assert_eq!(parse_u64("+"), None);
    assert_eq!(parse_u64("12x"), None);
    assert_eq!(parse_u64("-3"), None);
}

#[test]
fn parsing_agrees_with_the_standard_library() {
    for s in ["0", "42", "+7", "", "+", "12x", "-3", "18446744073709551615", "18446744073709551616", "007"] {
        assert_eq!(parse_u64(s), s.parse::<u64>().ok(), "on input {:?}", s);
    }
}
