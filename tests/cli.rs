use creak::args::{parse_tokens, Args, Overrides};
use creak::cli::{
    config_path_for_style, extract_style_arg, message_summary, next_value, parse_clear_command,
    CliError, Command,
};
use creak::config::{
    config_args_from_text, parse_antialias, parse_hex_color, parse_hint_metrics, parse_hint_style,
    strip_all_prefix, Rgba, TextAntialias, TextHintMetrics, TextHintStyle,
};
use creak::placement::Position;
use creak::text::{text_eq, trim_text};

fn toks(words: &[&str]) -> Vec<String> {
    words.iter().map(|w| w.to_string()).collect()
}

fn parse(words: &[&str]) -> Result<(Args, Overrides), CliError> {
    parse_tokens(toks(words))
}

#[test]
fn parse_list_active_command() {
    let tokens = vec![
        "list".to_string(),
        "active".to_string(),
        "--state-dir".to_string(),
        "/tmp/creak-test".to_string(),
    ];
    let (args, _) = parse_tokens(tokens).expect("parse tokens");
    match args.command {
        Command::ListActive => {}
        _ => panic!("expected list active command"),
    }
    assert_eq!(args.state_dir.as_deref(), Some("/tmp/creak-test"));
}

#[test]
fn extract_style_arg_splits_cli_tokens() {
    let tokens = vec![
        "--style".to_string(),
        "hi".to_string(),
        "--timeout".to_string(),
        "10".to_string(),
        "hello".to_string(),
    ];
    let (style, rest) = extract_style_arg(tokens).expect("extract style");
    assert_eq!(style.as_deref(), Some("hi"));
    assert_eq!(rest, vec!["--timeout", "10", "hello"]);
}

#[test]
fn config_path_for_style_resolves_name_and_path() {
    let xdg = "/tmp/xdg";
    assert_eq!(config_path_for_style(xdg, None), "/tmp/xdg/creak/config".to_string());
    assert_eq!(config_path_for_style(xdg, Some("hi")), "/tmp/xdg/creak/hi".to_string());
    assert_eq!(
        config_path_for_style(xdg, Some("/tmp/custom-style")),
        "/tmp/custom-style".to_string()
    );
}

#[test]
fn extract_style_arg_inline_and_last_wins() {
    let (style, rest) = extract_style_arg(toks(&["a", "--style=one", "b", "--style", "two", "c"])).unwrap();
    assert_eq!(style.as_deref(), Some("two"));
    assert_eq!(rest, vec!["a", "b", "c"]);
    let (style, rest) = extract_style_arg(toks(&["--style=x=y"])).unwrap();
    assert_eq!(style.as_deref(), Some("x=y"));
    assert!(rest.is_empty());
    let (style, rest) = extract_style_arg(vec![]).unwrap();
    assert!(style.is_none() && rest.is_empty());
}

#[test]
fn extract_style_arg_needs_a_value() {
    match extract_style_arg(toks(&["x", "--style"])) {
        Err(CliError::MissingValue(n)) => assert_eq!(n, "--style"),
        other => panic!("unexpected {:?}", other),
    }
}

#[test]
fn next_value_moves_or_reports_missing() {
    let t = toks(&["a", "b"]);
    let mut pos: usize = 1;
    assert_eq!(next_value("--x", &t, &mut pos).unwrap(), "b");
    assert_eq!(pos, 2);
    match next_value("--x", &t, &mut pos) {
        Err(CliError::MissingValue(n)) => assert_eq!(n, "--x"),
        other => panic!("unexpected {:?}", other),
    }
    assert_eq!(pos, 2);
}

#[test]
fn clear_command_forms() {
    let t = toks(&["by", "id", "+42"]);
    let mut pos: usize = 0;
    match parse_clear_command(&t, &mut pos) {
        Ok(Command::ClearById(42)) => {}
        other => panic!("unexpected {:?}", other),
    }
    assert_eq!(pos, 3);
    let mut pos: usize = 0;
    assert!(matches!(parse_clear_command(&toks(&["by", "name", "w"]), &mut pos), Ok(Command::ClearByName(n)) if n == "w"));
    let mut pos: usize = 0;
    assert!(matches!(parse_clear_command(&toks(&["by", "class", "c"]), &mut pos), Ok(Command::ClearByClass(n)) if n == "c"));
    let mut pos: usize = 0;
    assert!(matches!(parse_clear_command(&toks(&["with", "id", "1"]), &mut pos), Err(CliError::ClearUsage)));
    assert_eq!(pos, 1);
    let mut pos: usize = 0;
    assert!(matches!(parse_clear_command(&toks(&["by", "pid", "1"]), &mut pos), Err(CliError::ClearUsage)));
    let mut pos: usize = 0;
    assert!(matches!(parse_clear_command(&toks(&["by", "id", "-1"]), &mut pos), Err(CliError::InvalidNumber(v)) if v == "-1"));
    let mut pos: usize = 0;
    assert!(matches!(parse_clear_command(&toks(&["by", "id", "18446744073709551616"]), &mut pos), Err(CliError::InvalidNumber(_))));
    let mut pos: usize = 0;
    assert!(matches!(parse_clear_command(&toks(&["by", "id"]), &mut pos), Err(CliError::MissingValue(n)) if n == "clear by <key>"));
    let mut pos: usize = 0;
    assert!(matches!(parse_clear_command(&toks(&["by"]), &mut pos), Err(CliError::MissingValue(n)) if n == "clear by"));
    let mut pos: usize = 0;
    assert!(matches!(parse_clear_command(&toks(&[]), &mut pos), Err(CliError::MissingValue(n)) if n == "clear"));
}

#[test]
fn parse_show_with_options() {
    let (args, ov) = parse(&[
        "--bottom-right", "--timeout=2500", "--width", "400", "--font", "Sans 12",
        "--background", "#102030", "--text=#ffffff80", "--no-stack", "--scale=-3",
        "--text-antialias", "gray", "--text-hint=none", "--text-hint-metrics", "off",
        "--name", "n", "--class=c", "Title", "body", "words",
    ])
    .unwrap();
    match args.command {
        Command::Show(a) => {
            assert!(matches!(a.position, Position::BottomRight));
            assert_eq!(a.message, "Title\nbody words");
            assert_eq!(a.name.as_deref(), Some("n"));
            assert_eq!(a.class.as_deref(), Some("c"));
        }
        other => panic!("unexpected {:?}", other),
    }
    assert!(args.state_dir.is_none());
    assert_eq!(ov.font.as_deref(), Some("Sans 12"));
    let s = ov.style;
    assert_eq!(s.timeout_ms, Some(2500));
    assert_eq!(s.width, Some(400));
    assert_eq!(s.background, Some(Rgba { r: 0x10, g: 0x20, b: 0x30, a: 255 }));
    assert_eq!(s.text, Some(Rgba { r: 255, g: 255, b: 255, a: 0x80 }));
    assert_eq!(s.stack, Some(false));
    assert_eq!(s.output_scale, Some(-3));
    assert_eq!(s.text_antialias, Some(Some(TextAntialias::Gray)));
    assert_eq!(s.text_hint, Some(Some(TextHintStyle::Unhinted)));
    assert_eq!(s.text_hint_metrics, Some(Some(TextHintMetrics::Off)));
    assert!(s.padding.is_none() && s.border.is_none());
}

#[test]
fn parse_single_word_message_and_later_options_win() {
    let (args, ov) = parse(&["--top", "--width=5", "hello", "--width=--width=7", "--stack", "--left"]).unwrap();
    match args.command {
        Command::Show(a) => {
            assert!(matches!(a.position, Position::Left));
            assert_eq!(a.message, "hello");
        }
        other => panic!("unexpected {:?}", other),
    }
    assert_eq!(ov.style.width, Some(7));
    assert_eq!(ov.style.stack, Some(true));
    let (args, _) = parse(&["hi"]).unwrap();
    assert!(matches!(args.command, Command::Show(a) if matches!(a.position, Position::Default)));
}

#[test]
fn parse_control_commands() {
    assert!(matches!(parse(&["clear", "by", "name", "w"]).unwrap().0.command, Command::ClearByName(n) if n == "w"));
    assert!(matches!(parse(&["--clear-by-id=7"]).unwrap().0.command, Command::ClearById(7)));
    assert!(matches!(parse(&["--clear-by-class", "k"]).unwrap().0.command, Command::ClearByClass(n) if n == "k"));
    assert!(matches!(parse(&["--list-active", "--state-dir=/s"]).unwrap().0.command, Command::ListActive));
    assert!(matches!(parse(&["-h"]).unwrap().0.command, Command::Help));
    assert!(matches!(parse(&["--help", "--top"]).unwrap().0.command, Command::Help));
}

#[test]
fn parse_errors() {
    assert!(matches!(parse(&[]), Err(CliError::MissingMessage)));
    assert!(matches!(parse(&["list", "active", "extra"]), Err(CliError::UnexpectedArguments)));
    assert!(matches!(parse(&["list", "all"]), Err(CliError::ListUsage)));
    assert!(matches!(parse(&["list"]), Err(CliError::MissingValue(n)) if n == "list"));
    assert!(matches!(parse(&["--bogus", "m"]), Err(CliError::UnknownOption(o)) if o == "--bogus"));
    assert!(matches!(parse(&["m", "--timeout"]), Err(CliError::MissingValue(n)) if n == "--timeout"));
    assert!(matches!(parse(&["--width", "wide", "m"]), Err(CliError::InvalidNumber(v)) if v == "wide"));
    assert!(matches!(parse(&["--edge=2147483648", "m"]), Err(CliError::InvalidNumber(_))));
    assert!(matches!(parse(&["--border", "#12345", "m"]), Err(CliError::InvalidColor(o)) if o == "--border"));
    assert!(matches!(parse(&["--text-hint", "max", "m"]), Err(CliError::InvalidChoice(o, v)) if o == "--text-hint" && v == "max"));
}

#[test]
fn hex_colors() {
    assert_eq!(parse_hex_color("#ff8000"), Some(Rgba { r: 255, g: 128, b: 0, a: 255 }));
    assert_eq!(parse_hex_color("##11223344"), Some(Rgba { r: 0x11, g: 0x22, b: 0x33, a: 0x44 }));
    assert_eq!(parse_hex_color("aBcDeF"), Some(Rgba { r: 0xab, g: 0xcd, b: 0xef, a: 255 }));
    assert_eq!(parse_hex_color("#+f+f+f"), Some(Rgba { r: 15, g: 15, b: 15, a: 255 }));
    assert_eq!(parse_hex_color("#12345"), None);
    assert_eq!(parse_hex_color("#12345g"), None);
    assert_eq!(parse_hex_color("#1234567"), None);
}

#[test]
fn text_setting_choices() {
    assert_eq!(parse_antialias("default").unwrap(), None);
    assert_eq!(parse_antialias("none").unwrap(), Some(TextAntialias::Plain));
    assert_eq!(parse_antialias("subpixel").unwrap(), Some(TextAntialias::Subpixel));
    assert!(matches!(parse_antialias("best"), Err(CliError::InvalidChoice(o, _)) if o == "--text-antialias"));
    assert_eq!(parse_hint_style("full").unwrap(), Some(TextHintStyle::Full));
    assert_eq!(parse_hint_style("medium").unwrap(), Some(TextHintStyle::Medium));
    assert_eq!(parse_hint_style("slight").unwrap(), Some(TextHintStyle::Slight));
    assert_eq!(parse_hint_metrics("on").unwrap(), Some(TextHintMetrics::On));
    assert_eq!(parse_hint_metrics("default").unwrap(), None);
    assert!(matches!(parse_hint_metrics("yes"), Err(CliError::InvalidChoice(o, v)) if o == "--text-hint-metrics" && v == "yes"));
}

#[test]
fn style_file_lines() {
    let text = "  # comment\n--font 'Sans Bold 12'\n\n   --top  \r\n--name \"a b\"";
    let args = config_args_from_text(text).unwrap();
    assert_eq!(args, vec!["--font", "Sans Bold 12", "--top", "--name", "a b"]);
    assert!(config_args_from_text("").unwrap().is_empty());
    assert!(matches!(config_args_from_text("--ok\n--font 'unclosed"), Err(CliError::StyleLine)));
}

#[test]
fn summaries_take_the_trimmed_first_line() {
    assert_eq!(message_summary("  Title  \nbody"), "Title");
    assert_eq!(message_summary("one\r\ntwo"), "one");
    assert_eq!(message_summary(""), "");
    assert_eq!(message_summary("\nsecond"), "");
    let long = "x".repeat(130);
    assert_eq!(message_summary(&long), "x".repeat(120));
    let wide = format!("{}é", "y".repeat(119));
    assert_eq!(message_summary(&wide), "y".repeat(119));
}

#[test]
fn string_helpers() {
    assert!(text_eq("abc", "abc"));
    assert!(!text_eq("abc", "abd"));
    assert_eq!(trim_text("\u{a0} a b \t"), "a b");
    assert_eq!(strip_all_prefix("--w=--w=3", "--w="), "3");
    assert_eq!(strip_all_prefix("abc", ""), "abc");
}
