use vstd::prelude::*;

use crate::cli::{
    clear_command_spec, decimal_u64, parse_clear_command, parse_u64, texts, CliError,
    CliErrorView, Command, CommandView,
};
use crate::config::{
    antialias_spec, decimal_i32, hex_color_spec, hint_metrics_spec, hint_style_spec,
    parse_antialias, parse_hex_color, parse_hint_metrics, parse_hint_style, parse_i32, strip_all,
    strip_all_prefix, Rgba, TextAntialias, TextHintMetrics, TextHintStyle,
};
use crate::placement::Position;
use crate::text::{is_prefix, starts_with_text, text_eq};

verus! {

broadcast use vstd::seq_lib::group_seq_properties;

/// Settings given on the command line or in a style file; `None` leaves the
/// built-in value.
#[derive(Clone, Copy, Debug, PartialEq, Eq, Structural)]
pub struct Style {
    pub width: Option<i32>,
    pub padding: Option<i32>,
    pub border_size: Option<i32>,
    pub border_radius: Option<i32>,
    pub timeout_ms: Option<u64>,
    pub background: Option<Rgba>,
    pub text: Option<Rgba>,
    pub border: Option<Rgba>,
    pub edge: Option<i32>,
    pub default_offset: Option<i32>,
    pub stack_gap: Option<i32>,
    pub stack: Option<bool>,
    pub output_scale: Option<i32>,
    pub text_antialias: Option<Option<TextAntialias>>,
    pub text_hint: Option<Option<TextHintStyle>>,
    pub text_hint_metrics: Option<Option<TextHintMetrics>>,
}

/// The settings a command line changes: the font and the other values.
#[derive(Debug)]
pub struct Overrides {
    pub font: Option<String>,
    pub style: Style,
}

/// A parsed command line.
#[derive(Debug)]
pub struct Args {
    pub command: Command,
    pub state_dir: Option<String>,
}

/// The options that take a value, as `--option value` or `--option=value`.
#[derive(Clone, Copy, Debug, PartialEq, Eq, Structural)]
pub enum ValueKey {
    Timeout,
    Width,
    Font,
    Padding,
    BorderSize,
    BorderRadius,
    Background,
    Text,
    Border,
    Edge,
    Scale,
    TextAntialias,
    TextHint,
    TextHintMetrics,
    DefaultOffset,
    StackGap,
    Name,
    Class,
    StateDir,
    ClearByName,
    ClearByClass,
    ClearById,
}

pub open spec fn unset_style() -> Style {
    Style {
        width: None,
        padding: None,
        border_size: None,
        border_radius: None,
        timeout_ms: None,
        background: None,
        text: None,
        border: None,
        edge: None,
        default_offset: None,
        stack_gap: None,
        stack: None,
        output_scale: None,
        text_antialias: None,
        text_hint: None,
        text_hint_metrics: None,
    }
}

/// What has been read of a command line so far.
pub struct ParseView {
    pub position: Position,
    pub name: Option<Seq<char>>,
    pub class: Option<Seq<char>>,
    pub state_dir: Option<Seq<char>>,
    pub command: Option<CommandView>,
    pub rest: Seq<Seq<char>>,
    pub font: Option<Seq<char>>,
    pub style: Style,
}

pub open spec fn initial_parse() -> ParseView {
    ParseView {
        position: Position::Default,
        name: None,
        class: None,
        state_dir: None,
        command: None,
        rest: Seq::empty(),
        font: None,
        style: unset_style(),
    }
}

pub open spec fn key_name(k: ValueKey) -> Seq<char> {
    match k {
        ValueKey::Timeout => "--timeout"@,
        ValueKey::Width => "--width"@,
        ValueKey::Font => "--font"@,
        ValueKey::Padding => "--padding"@,
        ValueKey::BorderSize => "--border-size"@,
        ValueKey::BorderRadius => "--border-radius"@,
        ValueKey::Background => "--background"@,
        ValueKey::Text => "--text"@,
        ValueKey::Border => "--border"@,
        ValueKey::Edge => "--edge"@,
        ValueKey::Scale => "--scale"@,
        ValueKey::TextAntialias => "--text-antialias"@,
        ValueKey::TextHint => "--text-hint"@,
        ValueKey::TextHintMetrics => "--text-hint-metrics"@,
        ValueKey::DefaultOffset => "--default-offset"@,
        ValueKey::StackGap => "--stack-gap"@,
        ValueKey::Name => "--name"@,
        ValueKey::Class => "--class"@,
        ValueKey::StateDir => "--state-dir"@,
        ValueKey::ClearByName => "--clear-by-name"@,
        ValueKey::ClearByClass => "--clear-by-class"@,
        ValueKey::ClearById => "--clear-by-id"@,
    }
}

pub open spec fn inline_name(k: ValueKey) -> Seq<char> {
    match k {
        ValueKey::Timeout => "--timeout="@,
        ValueKey::Width => "--width="@,
        ValueKey::Font => "--font="@,
        ValueKey::Padding => "--padding="@,
        ValueKey::BorderSize => "--border-size="@,
        ValueKey::BorderRadius => "--border-radius="@,
        ValueKey::Background => "--background="@,
        ValueKey::Text => "--text="@,
        ValueKey::Border => "--border="@,
        ValueKey::Edge => "--edge="@,
        ValueKey::Scale => "--scale="@,
        ValueKey::TextAntialias => "--text-antialias="@,
        ValueKey::TextHint => "--text-hint="@,
        ValueKey::TextHintMetrics => "--text-hint-metrics="@,
        ValueKey::DefaultOffset => "--default-offset="@,
        ValueKey::StackGap => "--stack-gap="@,
        ValueKey::Name => "--name="@,
        ValueKey::Class => "--class="@,
        ValueKey::StateDir => "--state-dir="@,
        ValueKey::ClearByName => "--clear-by-name="@,
        ValueKey::ClearByClass => "--clear-by-class="@,
        ValueKey::ClearById => "--clear-by-id="@,
    }
}

pub open spec fn position_flag_spec(arg: Seq<char>) -> Option<Position> {
    if arg == "--top-left"@ {
        Some(Position::TopLeft)
    } else if arg == "--top"@ {
        Some(Position::Top)
    } else if arg == "--top-center"@ {
        Some(Position::Top)
    } else if arg == "--top-right"@ {
        Some(Position::TopRight)
    } else if arg == "--left"@ {
        Some(Position::Left)
    } else if arg == "--center"@ {
        Some(Position::Center)
    } else if arg == "--right"@ {
        Some(Position::Right)
    } else if arg == "--bottom-left"@ {
        Some(Position::BottomLeft)
    } else if arg == "--bottom"@ {
        Some(Position::Bottom)
    } else if arg == "--bottom-center"@ {
        Some(Position::Bottom)
    } else if arg == "--bottom-right"@ {
        Some(Position::BottomRight)
    } else {
        None
    }
}

pub open spec fn value_key_spec(arg: Seq<char>) -> Option<ValueKey> {
    if arg == "--timeout"@ {
        Some(ValueKey::Timeout)
    } else if arg == "--width"@ {
        Some(ValueKey::Width)
    } else if arg == "--font"@ {
        Some(ValueKey::Font)
    } else if arg == "--padding"@ {
        Some(ValueKey::Padding)
    } else if arg == "--border-size"@ {
        Some(ValueKey::BorderSize)
    } else if arg == "--border-radius"@ {
        Some(ValueKey::BorderRadius)
    } else if arg == "--background"@ {
        Some(ValueKey::Background)
    } else if arg == "--text"@ {
        Some(ValueKey::Text)
    } else if arg == "--border"@ {
        Some(ValueKey::Border)
    } else if arg == "--edge"@ {
        Some(ValueKey::Edge)
    } else if arg == "--scale"@ {
        Some(ValueKey::Scale)
    } else if arg == "--text-antialias"@ {
        Some(ValueKey::TextAntialias)
    } else if arg == "--text-hint"@ {
        Some(ValueKey::TextHint)
    } else if arg == "--text-hint-metrics"@ {
        Some(ValueKey::TextHintMetrics)
    } else if arg == "--default-offset"@ {
        Some(ValueKey::DefaultOffset)
    } else if arg == "--stack-gap"@ {
        Some(ValueKey::StackGap)
    } else if arg == "--name"@ {
        Some(ValueKey::Name)
    } else if arg == "--class"@ {
        Some(ValueKey::Class)
    } else if arg == "--state-dir"@ {
        Some(ValueKey::StateDir)
    } else if arg == "--clear-by-name"@ {
        Some(ValueKey::ClearByName)
    } else if arg == "--clear-by-class"@ {
        Some(ValueKey::ClearByClass)
    } else if arg == "--clear-by-id"@ {
        Some(ValueKey::ClearById)
    } else {
        None
    }
}

pub open spec fn inline_key_spec(arg: Seq<char>) -> Option<ValueKey> {
    if is_prefix("--timeout="@, arg) {
        Some(ValueKey::Timeout)
    } else if is_prefix("--width="@, arg) {
        Some(ValueKey::Width)
    } else if is_prefix("--font="@, arg) {
        Some(ValueKey::Font)
    } else if is_prefix("--padding="@, arg) {
        Some(ValueKey::Padding)
    } else if is_prefix("--border-size="@, arg) {
        Some(ValueKey::BorderSize)
    } else if is_prefix("--border-radius="@, arg) {
        Some(ValueKey::BorderRadius)
    } else if is_prefix("--background="@, arg) {
        Some(ValueKey::Background)
    } else if is_prefix("--text="@, arg) {
        Some(ValueKey::Text)
    } else if is_prefix("--border="@, arg) {
        Some(ValueKey::Border)
    } else if is_prefix("--edge="@, arg) {
        Some(ValueKey::Edge)
    } else if is_prefix("--scale="@, arg) {
        Some(ValueKey::Scale)
    } else if is_prefix("--text-antialias="@, arg) {
        Some(ValueKey::TextAntialias)
    } else if is_prefix("--text-hint="@, arg) {
        Some(ValueKey::TextHint)
    } else if is_prefix("--text-hint-metrics="@, arg) {
        Some(ValueKey::TextHintMetrics)
    } else if is_prefix("--default-offset="@, arg) {
        Some(ValueKey::DefaultOffset)
    } else if is_prefix("--stack-gap="@, arg) {
        Some(ValueKey::StackGap)
    } else if is_prefix("--name="@, arg) {
        Some(ValueKey::Name)
    } else if is_prefix("--class="@, arg) {
        Some(ValueKey::Class)
    } else if is_prefix("--state-dir="@, arg) {
        Some(ValueKey::StateDir)
    } else if is_prefix("--clear-by-name="@, arg) {
        Some(ValueKey::ClearByName)
    } else if is_prefix("--clear-by-class="@, arg) {
        Some(ValueKey::ClearByClass)
    } else if is_prefix("--clear-by-id="@, arg) {
        Some(ValueKey::ClearById)
    } else {
        None
    }
}

/// The state after option `k` took the value `v`.
pub open spec fn apply_value_spec(k: ValueKey, v: Seq<char>, st: ParseView) -> Result<ParseView, CliErrorView> {
    match k {
        ValueKey::Timeout => match decimal_u64(v) {
            Some(x) => Ok(ParseView { style: Style { timeout_ms: Some(x), ..st.style }, ..st }),
            None => Err(CliErrorView::InvalidNumber(v)),
        },
        ValueKey::Width => match decimal_i32(v) {
            Some(x) => Ok(ParseView { style: Style { width: Some(x), ..st.style }, ..st }),
            None => Err(CliErrorView::InvalidNumber(v)),
        },
        ValueKey::Font => Ok(ParseView { font: Some(v), ..st }),
        ValueKey::Padding => match decimal_i32(v) {
            Some(x) => Ok(ParseView { style: Style { padding: Some(x), ..st.style }, ..st }),
            None => Err(CliErrorView::InvalidNumber(v)),
        },
        ValueKey::BorderSize => match decimal_i32(v) {
            Some(x) => Ok(ParseView { style: Style { border_size: Some(x), ..st.style }, ..st }),
            None => Err(CliErrorView::InvalidNumber(v)),
        },
        ValueKey::BorderRadius => match decimal_i32(v) {
            Some(x) => Ok(ParseView { style: Style { border_radius: Some(x), ..st.style }, ..st }),
            None => Err(CliErrorView::InvalidNumber(v)),
        },
        ValueKey::Background => match hex_color_spec(v) {
            Some(x) => Ok(ParseView { style: Style { background: Some(x), ..st.style }, ..st }),
            None => Err(CliErrorView::InvalidColor("--background"@)),
        },
        ValueKey::Text => match hex_color_spec(v) {
            Some(x) => Ok(ParseView { style: Style { text: Some(x), ..st.style }, ..st }),
            None => Err(CliErrorView::InvalidColor("--text"@)),
        },
        ValueKey::Border => match hex_color_spec(v) {
            Some(x) => Ok(ParseView { style: Style { border: Some(x), ..st.style }, ..st }),
            None => Err(CliErrorView::InvalidColor("--border"@)),
        },
        ValueKey::Edge => match decimal_i32(v) {
            Some(x) => Ok(ParseView { style: Style { edge: Some(x), ..st.style }, ..st }),
            None => Err(CliErrorView::InvalidNumber(v)),
        },
        ValueKey::Scale => match decimal_i32(v) {
            Some(x) => Ok(ParseView { style: Style { output_scale: Some(x), ..st.style }, ..st }),
            None => Err(CliErrorView::InvalidNumber(v)),
        },
        ValueKey::TextAntialias => match antialias_spec(v) {
            Some(x) => Ok(ParseView { style: Style { text_antialias: Some(x), ..st.style }, ..st }),
            None => Err(CliErrorView::InvalidChoice("--text-antialias"@, v)),
        },
        ValueKey::TextHint => match hint_style_spec(v) {
            Some(x) => Ok(ParseView { style: Style { text_hint: Some(x), ..st.style }, ..st }),
            None => Err(CliErrorView::InvalidChoice("--text-hint"@, v)),
        },
        ValueKey::TextHintMetrics => match hint_metrics_spec(v) {
            Some(x) => Ok(ParseView { style: Style { text_hint_metrics: Some(x), ..st.style }, ..st }),
            None => Err(CliErrorView::InvalidChoice("--text-hint-metrics"@, v)),
        },
        ValueKey::DefaultOffset => match decimal_i32(v) {
            Some(x) => Ok(ParseView { style: Style { default_offset: Some(x), ..st.style }, ..st }),
            None => Err(CliErrorView::InvalidNumber(v)),
        },
        ValueKey::StackGap => match decimal_i32(v) {
            Some(x) => Ok(ParseView { style: Style { stack_gap: Some(x), ..st.style }, ..st }),
            None => Err(CliErrorView::InvalidNumber(v)),
        },
        ValueKey::Name => Ok(ParseView { name: Some(v), ..st }),
        ValueKey::Class => Ok(ParseView { class: Some(v), ..st }),
        ValueKey::StateDir => Ok(ParseView { state_dir: Some(v), ..st }),
        ValueKey::ClearByName => Ok(ParseView { command: Some(CommandView::ClearByName(v)), ..st }),
        ValueKey::ClearByClass => Ok(ParseView { command: Some(CommandView::ClearByClass(v)), ..st }),
        ValueKey::ClearById => match decimal_u64(v) {
            Some(x) => Ok(ParseView { command: Some(CommandView::ClearById(x)), ..st }),
            None => Err(CliErrorView::InvalidNumber(v)),
        },
    }
}

/// Reads the token at `p`, with the values it takes; the result holds the new
/// state and the position after what was read.
pub open spec fn step_spec(toks: Seq<Seq<char>>, p: int, st: ParseView) -> Result<(ParseView, int), CliErrorView> {
    let arg = toks[p];
    if position_flag_spec(arg) is Some {
        Ok((ParseView { position: position_flag_spec(arg)->0, ..st }, p + 1))
    } else if value_key_spec(arg) is Some {
        let k = value_key_spec(arg)->0;
        if p + 1 >= toks.len() {
            Err(CliErrorView::MissingValue(key_name(k)))
        } else {
            match apply_value_spec(k, toks[p + 1], st) {
                Ok(s2) => Ok((s2, p + 2)),
                Err(e) => Err(e),
            }
        }
    } else if inline_key_spec(arg) is Some {
        let k = inline_key_spec(arg)->0;
        match apply_value_spec(k, strip_all(arg, inline_name(k)), st) {
            Ok(s2) => Ok((s2, p + 1)),
            Err(e) => Err(e),
        }
    } else if arg == "--stack"@ {
        Ok((ParseView { style: Style { stack: Some(true), ..st.style }, ..st }, p + 1))
    } else if arg == "--no-stack"@ {
        Ok((ParseView { style: Style { stack: Some(false), ..st.style }, ..st }, p + 1))
    } else if arg == "--list-active"@ {
        Ok((ParseView { command: Some(CommandView::ListActive), ..st }, p + 1))
    } else if arg == "list"@ {
        if p + 1 >= toks.len() {
            Err(CliErrorView::MissingValue("list"@))
        } else if toks[p + 1] != "active"@ {
            Err(CliErrorView::ListUsage)
        } else {
            Ok((ParseView { command: Some(CommandView::ListActive), ..st }, p + 2))
        }
    } else if arg == "clear"@ {
        match clear_command_spec(toks, p + 1) {
            (Ok(c), p2) => Ok((ParseView { command: Some(c), ..st }, p2)),
            (Err(e), _) => Err(e),
        }
    } else if arg == "--help"@ || arg == "-h"@ {
        Ok((ParseView { command: Some(CommandView::Help), ..st }, p + 1))
    } else if arg.len() > 0 && arg[0] == '-' {
        Err(CliErrorView::UnknownOption(arg))
    } else {
        Ok((ParseView { rest: st.rest.push(arg), ..st }, p + 1))
    }
}

/// Reads the tokens from `p` to the end.
pub open spec fn parse_from(toks: Seq<Seq<char>>, p: int, st: ParseView) -> Result<ParseView, CliErrorView>
    decreases toks.len() - p,
{
    if p < 0 || p >= toks.len() {
        Ok(st)
    } else {
        match step_spec(toks, p, st) {
            Err(e) => Err(e),
            // A step always moves forward; the first arm only makes that evident.
            Ok((s2, p2)) => if p2 <= p {
                Ok(s2)
            } else {
                parse_from(toks, p2, s2)
            },
        }
    }
}

/// The words joined by single spaces.
pub open spec fn join_spaces(words: Seq<Seq<char>>) -> Seq<char>
    decreases words.len(),
{
    if words.len() == 0 {
        Seq::empty()
    } else if words.len() == 1 {
        words[0]
    } else {
        join_spaces(words.drop_last()) + " "@ + words.last()
    }
}

/// A notification's text: the only word, or the first word as title and the
/// others, joined by spaces, as body on the next line.
pub open spec fn message_spec(words: Seq<Seq<char>>) -> Seq<char> {
    if words.len() == 1 {
        words[0]
    } else {
        words[0] + "\n"@ + join_spaces(words.skip(1))
    }
}

pub struct ArgsView {
    pub command: CommandView,
    pub state_dir: Option<Seq<char>>,
}

/// The command a fully read command line asks for.
pub open spec fn finish_spec(st: ParseView) -> Result<ArgsView, CliErrorView> {
    match st.command {
        Some(c) => if st.rest.len() > 0 {
            Err(CliErrorView::UnexpectedArguments)
        } else {
            Ok(ArgsView { command: c, state_dir: st.state_dir })
        },
        None => if st.rest.len() == 0 {
            Err(CliErrorView::MissingMessage)
        } else {
            Ok(
                ArgsView {
                    command: CommandView::Show(st.position, message_spec(st.rest), st.name, st.class),
                    state_dir: st.state_dir,
                },
            )
        },
    }
}

/// The meaning of a whole command line: the command with its state directory,
/// and the settings it changes.
pub open spec fn parse_tokens_spec(toks: Seq<Seq<char>>) -> Result<(ArgsView, (Option<Seq<char>>, Style)), CliErrorView> {
    match parse_from(toks, 0, initial_parse()) {
        Err(e) => Err(e),
        Ok(st) => match finish_spec(st) {
            Err(e) => Err(e),
            Ok(a) => Ok((a, (st.font, st.style))),
        },
    }
}

impl View for Args {
    type V = ArgsView;

    open spec fn view(&self) -> ArgsView {
        ArgsView { command: self.command@, state_dir: crate::cli::opt_text(self.state_dir) }
    }
}

impl View for Overrides {
    type V = (Option<Seq<char>>, Style);

    open spec fn view(&self) -> (Option<Seq<char>>, Style) {
        (crate::cli::opt_text(self.font), self.style)
    }
}

pub open spec fn opt_command(c: Option<Command>) -> Option<CommandView> {
    match c {
        Some(c) => Some(c@),
        None => None,
    }
}

struct ParseState {
    position: Position,
    name: Option<String>,
    class: Option<String>,
    state_dir: Option<String>,
    command: Option<Command>,
    rest: Vec<String>,
    font: Option<String>,
    style: Style,
}

impl View for ParseState {
    type V = ParseView;

    closed spec fn view(&self) -> ParseView {
        ParseView {
            position: self.position,
            name: crate::cli::opt_text(self.name),
            class: crate::cli::opt_text(self.class),
            state_dir: crate::cli::opt_text(self.state_dir),
            command: opt_command(self.command),
            rest: texts(self.rest@),
            font: crate::cli::opt_text(self.font),
            style: self.style,
        }
    }
}

fn position_flag(arg: &str) -> (r: Option<Position>)
    ensures
        r == position_flag_spec(arg@),
{
    if text_eq(arg, "--top-left") {
        Some(Position::TopLeft)
    } else if text_eq(arg, "--top") {
        Some(Position::Top)
    } else if text_eq(arg, "--top-center") {
        Some(Position::Top)
    } else if text_eq(arg, "--top-right") {
        Some(Position::TopRight)
    } else if text_eq(arg, "--left") {
        Some(Position::Left)
    } else if text_eq(arg, "--center") {
        Some(Position::Center)
    } else if text_eq(arg, "--right") {
        Some(Position::Right)
    } else if text_eq(arg, "--bottom-left") {
        Some(Position::BottomLeft)
    } else if text_eq(arg, "--bottom") {
        Some(Position::Bottom)
    } else if text_eq(arg, "--bottom-center") {
        Some(Position::Bottom)
    } else if text_eq(arg, "--bottom-right") {
        Some(Position::BottomRight)
    } else {
        None
    }
}

fn value_key(arg: &str) -> (r: Option<ValueKey>)
    ensures
        r == value_key_spec(arg@),
{
    if text_eq(arg, "--timeout") {
        Some(ValueKey::Timeout)
    } else if text_eq(arg, "--width") {
        Some(ValueKey::Width)
    } else if text_eq(arg, "--font") {
        Some(ValueKey::Font)
    } else if text_eq(arg, "--padding") {
        Some(ValueKey::Padding)
    } else if text_eq(arg, "--border-size") {
        Some(ValueKey::BorderSize)
    } else if text_eq(arg, "--border-radius") {
        Some(ValueKey::BorderRadius)
    } else if text_eq(arg, "--background") {
        Some(ValueKey::Background)
    } else if text_eq(arg, "--text") {
        Some(ValueKey::Text)
    } else if text_eq(arg, "--border") {
        Some(ValueKey::Border)
    } else if text_eq(arg, "--edge") {
        Some(ValueKey::Edge)
    } else if text_eq(arg, "--scale") {
        Some(ValueKey::Scale)
    } else if text_eq(arg, "--text-antialias") {
        Some(ValueKey::TextAntialias)
    } else if text_eq(arg, "--text-hint") {
        Some(ValueKey::TextHint)
    } else if text_eq(arg, "--text-hint-metrics") {
        Some(ValueKey::TextHintMetrics)
    } else if text_eq(arg, "--default-offset") {
        Some(ValueKey::DefaultOffset)
    } else if text_eq(arg, "--stack-gap") {
        Some(ValueKey::StackGap)
    } else if text_eq(arg, "--name") {
        Some(ValueKey::Name)
    } else if text_eq(arg, "--class") {
        Some(ValueKey::Class)
    } else if text_eq(arg, "--state-dir") {
        Some(ValueKey::StateDir)
    } else if text_eq(arg, "--clear-by-name") {
        Some(ValueKey::ClearByName)
    } else if text_eq(arg, "--clear-by-class") {
        Some(ValueKey::ClearByClass)
    } else if text_eq(arg, "--clear-by-id") {
        Some(ValueKey::ClearById)
    } else {
        None
    }
}

fn inline_key(arg: &str) -> (r: Option<ValueKey>)
    ensures
        r == inline_key_spec(arg@),
{
    if starts_with_text(arg, "--timeout=") {
        Some(ValueKey::Timeout)
    } else if starts_with_text(arg, "--width=") {
        Some(ValueKey::Width)
    } else if starts_with_text(arg, "--font=") {
        Some(ValueKey::Font)
    } else if starts_with_text(arg, "--padding=") {
        Some(ValueKey::Padding)
    } else if starts_with_text(arg, "--border-size=") {
        Some(ValueKey::BorderSize)
    } else if starts_with_text(arg, "--border-radius=") {
        Some(ValueKey::BorderRadius)
    } else if starts_with_text(arg, "--background=") {
        Some(ValueKey::Background)
    } else if starts_with_text(arg, "--text=") {
        Some(ValueKey::Text)
    } else if starts_with_text(arg, "--border=") {
        Some(ValueKey::Border)
    } else if starts_with_text(arg, "--edge=") {
        Some(ValueKey::Edge)
    } else if starts_with_text(arg, "--scale=") {
        Some(ValueKey::Scale)
    } else if starts_with_text(arg, "--text-antialias=") {
        Some(ValueKey::TextAntialias)
    } else if starts_with_text(arg, "--text-hint=") {
        Some(ValueKey::TextHint)
    } else if starts_with_text(arg, "--text-hint-metrics=") {
        Some(ValueKey::TextHintMetrics)
    } else if starts_with_text(arg, "--default-offset=") {
        Some(ValueKey::DefaultOffset)
    } else if starts_with_text(arg, "--stack-gap=") {
        Some(ValueKey::StackGap)
    } else if starts_with_text(arg, "--name=") {
        Some(ValueKey::Name)
    } else if starts_with_text(arg, "--class=") {
        Some(ValueKey::Class)
    } else if starts_with_text(arg, "--state-dir=") {
        Some(ValueKey::StateDir)
    } else if starts_with_text(arg, "--clear-by-name=") {
        Some(ValueKey::ClearByName)
    } else if starts_with_text(arg, "--clear-by-class=") {
        Some(ValueKey::ClearByClass)
    } else if starts_with_text(arg, "--clear-by-id=") {
        Some(ValueKey::ClearById)
    } else {
        None
    }
}

fn key_name_text(k: ValueKey) -> (r: &'static str)
    ensures
        r@ == key_name(k),
{
    match k {
        ValueKey::Timeout => "--timeout",
        ValueKey::Width => "--width",
        ValueKey::Font => "--font",
        ValueKey::Padding => "--padding",
        ValueKey::BorderSize => "--border-size",
        ValueKey::BorderRadius => "--border-radius",
        ValueKey::Background => "--background",
        ValueKey::Text => "--text",
        ValueKey::Border => "--border",
        ValueKey::Edge => "--edge",
        ValueKey::Scale => "--scale",
        ValueKey::TextAntialias => "--text-antialias",
        ValueKey::TextHint => "--text-hint",
        ValueKey::TextHintMetrics => "--text-hint-metrics",
        ValueKey::DefaultOffset => "--default-offset",
        ValueKey::StackGap => "--stack-gap",
        ValueKey::Name => "--name",
        ValueKey::Class => "--class",
        ValueKey::StateDir => "--state-dir",
        ValueKey::ClearByName => "--clear-by-name",
        ValueKey::ClearByClass => "--clear-by-class",
        ValueKey::ClearById => "--clear-by-id",
    }
}

fn inline_name_text(k: ValueKey) -> (r: &'static str)
    ensures
        r@ == inline_name(k),
{
    match k {
        ValueKey::Timeout => "--timeout=",
        ValueKey::Width => "--width=",
        ValueKey::Font => "--font=",
        ValueKey::Padding => "--padding=",
        ValueKey::BorderSize => "--border-size=",
        ValueKey::BorderRadius => "--border-radius=",
        ValueKey::Background => "--background=",
        ValueKey::Text => "--text=",
        ValueKey::Border => "--border=",
        ValueKey::Edge => "--edge=",
        ValueKey::Scale => "--scale=",
        ValueKey::TextAntialias => "--text-antialias=",
        ValueKey::TextHint => "--text-hint=",
        ValueKey::TextHintMetrics => "--text-hint-metrics=",
        ValueKey::DefaultOffset => "--default-offset=",
        ValueKey::StackGap => "--stack-gap=",
        ValueKey::Name => "--name=",
        ValueKey::Class => "--class=",
        ValueKey::StateDir => "--state-dir=",
        ValueKey::ClearByName => "--clear-by-name=",
        ValueKey::ClearByClass => "--clear-by-class=",
        ValueKey::ClearById => "--clear-by-id=",
    }
}

fn apply_value(k: ValueKey, v: String, st: &mut ParseState) -> (r: Result<(), CliError>)
    ensures
        match apply_value_spec(k, v@, old(st)@) {
            Ok(s2) => r is Ok && final(st)@ == s2,
            Err(e) => r is Err && r->Err_0@ == e,
        },
{
    match k {
        ValueKey::Timeout => match parse_u64(v.as_str()) {
            Some(x) => {
                st.style.timeout_ms = Some(x);
                Ok(())
            },
            None => Err(CliError::InvalidNumber(v)),
        },
        ValueKey::Width => match parse_i32(v.as_str()) {
            Some(x) => {
                st.style.width = Some(x);
                Ok(())
            },
            None => Err(CliError::InvalidNumber(v)),
        },
        ValueKey::Font => {
            st.font = Some(v);
            Ok(())
        },
        ValueKey::Padding => match parse_i32(v.as_str()) {
            Some(x) => {
                st.style.padding = Some(x);
                Ok(())
            },
            None => Err(CliError::InvalidNumber(v)),
        },
        ValueKey::BorderSize => match parse_i32(v.as_str()) {
            Some(x) => {
                st.style.border_size = Some(x);
                Ok(())
            },
            None => Err(CliError::InvalidNumber(v)),
        },
        ValueKey::BorderRadius => match parse_i32(v.as_str()) {
            Some(x) => {
                st.style.border_radius = Some(x);
                Ok(())
            },
            None => Err(CliError::InvalidNumber(v)),
        },
        ValueKey::Background => match parse_hex_color(v.as_str()) {
            Some(x) => {
                st.style.background = Some(x);
                Ok(())
            },
            None => Err(CliError::InvalidColor(String::from_str("--background"))),
        },
        ValueKey::Text => match parse_hex_color(v.as_str()) {
            Some(x) => {
                st.style.text = Some(x);
                Ok(())
            },
            None => Err(CliError::InvalidColor(String::from_str("--text"))),
        },
        ValueKey::Border => match parse_hex_color(v.as_str()) {
            Some(x) => {
                st.style.border = Some(x);
                Ok(())
            },
            None => Err(CliError::InvalidColor(String::from_str("--border"))),
        },
        ValueKey::Edge => match parse_i32(v.as_str()) {
            Some(x) => {
                st.style.edge = Some(x);
                Ok(())
            },
            None => Err(CliError::InvalidNumber(v)),
        },
        ValueKey::Scale => match parse_i32(v.as_str()) {
            Some(x) => {
                st.style.output_scale = Some(x);
                Ok(())
            },
            None => Err(CliError::InvalidNumber(v)),
        },
        ValueKey::TextAntialias => match parse_antialias(v.as_str()) {
            Ok(x) => {
                st.style.text_antialias = Some(x);
                Ok(())
            },
            Err(e) => Err(e),
        },
        ValueKey::TextHint => match parse_hint_style(v.as_str()) {
            Ok(x) => {
                st.style.text_hint = Some(x);
                Ok(())
            },
            Err(e) => Err(e),
        },
        ValueKey::TextHintMetrics => match parse_hint_metrics(v.as_str()) {
            Ok(x) => {
                st.style.text_hint_metrics = Some(x);
                Ok(())
            },
            Err(e) => Err(e),
        },
        ValueKey::DefaultOffset => match parse_i32(v.as_str()) {
            Some(x) => {
                st.style.default_offset = Some(x);
                Ok(())
            },
            None => Err(CliError::InvalidNumber(v)),
        },
        ValueKey::StackGap => match parse_i32(v.as_str()) {
            Some(x) => {
                st.style.stack_gap = Some(x);
                Ok(())
            },
            None => Err(CliError::InvalidNumber(v)),
        },
        ValueKey::Name => {
            st.name = Some(v);
            Ok(())
        },
        ValueKey::Class => {
            st.class = Some(v);
            Ok(())
        },
        ValueKey::StateDir => {
            st.state_dir = Some(v);
            Ok(())
        },
        ValueKey::ClearByName => {
            st.command = Some(Command::ClearByName(v));
            Ok(())
        },
        ValueKey::ClearByClass => {
            st.command = Some(Command::ClearByClass(v));
            Ok(())
        },
        ValueKey::ClearById => match parse_u64(v.as_str()) {
            Some(x) => {
                st.command = Some(Command::ClearById(x));
                Ok(())
            },
            None => Err(CliError::InvalidNumber(v)),
        },
    }
}

/// Reads the token at `*pos`, with the values it takes, into `st`.
fn parse_step(tokens: &Vec<String>, pos: &mut usize, st: &mut ParseState) -> (r: Result<(), CliError>)
    requires
        *old(pos) < tokens@.len(),
    ensures
        match step_spec(texts(tokens@), *old(pos) as int, old(st)@) {
            Ok((s2, p2)) => r is Ok && final(st)@ == s2 && *final(pos) as int == p2,
            Err(e) => r is Err && r->Err_0@ == e,
        },
        r is Ok ==> *final(pos) > *old(pos),
{
    let ghost toks = texts(tokens@);
    let n = tokens.len();
    let arg = tokens[*pos].clone();
    assert(toks[*pos as int] == arg@);
    match position_flag(arg.as_str()) {
        Some(p) => {
            st.position = p;
            *pos = *pos + 1;
            return Ok(());
        },
        None => {},
    }
    match value_key(arg.as_str()) {
        Some(k) => {
            *pos = *pos + 1;
            if *pos >= n {
                return Err(CliError::MissingValue(String::from_str(key_name_text(k))));
            }
            assert(toks[*pos as int] == tokens@[*pos as int]@);
            let v = tokens[*pos].clone();
            *pos = *pos + 1;
            return apply_value(k, v, st);
        },
        None => {},
    }
    match inline_key(arg.as_str()) {
        Some(k) => {
            let v = strip_all_prefix(arg.as_str(), inline_name_text(k));
            *pos = *pos + 1;
            return apply_value(k, v, st);
        },
        None => {},
    }
    if text_eq(arg.as_str(), "--stack") {
        st.style.stack = Some(true);
    } else if text_eq(arg.as_str(), "--no-stack") {
        st.style.stack = Some(false);
    } else if text_eq(arg.as_str(), "--list-active") {
        st.command = Some(Command::ListActive);
    } else if text_eq(arg.as_str(), "list") {
        *pos = *pos + 1;
        if *pos >= n {
            return Err(CliError::MissingValue(String::from_str("list")));
        }
        assert(toks[*pos as int] == tokens@[*pos as int]@);
        if !text_eq(tokens[*pos].as_str(), "active") {
            return Err(CliError::ListUsage);
        }
        st.command = Some(Command::ListActive);
    } else if text_eq(arg.as_str(), "clear") {
        *pos = *pos + 1;
        match parse_clear_command(tokens, pos) {
            Ok(c) => {
                st.command = Some(c);
                return Ok(());
            },
            Err(e) => {
                return Err(e);
            },
        }
    } else if text_eq(arg.as_str(), "--help") || text_eq(arg.as_str(), "-h") {
        st.command = Some(Command::Help);
    } else if arg.as_str().unicode_len() > 0 && arg.as_str().get_char(0) == '-' {
        return Err(CliError::UnknownOption(arg));
    } else {
        let ghost before = st.rest@;
        st.rest.push(arg);
        assert(texts(st.rest@) == texts(before).push(toks[*pos as int]));
    }
    *pos = *pos + 1;
    Ok(())
}

/// The notification text from the message words (at least one).
fn build_message(words: &Vec<String>) -> (r: String)
    requires
        words@.len() >= 1,
    ensures
        r@ == message_spec(texts(words@)),
{
    let ghost ws = texts(words@);
    if words.len() == 1 {
        return words[0].clone();
    }
    let mut m = words[0].clone();
    m.append("\n");
    let mut body = words[1].clone();
    assert(ws.subrange(1, 2) == seq![ws[1]]);
    let mut i: usize = 2;
    while i < words.len()
        invariant
            ws == texts(words@),
            2 <= i <= words.len(),
            body@ == join_spaces(ws.subrange(1, i as int)),
        decreases words.len() - i,
    {
        assert(ws.subrange(1, i + 1).drop_last() == ws.subrange(1, i as int));
        body.append(" ");
        body.append(words[i].as_str());
        i += 1;
    }
    assert(ws.subrange(1, words@.len() as int) == ws.skip(1));
    m.append(body.as_str());
    m
}

/// Reads a whole command line: the command, the state directory and the
/// settings it changes. Later options override earlier ones.
pub fn parse_tokens(tokens: Vec<String>) -> (r: Result<(Args, Overrides), CliError>)
    ensures
        match parse_tokens_spec(texts(tokens@)) {
            Ok((a, o)) => r is Ok && (r->Ok_0).0@ == a && (r->Ok_0).1@ == o,
            Err(e) => r is Err && r->Err_0@ == e,
        },
{
    let ghost toks = texts(tokens@);
    let mut st = ParseState {
        position: Position::Default,
        name: None,
        class: None,
        state_dir: None,
        command: None,
        rest: Vec::new(),
        font: None,
        style: Style {
            width: None,
            padding: None,
            border_size: None,
            border_radius: None,
            timeout_ms: None,
            background: None,
            text: None,
            border: None,
            edge: None,
            default_offset: None,
            stack_gap: None,
            stack: None,
            output_scale: None,
            text_antialias: None,
            text_hint: None,
            text_hint_metrics: None,
        },
    };
    assert(texts(st.rest@) == Seq::<Seq<char>>::empty());
    assert(st@ == initial_parse());
    let mut pos: usize = 0;
    while pos < tokens.len()
        invariant
            toks == texts(tokens@),
            pos <= tokens.len(),
            parse_from(toks, 0, initial_parse()) == parse_from(toks, pos as int, st@),
        decreases tokens.len() - pos,
    {
        match parse_step(&tokens, &mut pos, &mut st) {
            Ok(()) => {},
            Err(e) => {
                return Err(e);
            },
        }
    }
    let command = match st.command {
        Some(c) => {
            if st.rest.len() > 0 {
                return Err(CliError::UnexpectedArguments);
            }
            c
        },
        None => {
            if st.rest.len() == 0 {
                return Err(CliError::MissingMessage);
            }
            let message = build_message(&st.rest);
            Command::Show(
                crate::cli::AlertArgs {
                    position: st.position,
                    message,
                    name: st.name,
                    class: st.class,
                },
            )
        },
    };
    Ok((Args { command, state_dir: st.state_dir }, Overrides { font: st.font, style: st.style }))
}

} // verus!
