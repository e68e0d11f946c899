use vstd::prelude::*;
use vstd::string::StrSliceExecFns;

use crate::placement::Position;
use crate::text::{first_line, has_char, is_prefix, starts_with_text, text_eq, trim, truncate_bytes, first_line_trimmed, truncate_to_bytes};

verus! {

/// Why a command line was refused.
#[derive(Debug)]
pub enum CliError {
    /// The option or word named here needs a following value.
    MissingValue(String),
    /// `clear` must be followed by `by <name|class|id> <value>`.
    ClearUsage,
    /// This text is not a number of the expected type.
    InvalidNumber(String),
    /// The option named first does not take the value given second.
    InvalidChoice(String, String),
    /// The option named here takes a colour, `#RRGGBB` or `#RRGGBBAA`.
    InvalidColor(String),
    /// `list` must be followed by `active`.
    ListUsage,
    /// An option that the tool does not know.
    UnknownOption(String),
    /// A notification needs a message.
    MissingMessage,
    /// A control command takes no message words.
    UnexpectedArguments,
    /// A style-file line could not be split into words.
    StyleLine,
}

pub enum CliErrorView {
    MissingValue(Seq<char>),
    ClearUsage,
    InvalidNumber(Seq<char>),
    InvalidChoice(Seq<char>, Seq<char>),
    InvalidColor(Seq<char>),
    ListUsage,
    UnknownOption(Seq<char>),
    MissingMessage,
    UnexpectedArguments,
    StyleLine,
}

impl View for CliError {
    type V = CliErrorView;

    open spec fn view(&self) -> CliErrorView {
        match self {
            CliError::MissingValue(s) => CliErrorView::MissingValue(s@),
            CliError::ClearUsage => CliErrorView::ClearUsage,
            CliError::InvalidNumber(s) => CliErrorView::InvalidNumber(s@),
            CliError::InvalidChoice(o, v) => CliErrorView::InvalidChoice(o@, v@),
            CliError::InvalidColor(o) => CliErrorView::InvalidColor(o@),
            CliError::ListUsage => CliErrorView::ListUsage,
            CliError::UnknownOption(o) => CliErrorView::UnknownOption(o@),
            CliError::MissingMessage => CliErrorView::MissingMessage,
            CliError::UnexpectedArguments => CliErrorView::UnexpectedArguments,
            CliError::StyleLine => CliErrorView::StyleLine,
        }
    }
}

/// A notification to show.
#[derive(Debug)]
pub struct AlertArgs {
    pub position: Position,
    pub message: String,
    pub name: Option<String>,
    pub class: Option<String>,
}

/// What one run of the tool is asked to do.
#[derive(Debug)]
pub enum Command {
    Help,
    Show(AlertArgs),
    ListActive,
    ClearByName(String),
    ClearByClass(String),
    ClearById(u64),
}

pub enum CommandView {
    Help,
    Show(Position, Seq<char>, Option<Seq<char>>, Option<Seq<char>>),
    ListActive,
    ClearByName(Seq<char>),
    ClearByClass(Seq<char>),
    ClearById(u64),
}

pub open spec fn opt_text(o: Option<String>) -> Option<Seq<char>> {
    match o {
        Some(s) => Some(s@),
        None => None,
    }
}

impl View for Command {
    type V = CommandView;

    open spec fn view(&self) -> CommandView {
        match self {
            Command::Help => CommandView::Help,
            Command::Show(a) => CommandView::Show(
                a.position,
                a.message@,
                opt_text(a.name),
                opt_text(a.class),
            ),
            Command::ListActive => CommandView::ListActive,
            Command::ClearByName(s) => CommandView::ClearByName(s@),
            Command::ClearByClass(s) => CommandView::ClearByClass(s@),
            Command::ClearById(n) => CommandView::ClearById(*n),
        }
    }
}

pub open spec fn texts(v: Seq<String>) -> Seq<Seq<char>> {
    v.map_values(|t: String| t@)
}

pub open spec fn result_view<T: View>(r: Result<T, CliError>) -> Result<T::V, CliErrorView> {
    match r {
        Ok(v) => Ok(v@),
        Err(e) => Err(e@),
    }
}

pub open spec fn is_digit(c: char) -> bool {
    '0' <= c <= '9'
}

/// The value of a string of decimal digits.
pub open spec fn digits_value(s: Seq<char>) -> int
    decreases s.len(),
{
    if s.len() == 0 {
        0
    } else {
        10 * digits_value(s.drop_last()) + ((s.last() as u32) - ('0' as u32))
    }
}

/// What `u64`'s `FromStr` accepts: an optional `+`, then at least one decimal
/// digit and nothing else, for a value in range.
pub open spec fn decimal_u64(s: Seq<char>) -> Option<u64> {
    let d = if s.len() > 0 && s[0] == '+' {
        s.drop_first()
    } else {
        s
    };
    if d.len() > 0 && (forall|i: int| 0 <= i < d.len() ==> is_digit(d[i])) && digits_value(d)
        <= u64::MAX {
        Some(digits_value(d) as u64)
    } else {
        None
    }
}

/// Relies on `<u64 as FromStr>::from_str`, which accepts exactly `decimal_u64`.
#[verifier::external_body]
pub(crate) fn parse_u64(s: &str) -> (r: Option<u64>)
    ensures
        r == decimal_u64(s@),
{
    s.parse::<u64>().ok()
}

/// Takes the token at `*pos` as the value of `name`, and moves past it.
pub fn next_value(name: &str, tokens: &Vec<String>, pos: &mut usize) -> (r: Result<String, CliError>)
    ensures
        *old(pos) < tokens@.len() ==> r is Ok && (r->Ok_0) == tokens@[*old(pos) as int] && *final(pos)
            == *old(pos) + 1,
        *old(pos) >= tokens@.len() ==> result_view(r) == Err::<Seq<char>, CliErrorView>(
            CliErrorView::MissingValue(name@),
        ) && *final(pos) == *old(pos),
{
    if *pos < tokens.len() {
        let v = tokens[*pos].clone();
        *pos = *pos + 1;
        Ok(v)
    } else {
        Err(CliError::MissingValue(String::from_str(name)))
    }
}

/// `clear by <name|class|id> <value>`, read from position `p` (just after `clear`);
/// the second component is the position after what was read.
pub open spec fn clear_command_spec(toks: Seq<Seq<char>>, p: int) -> (
    Result<CommandView, CliErrorView>,
    int,
) {
    if p >= toks.len() {
        (Err(CliErrorView::MissingValue("clear"@)), p)
    } else if toks[p] != "by"@ {
        (Err(CliErrorView::ClearUsage), p + 1)
    } else if p + 1 >= toks.len() {
        (Err(CliErrorView::MissingValue("clear by"@)), p + 1)
    } else if p + 2 >= toks.len() {
        (Err(CliErrorView::MissingValue("clear by <key>"@)), p + 2)
    } else {
        let key = toks[p + 1];
        let value = toks[p + 2];
        (
            if key == "name"@ {
                Ok(CommandView::ClearByName(value))
            } else if key == "class"@ {
                Ok(CommandView::ClearByClass(value))
            } else if key == "id"@ {
                match decimal_u64(value) {
                    Some(n) => Ok(CommandView::ClearById(n)),
                    None => Err(CliErrorView::InvalidNumber(value)),
                }
            } else {
                Err(CliErrorView::ClearUsage)
            },
            p + 3,
        )
    }
}

/// Reads the rest of a `clear` command from `tokens`, starting at `*pos`.
pub fn parse_clear_command(tokens: &Vec<String>, pos: &mut usize) -> (r: Result<Command, CliError>)
    ensures
        (result_view(r), *final(pos) as int) == clear_command_spec(texts(tokens@), *old(pos) as int),
{
    let by = match next_value("clear", tokens, pos) {
        Ok(v) => v,
        Err(e) => return Err(e),
    };
    if !text_eq(by.as_str(), "by") {
        return Err(CliError::ClearUsage);
    }
    let key = match next_value("clear by", tokens, pos) {
        Ok(v) => v,
        Err(e) => return Err(e),
    };
    let value = match next_value("clear by <key>", tokens, pos) {
        Ok(v) => v,
        Err(e) => return Err(e),
    };
    if text_eq(key.as_str(), "name") {
        Ok(Command::ClearByName(value))
    } else if text_eq(key.as_str(), "class") {
        Ok(Command::ClearByClass(value))
    } else if text_eq(key.as_str(), "id") {
        match parse_u64(value.as_str()) {
            Some(n) => Ok(Command::ClearById(n)),
            None => Err(CliError::InvalidNumber(value)),
        }
    } else {
        Err(CliError::ClearUsage)
    }
}

/// Scans tokens from `i`, taking out `--style <value>` and `--style=<value>`;
/// the last one given wins, and the other tokens are kept in order. `None` where
/// `--style` is the last token.
pub open spec fn style_scan(
    toks: Seq<Seq<char>>,
    i: int,
    style: Option<Seq<char>>,
    out: Seq<Seq<char>>,
) -> Option<(Option<Seq<char>>, Seq<Seq<char>>)>
    decreases toks.len() - i,
{
    if i < 0 || i >= toks.len() {
        Some((style, out))
    } else if toks[i] == "--style"@ {
        if i + 1 >= toks.len() {
            None
        } else {
            style_scan(toks, i + 2, Some(toks[i + 1]), out)
        }
    } else if is_prefix("--style="@, toks[i]) {
        style_scan(toks, i + 1, Some(toks[i].skip("--style="@.len() as int)), out)
    } else {
        style_scan(toks, i + 1, style, out.push(toks[i]))
    }
}

/// Splits the style choice off the command-line tokens.
pub fn extract_style_arg(tokens: Vec<String>) -> (r: Result<(Option<String>, Vec<String>), CliError>)
    ensures
        ({
            let scan = style_scan(texts(tokens@), 0, None, Seq::empty());
            &&& r is Ok <==> scan is Some
            &&& r is Ok ==> scan == Some((opt_text((r->Ok_0).0), texts((r->Ok_0).1@)))
            &&& r is Err ==> r->Err_0@ == CliErrorView::MissingValue("--style"@)
        }),
{
    let ghost toks = texts(tokens@);
    let mut out: Vec<String> = Vec::new();
    let mut style: Option<String> = None;
    let mut i: usize = 0;
    assert(texts(out@) == Seq::<Seq<char>>::empty());
    while i < tokens.len()
        invariant
            toks == texts(tokens@),
            0 <= i <= tokens.len(),
            style_scan(toks, 0, None, Seq::empty()) == style_scan(
                toks,
                i as int,
                opt_text(style),
                texts(out@),
            ),
        decreases tokens.len() - i,
    {
        let arg = &tokens[i];
        assert(toks[i as int] == arg@);
        if text_eq(arg.as_str(), "--style") {
            if i + 1 >= tokens.len() {
                return Err(CliError::MissingValue(String::from_str("--style")));
            }
            assert(toks[i + 1] == tokens@[i + 1]@);
            style = Some(tokens[i + 1].clone());
            i += 2;
        } else if starts_with_text(arg.as_str(), "--style=") {
            let p = "--style=".unicode_len();
            let n = arg.unicode_len();
            style = Some(String::from_str(arg.as_str().substring_char(p, n)));
            assert(arg@.subrange(p as int, n as int) == arg@.skip(p as int));
            i += 1;
        } else {
            let ghost before = out@;
            out.push(arg.clone());
            assert(texts(out@) == texts(before).push(arg@));
            i += 1;
        }
    }
    Ok((style, out))
}

/// Where the configuration file of a style lives: a style naming a path (it
/// holds a `/`) is used as it is; a bare name lies in `<config home>/creak/`;
/// without a style, `<config home>/creak/config`.
pub open spec fn config_path_spec(xdg_config_home: Seq<char>, style: Option<Seq<char>>) -> Seq<char> {
    match style {
        Some(v) => if v.contains('/') {
            v
        } else {
            xdg_config_home + "/creak"@ + "/"@ + v
        },
        None => xdg_config_home + "/creak"@ + "/config"@,
    }
}

pub fn config_path_for_style(xdg_config_home: &str, style: Option<&str>) -> (r: String)
    ensures
        r@ == config_path_spec(
            xdg_config_home@,
            match style {
                Some(v) => Some(v@),
                None => None,
            },
        ),
{
    match style {
        Some(value) => {
            if has_char(value, '/') {
                String::from_str(value)
            } else {
                let mut path = String::from_str(xdg_config_home);
                path.append("/creak");
                path.append("/");
                path.append(value);
                path
            }
        },
        None => {
            let mut path = String::from_str(xdg_config_home);
            path.append("/creak");
            path.append("/config");
            path
        },
    }
}

/// The most bytes a ledger summary of a message keeps.
pub const SUMMARY_MAX_BYTES: usize = 120;

/// The summary recorded in the ledger: the message's first line without
/// surrounding white space, cut to at most 120 bytes on a character boundary.
pub fn message_summary(message: &str) -> (r: String)
    ensures
        r@ == truncate_bytes(trim(first_line(message@)), SUMMARY_MAX_BYTES as int),
{
    let line = first_line_trimmed(message);
    truncate_to_bytes(line.as_str(), SUMMARY_MAX_BYTES)
}

} // verus!
