use vstd::prelude::*;
use vstd::string::StrSliceExecFns;

use crate::cli::{is_digit, CliError, CliErrorView};
use crate::cli::texts;
use crate::text::{first_line, line_end, is_prefix, starts_with_text, text_eq, trim, trim_text};

verus! {

broadcast use vstd::seq_lib::group_seq_properties;

/// A colour as red, green, blue and alpha bytes.
#[derive(Clone, Copy, Debug, PartialEq, Eq, Structural)]
pub struct Rgba {
    pub r: u8,
    pub g: u8,
    pub b: u8,
    pub a: u8,
}

/// How glyph edges are smoothed; no value means the font backend's default.
#[derive(Clone, Copy, Debug, PartialEq, Eq, Structural)]
pub enum TextAntialias {
    Plain,
    Gray,
    Subpixel,
}

#[derive(Clone, Copy, Debug, PartialEq, Eq, Structural)]
pub enum TextHintStyle {
    Unhinted,
    Slight,
    Medium,
    Full,
}

#[derive(Clone, Copy, Debug, PartialEq, Eq, Structural)]
pub enum TextHintMetrics {
    On,
    Off,
}

/// `s` with every leading copy of `p` removed.
pub open spec fn strip_all(s: Seq<char>, p: Seq<char>) -> Seq<char>
    decreases s.len(),
{
    if p.len() > 0 && is_prefix(p, s) {
        strip_all(s.skip(p.len() as int), p)
    } else {
        s
    }
}

/// Removes every leading copy of `p` from `s`.
pub fn strip_all_prefix(s: &str, p: &str) -> (r: String)
    ensures
        r@ == strip_all(s@, p@),
{
    let n = s.unicode_len();
    let k = p.unicode_len();
    if k == 0 {
        return String::from_str(s);
    }
    let mut at: usize = 0;
    let mut cur = String::from_str(s);
    while starts_with_text(cur.as_str(), p)
        invariant
            k == p@.len() > 0,
            n == s@.len(),
            0 <= at <= n,
            cur@ == s@.skip(at as int),
            strip_all(s@, p@) == strip_all(cur@, p@),
        decreases n - at,
    {
        let m = cur.unicode_len();
        let next = String::from_str(cur.as_str().substring_char(k, m));
        proof {
            assert(next@ == cur@.skip(k as int));
            assert(s@.skip(at as int).skip(k as int) == s@.skip(at + k));
        }
        cur = next;
        at = at + k;
    }
    cur
}

pub open spec fn hex_value(c: char) -> Option<int> {
    if '0' <= c <= '9' {
        Some((c as u32) - ('0' as u32))
    } else if 'a' <= c <= 'f' {
        Some((c as u32) - ('a' as u32) + 10)
    } else if 'A' <= c <= 'F' {
        Some((c as u32) - ('A' as u32) + 10)
    } else {
        None
    }
}

/// What `u8::from_str_radix(_, 16)` makes of a two-character text: an optional
/// `+` and one digit, or two digits.
pub open spec fn hex_pair(a: char, b: char) -> Option<u8> {
    if a == '+' {
        match hex_value(b) {
            Some(v) => Some(v as u8),
            None => None,
        }
    } else {
        match (hex_value(a), hex_value(b)) {
            (Some(x), Some(y)) => Some((16 * x + y) as u8),
            _ => None,
        }
    }
}

/// `#RRGGBB` or `#RRGGBBAA` (any number of leading `#`, alpha 255 when absent).
pub open spec fn hex_color_spec(s: Seq<char>) -> Option<Rgba> {
    let h = strip_all(s, seq!['#']);
    if h.len() != 6 && h.len() != 8 {
        None
    } else {
        let r = hex_pair(h[0], h[1]);
        let g = hex_pair(h[2], h[3]);
        let b = hex_pair(h[4], h[5]);
        let a = if h.len() == 8 {
            hex_pair(h[6], h[7])
        } else {
            Some(255u8)
        };
        if r is Some && g is Some && b is Some && a is Some {
            Some(Rgba { r: r->0, g: g->0, b: b->0, a: a->0 })
        } else {
            None
        }
    }
}

fn hex_digit(c: char) -> (r: Option<u8>)
    ensures
        match hex_value(c) {
            Some(v) => r == Some(v as u8) && 0 <= v < 16,
            None => r is None,
        },
{
    if '0' <= c && c <= '9' {
        Some((c as u32 - '0' as u32) as u8)
    } else if 'a' <= c && c <= 'f' {
        Some((c as u32 - 'a' as u32 + 10) as u8)
    } else if 'A' <= c && c <= 'F' {
        Some((c as u32 - 'A' as u32 + 10) as u8)
    } else {
        None
    }
}

fn parse_hex_pair(a: char, b: char) -> (r: Option<u8>)
    ensures
        r == hex_pair(a, b),
{
    if a == '+' {
        return hex_digit(b);
    }
    match (hex_digit(a), hex_digit(b)) {
        (Some(x), Some(y)) => Some(16 * x + y),
        _ => None,
    }
}

/// Reads a colour written `#RRGGBB` or `#RRGGBBAA` in hexadecimal.
pub fn parse_hex_color(value: &str) -> (r: Option<Rgba>)
    ensures
        r == hex_color_spec(value@),
{
    let hex = strip_all_prefix(value, "#");
    proof {
        reveal_strlit("#");
        assert("#"@ == seq!['#']);
    }
    let n = hex.unicode_len();
    if n != 6 && n != 8 {
        return None;
    }
    let h = hex.as_str();
    let r = parse_hex_pair(h.get_char(0), h.get_char(1));
    let g = parse_hex_pair(h.get_char(2), h.get_char(3));
    let b = parse_hex_pair(h.get_char(4), h.get_char(5));
    let a = if n == 8 {
        parse_hex_pair(h.get_char(6), h.get_char(7))
    } else {
        Some(255u8)
    };
    match (r, g, b, a) {
        (Some(r), Some(g), Some(b), Some(a)) => Some(Rgba { r, g, b, a }),
        _ => None,
    }
}

/// What `i32`'s `FromStr` accepts: an optional sign, then at least one decimal
/// digit and nothing else, for a value in range.
pub open spec fn decimal_i32(s: Seq<char>) -> Option<i32> {
    let neg = s.len() > 0 && s[0] == '-';
    let d = if s.len() > 0 && (s[0] == '+' || s[0] == '-') {
        s.drop_first()
    } else {
        s
    };
    let v = if neg {
        -crate::cli::digits_value(d)
    } else {
        crate::cli::digits_value(d)
    };
    if d.len() > 0 && (forall|i: int| 0 <= i < d.len() ==> is_digit(d[i])) && i32::MIN <= v
        <= i32::MAX {
        Some(v as i32)
    } else {
        None
    }
}

/// Relies on `<i32 as FromStr>::from_str`, which accepts exactly `decimal_i32`.
#[verifier::external_body]
pub(crate) fn parse_i32(s: &str) -> (r: Option<i32>)
    ensures
        r == decimal_i32(s@),
{
    s.parse::<i32>().ok()
}

pub open spec fn antialias_spec(v: Seq<char>) -> Option<Option<TextAntialias>> {
    if v == "default"@ {
        Some(None)
    } else if v == "none"@ {
        Some(Some(TextAntialias::Plain))
    } else if v == "gray"@ {
        Some(Some(TextAntialias::Gray))
    } else if v == "subpixel"@ {
        Some(Some(TextAntialias::Subpixel))
    } else {
        None
    }
}

pub open spec fn hint_style_spec(v: Seq<char>) -> Option<Option<TextHintStyle>> {
    if v == "default"@ {
        Some(None)
    } else if v == "none"@ {
        Some(Some(TextHintStyle::Unhinted))
    } else if v == "slight"@ {
        Some(Some(TextHintStyle::Slight))
    } else if v == "medium"@ {
        Some(Some(TextHintStyle::Medium))
    } else if v == "full"@ {
        Some(Some(TextHintStyle::Full))
    } else {
        None
    }
}

pub open spec fn hint_metrics_spec(v: Seq<char>) -> Option<Option<TextHintMetrics>> {
    if v == "default"@ {
        Some(None)
    } else if v == "on"@ {
        Some(Some(TextHintMetrics::On))
    } else if v == "off"@ {
        Some(Some(TextHintMetrics::Off))
    } else {
        None
    }
}

/// `default`, `none`, `gray` or `subpixel`; anything else is refused.
pub fn parse_antialias(value: &str) -> (r: Result<Option<TextAntialias>, CliError>)
    ensures
        match antialias_spec(value@) {
            Some(v) => r == Ok::<Option<TextAntialias>, CliError>(v),
            None => r is Err && r->Err_0@ == CliErrorView::InvalidChoice("--text-antialias"@, value@),
        },
{
    if text_eq(value, "default") {
        Ok(None)
    } else if text_eq(value, "none") {
        Ok(Some(TextAntialias::Plain))
    } else if text_eq(value, "gray") {
        Ok(Some(TextAntialias::Gray))
    } else if text_eq(value, "subpixel") {
        Ok(Some(TextAntialias::Subpixel))
    } else {
        Err(CliError::InvalidChoice(String::from_str("--text-antialias"), String::from_str(value)))
    }
}

/// `default`, `none`, `slight`, `medium` or `full`; anything else is refused.
pub fn parse_hint_style(value: &str) -> (r: Result<Option<TextHintStyle>, CliError>)
    ensures
        match hint_style_spec(value@) {
            Some(v) => r == Ok::<Option<TextHintStyle>, CliError>(v),
            None => r is Err && r->Err_0@ == CliErrorView::InvalidChoice("--text-hint"@, value@),
        },
{
    if text_eq(value, "default") {
        Ok(None)
    } else if text_eq(value, "none") {
        Ok(Some(TextHintStyle::Unhinted))
    } else if text_eq(value, "slight") {
        Ok(Some(TextHintStyle::Slight))
    } else if text_eq(value, "medium") {
        Ok(Some(TextHintStyle::Medium))
    } else if text_eq(value, "full") {
        Ok(Some(TextHintStyle::Full))
    } else {
        Err(CliError::InvalidChoice(String::from_str("--text-hint"), String::from_str(value)))
    }
}

/// `default`, `on` or `off`; anything else is refused.
pub fn parse_hint_metrics(value: &str) -> (r: Result<Option<TextHintMetrics>, CliError>)
    ensures
        match hint_metrics_spec(value@) {
            Some(v) => r == Ok::<Option<TextHintMetrics>, CliError>(v),
            None => r is Err && r->Err_0@ == CliErrorView::InvalidChoice("--text-hint-metrics"@, value@),
        },
{
    if text_eq(value, "default") {
        Ok(None)
    } else if text_eq(value, "on") {
        Ok(Some(TextHintMetrics::On))
    } else if text_eq(value, "off") {
        Ok(Some(TextHintMetrics::Off))
    } else {
        Err(CliError::InvalidChoice(String::from_str("--text-hint-metrics"), String::from_str(value)))
    }
}

/// The words that `shell_words::split` makes of a line, or `None` where it
/// refuses the line (an unclosed quote).
pub uninterp spec fn shell_words_of(line: Seq<char>) -> Option<Seq<Seq<char>>>;

/// Relies on `shell_words::split`: splits a line into words as a POSIX shell
/// would, and fails only on an unterminated quote or escape.
#[verifier::external_body]
fn shell_split(line: &str) -> (r: Option<Vec<String>>)
    ensures
        match shell_words_of(line@) {
            Some(ws) => r is Some && texts(r->0@) == ws,
            None => r is None,
        },
{
    shell_words::split(line).ok()
}

/// The lines of a text, split at each line feed; the last one may be empty.
pub open spec fn split_lines(s: Seq<char>) -> Seq<Seq<char>>
    decreases s.len(),
{
    if first_line(s).len() >= s.len() {
        seq![s]
    } else {
        seq![first_line(s)] + split_lines(s.skip(first_line(s).len() as int + 1))
    }
}

/// Whether a style-file line holds arguments: blank lines and lines whose first
/// non-blank character is `#` do not.
pub open spec fn holds_arguments(line: Seq<char>) -> bool {
    trim(line).len() > 0 && trim(line)[0] != '#'
}

/// The arguments of the given style-file lines, in order; `None` where a line
/// that holds arguments cannot be split into words.
pub open spec fn line_arguments(lines: Seq<Seq<char>>) -> Option<Seq<Seq<char>>>
    decreases lines.len(),
{
    if lines.len() == 0 {
        Some(Seq::empty())
    } else {
        match line_arguments(lines.drop_last()) {
            None => None,
            Some(prev) => if !holds_arguments(lines.last()) {
                Some(prev)
            } else {
                match shell_words_of(trim(lines.last())) {
                    None => None,
                    Some(ws) => Some(prev + ws),
                }
            },
        }
    }
}

fn lines_of(s: &str) -> (r: Vec<String>)
    ensures
        texts(r@) == split_lines(s@),
{
    let n = s.unicode_len();
    let mut out: Vec<String> = Vec::new();
    let mut start: usize = 0;
    loop
        invariant
            n == s@.len(),
            start <= n,
            split_lines(s@) == texts(out@) + split_lines(s@.skip(start as int)),
        decreases n - start,
    {
        let rest = s.substring_char(start, n);
        assert(rest@ == s@.skip(start as int));
        let m = n - start;
        let end = line_end(rest);
        let ghost before = out@;
        let line = String::from_str(rest.substring_char(0, end));
        proof {
            if end >= m {
                assert(rest@.take(end as int) == rest@);
            }
        }
        out.push(line);
        assert(texts(out@) == texts(before).push(line@));
        if end >= m {
            proof {
                assert(split_lines(rest@) == seq![rest@]);
                assert(texts(before) + seq![rest@] == texts(out@));
            }
            return out;
        }
        proof {
            assert(rest@.skip(end + 1) == s@.skip(start + end + 1));
            assert(split_lines(rest@) == seq![line@] + split_lines(rest@.skip(end + 1)));
            assert(texts(before) + (seq![line@] + split_lines(rest@.skip(end + 1))) == texts(out@)
                + split_lines(rest@.skip(end + 1)));
        }
        start = start + end + 1;
    }
}

fn append_words(args: &mut Vec<String>, words: &Vec<String>)
    ensures
        texts(final(args)@) == texts(old(args)@) + texts(words@),
{
    let ghost before = texts(args@);
    let mut j: usize = 0;
    while j < words.len()
        invariant
            0 <= j <= words.len(),
            texts(args@) == before + texts(words@).take(j as int),
        decreases words.len() - j,
    {
        let ghost prev = texts(args@);
        args.push(words[j].clone());
        assert(texts(args@) == prev.push(words@[j as int]@));
        assert(texts(words@).take(j + 1) == texts(words@).take(j as int).push(words@[j as int]@));
        j += 1;
    }
    assert(texts(words@).take(words@.len() as int) == texts(words@));
}

proof fn lemma_arguments_fail_onward(lines: Seq<Seq<char>>, k: int)
    requires
        0 <= k <= lines.len(),
        line_arguments(lines.take(k)) is None,
    ensures
        line_arguments(lines) is None,
    decreases lines.len() - k,
{
    if k < lines.len() {
        assert(lines.take(k + 1).drop_last() == lines.take(k));
        lemma_arguments_fail_onward(lines, k + 1);
    } else {
        assert(lines.take(k) == lines);
    }
}

/// The arguments a style file adds before the command line: each line that
/// holds arguments, trimmed and split into words as a shell would.
pub fn config_args_from_text(contents: &str) -> (r: Result<Vec<String>, CliError>)
    ensures
        match line_arguments(split_lines(contents@)) {
            Some(ws) => r is Ok && texts(r->Ok_0@) == ws,
            None => r is Err && r->Err_0@ == CliErrorView::StyleLine,
        },
{
    let lines = lines_of(contents);
    let ghost ls = texts(lines@);
    let mut args: Vec<String> = Vec::new();
    let mut i: usize = 0;
    assert(texts(args@) == Seq::<Seq<char>>::empty());
    while i < lines.len()
        invariant
            ls == texts(lines@),
            ls == split_lines(contents@),
            0 <= i <= lines.len(),
            line_arguments(ls.take(i as int)) == Some(texts(args@)),
        decreases lines.len() - i,
    {
        assert(ls.take(i + 1).drop_last() == ls.take(i as int));
        let line = trim_text(lines[i].as_str());
        assert(line@ == trim(ls[i as int]));
        let keep = line.unicode_len() > 0 && line.as_str().get_char(0) != '#';
        if keep {
            match shell_split(line.as_str()) {
                None => {
                    proof {
                        assert(ls.take(i + 1).last() == ls[i as int]);
                        assert(line_arguments(ls.take(i + 1)) is None);
                        lemma_arguments_fail_onward(ls, i as int + 1);
                    }
                    return Err(CliError::StyleLine);
                },
                Some(words) => {
                    append_words(&mut args, &words);
                },
            }
        }
        i += 1;
    }
    assert(ls.take(lines@.len() as int) == ls);
    Ok(args)
}

} // verus!
