use vstd::prelude::*;
use vstd::string::StrSliceExecFns;

verus! {

broadcast use vstd::seq_lib::group_seq_properties;

pub open spec fn is_prefix(p: Seq<char>, s: Seq<char>) -> bool {
    p.len() <= s.len() && s.take(p.len() as int) == p
}

/// Unicode's `White_Space` characters, as `char::is_whitespace` documents them.
pub open spec fn is_white(c: char) -> bool {
    let u = c as u32;
    (0x9 <= u <= 0xd) || u == 0x20 || u == 0x85 || u == 0xa0 || u == 0x1680 || (0x2000 <= u
        <= 0x200a) || u == 0x2028 || u == 0x2029 || u == 0x202f || u == 0x205f || u == 0x3000
}

pub open spec fn trim_start(s: Seq<char>) -> Seq<char>
    decreases s.len(),
{
    if s.len() > 0 && is_white(s[0]) {
        trim_start(s.drop_first())
    } else {
        s
    }
}

pub open spec fn trim_end(s: Seq<char>) -> Seq<char>
    decreases s.len(),
{
    if s.len() > 0 && is_white(s.last()) {
        trim_end(s.drop_last())
    } else {
        s
    }
}

/// The text without leading and trailing white space.
pub open spec fn trim(s: Seq<char>) -> Seq<char> {
    trim_end(trim_start(s))
}

/// The text before the first line feed.
pub open spec fn first_line(s: Seq<char>) -> Seq<char>
    decreases s.len(),
{
    if s.len() == 0 || s[0] == '\n' {
        Seq::empty()
    } else {
        seq![s[0]] + first_line(s.drop_first())
    }
}

/// How many bytes UTF-8 takes for a character.
pub open spec fn utf8_width(c: char) -> int {
    let u = c as u32;
    if u < 0x80 {
        1
    } else if u < 0x800 {
        2
    } else if u < 0x10000 {
        3
    } else {
        4
    }
}

/// The longest prefix whose UTF-8 encoding fits in `budget` bytes.
pub open spec fn truncate_bytes(s: Seq<char>, budget: int) -> Seq<char>
    decreases s.len(),
{
    if s.len() == 0 || utf8_width(s[0]) > budget {
        Seq::empty()
    } else {
        seq![s[0]] + truncate_bytes(s.drop_first(), budget - utf8_width(s[0]))
    }
}

pub fn text_eq(a: &str, b: &str) -> (r: bool)
    ensures
        r == (a@ == b@),
{
    let n = a.unicode_len();
    if n != b.unicode_len() {
        return false;
    }
    let mut i: usize = 0;
    while i < n
        invariant
            n == a@.len() == b@.len(),
            0 <= i <= n,
            forall|j: int| 0 <= j < i ==> a@[j] == b@[j],
        decreases n - i,
    {
        if a.get_char(i) != b.get_char(i) {
            return false;
        }
        i += 1;
    }
    assert(a@ == b@);
    true
}

pub fn starts_with_text(s: &str, p: &str) -> (r: bool)
    ensures
        r == is_prefix(p@, s@),
{
    let n = p.unicode_len();
    if n > s.unicode_len() {
        return false;
    }
    let mut i: usize = 0;
    while i < n
        invariant
            n == p@.len() <= s@.len(),
            0 <= i <= n,
            forall|j: int| 0 <= j < i ==> s@[j] == p@[j],
        decreases n - i,
    {
        if s.get_char(i) != p.get_char(i) {
            assert(s@.take(n as int)[i as int] != p@[i as int]);
            return false;
        }
        i += 1;
    }
    assert(s@.take(n as int) == p@);
    true
}

pub fn has_char(s: &str, c: char) -> (r: bool)
    ensures
        r == s@.contains(c),
{
    let n = s.unicode_len();
    let mut i: usize = 0;
    while i < n
        invariant
            n == s@.len(),
            0 <= i <= n,
            forall|j: int| 0 <= j < i ==> s@[j] != c,
        decreases n - i,
    {
        if s.get_char(i) == c {
            return true;
        }
        i += 1;
    }
    false
}

pub fn white_char(c: char) -> (r: bool)
    ensures
        r == is_white(c),
{
    let u = c as u32;
    (0x9 <= u && u <= 0xd) || u == 0x20 || u == 0x85 || u == 0xa0 || u == 0x1680 || (0x2000 <= u
        && u <= 0x200a) || u == 0x2028 || u == 0x2029 || u == 0x202f || u == 0x205f || u == 0x3000
}

proof fn lemma_first_line_at(s: Seq<char>, k: int)
    requires
        0 <= k <= s.len(),
        k == s.len() || s[k] == '\n',
        forall|j: int| 0 <= j < k ==> s[j] != '\n',
    ensures
        first_line(s) == s.take(k),
    decreases k,
{
    if k > 0 {
        lemma_first_line_at(s.drop_first(), k - 1);
        assert(s.take(k) == seq![s[0]] + s.drop_first().take(k - 1));
    }
}

proof fn lemma_trim_start_at(s: Seq<char>, k: int)
    requires
        0 <= k <= s.len(),
        k == s.len() || !is_white(s[k]),
        forall|j: int| 0 <= j < k ==> is_white(s[j]),
    ensures
        trim_start(s) == s.skip(k),
    decreases k,
{
    if k > 0 {
        lemma_trim_start_at(s.drop_first(), k - 1);
        assert(s.drop_first().skip(k - 1) == s.skip(k));
    }
}

proof fn lemma_trim_end_at(s: Seq<char>, k: int)
    requires
        0 <= k <= s.len(),
        k == 0 || !is_white(s[k - 1]),
        forall|j: int| k <= j < s.len() ==> is_white(s[j]),
    ensures
        trim_end(s) == s.take(k),
    decreases s.len() - k,
{
    if k < s.len() {
        lemma_trim_end_at(s.drop_last(), k);
        assert(s.drop_last().take(k) == s.take(k));
    } else {
        assert(s.take(k) == s);
    }
}

/// Where the first line of `s` ends: at its first line feed, or at its end.
pub fn line_end(s: &str) -> (r: usize)
    ensures
        r <= s@.len(),
        r < s@.len() ==> s@[r as int] == '\n',
        first_line(s@) == s@.take(r as int),
{
    let n = s.unicode_len();
    let mut end: usize = 0;
    while end < n && s.get_char(end) != '\n'
        invariant
            n == s@.len(),
            0 <= end <= n,
            forall|j: int| 0 <= j < end ==> s@[j] != '\n',
        decreases n - end,
    {
        end += 1;
    }
    proof {
        lemma_first_line_at(s@, end as int);
    }
    end
}

/// The first line of `s`, without surrounding white space.
pub fn first_line_trimmed(s: &str) -> (r: String)
    ensures
        r@ == trim(first_line(s@)),
{
    let end = line_end(s);
    let line = s.substring_char(0, end);
    trim_text(line)
}

/// `s` without leading and trailing white space.
pub fn trim_text(line: &str) -> (r: String)
    ensures
        r@ == trim(line@),
{
    let end = line.unicode_len();
    let mut a: usize = 0;
    while a < end && white_char(line.get_char(a))
        invariant
            end == line@.len(),
            0 <= a <= end,
            forall|j: int| 0 <= j < a ==> is_white(line@[j]),
        decreases end - a,
    {
        a += 1;
    }
    proof {
        lemma_trim_start_at(line@, a as int);
    }
    let rest = line.substring_char(a, end);
    let m = end - a;
    let mut b: usize = m;
    while b > 0 && white_char(rest.get_char(b - 1))
        invariant
            rest@ == line@.subrange(a as int, end as int),
            m == rest@.len(),
            0 <= b <= m,
            forall|j: int| b <= j < m ==> is_white(rest@[j]),
        decreases b,
    {
        b -= 1;
    }
    proof {
        assert(line@.skip(a as int) == rest@);
        lemma_trim_end_at(rest@, b as int);
    }
    let out = rest.substring_char(0, b);
    String::from_str(out)
}

pub fn char_utf8_width(c: char) -> (r: usize)
    ensures
        r as int == utf8_width(c),
{
    let u = c as u32;
    if u < 0x80 {
        1
    } else if u < 0x800 {
        2
    } else if u < 0x10000 {
        3
    } else {
        4
    }
}

proof fn lemma_truncate_step(s: Seq<char>, i: int, budget: int)
    requires
        0 <= i < s.len(),
        utf8_width(s[i]) <= budget,
    ensures
        truncate_bytes(s.skip(i), budget) == seq![s[i]] + truncate_bytes(
            s.skip(i + 1),
            budget - utf8_width(s[i]),
        ),
{
    assert(s.skip(i).drop_first() == s.skip(i + 1));
}

/// The longest prefix of `s` whose UTF-8 encoding takes at most `limit` bytes.
pub fn truncate_to_bytes(s: &str, limit: usize) -> (r: String)
    ensures
        r@ == truncate_bytes(s@, limit as int),
{
    let n = s.unicode_len();
    let mut i: usize = 0;
    let mut budget: usize = limit;
    while i < n && char_utf8_width(s.get_char(i)) <= budget
        invariant
            n == s@.len(),
            0 <= i <= n,
            budget <= limit,
            truncate_bytes(s@, limit as int) == s@.take(i as int) + truncate_bytes(
                s@.skip(i as int),
                budget as int,
            ),
        decreases n - i,
    {
        let w = char_utf8_width(s.get_char(i));
        proof {
            lemma_truncate_step(s@, i as int, budget as int);
            assert(s@.take(i + 1) == s@.take(i as int) + seq![s@[i as int]]);
        }
        budget -= w;
        i += 1;
    }
    proof {
        if i == n {
            assert(s@.skip(i as int).len() == 0);
        }
        assert(s@.take(i as int) + Seq::<char>::empty() == s@.take(i as int));
    }
    String::from_str(s.substring_char(0, i))
}

} // verus!
