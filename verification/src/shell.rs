//! Interactive shell: splitting a command line into a command and its
//! arguments, line editing, command history, and the argument parsing
//! and value decoding behind the commands. Reading the UART, printing and
//! touching the hardware are the caller's.
use vstd::prelude::*;
use vstd::string::StrSliceExecFns;
use crate::drivers::gpio::{Function, Pull, NUM_GPIOS};
use crate::text::{parse_unsigned, spec_parse_unsigned};
use crate::render::{push_decimal, spec_decimal};
use vstd::string::StringExecFns;

verus! {

broadcast use vstd::string::group_string_axioms;

/// Whether `c` has the Unicode White_Space property (what `char::
/// is_whitespace` tests).
pub open spec fn spec_is_whitespace(c: char) -> bool {
    ||| '\u{9}' <= c <= '\u{d}'
    ||| c == ' '
    ||| c == '\u{85}'
    ||| c == '\u{a0}'
    ||| c == '\u{1680}'
    ||| '\u{2000}' <= c <= '\u{200a}'
    ||| c == '\u{2028}'
    ||| c == '\u{2029}'
    ||| c == '\u{202f}'
    ||| c == '\u{205f}'
    ||| c == '\u{3000}'
}

/// Whether `c` has the Unicode White_Space property.
pub fn is_whitespace(c: char) -> (b: bool)
    ensures
        b == spec_is_whitespace(c),
{
    ('\u{9}' <= c && c <= '\u{d}') || c == ' ' || c == '\u{85}' || c == '\u{a0}' || c == '\u{1680}'
        || ('\u{2000}' <= c && c <= '\u{200a}') || c == '\u{2028}' || c == '\u{2029}' || c == '\u{202f}'
        || c == '\u{205f}' || c == '\u{3000}'
}

/// Number of leading whitespace characters.
pub open spec fn spec_ws_prefix(s: Seq<char>) -> nat
    decreases s.len(),
{
    if s.len() == 0 {
        0
    } else if spec_is_whitespace(s[0]) {
        1 + spec_ws_prefix(s.drop_first())
    } else {
        0
    }
}

/// Number of trailing whitespace characters.
pub open spec fn spec_ws_suffix(s: Seq<char>) -> nat
    decreases s.len(),
{
    if s.len() == 0 {
        0
    } else if spec_is_whitespace(s.last()) {
        1 + spec_ws_suffix(s.drop_last())
    } else {
        0
    }
}

/// `s` without leading and trailing whitespace.
pub open spec fn spec_trim(s: Seq<char>) -> Seq<char> {
    let t = s.subrange(spec_ws_prefix(s) as int, s.len() as int);
    t.subrange(0, t.len() - spec_ws_suffix(t))
}

/// Index of the first space in `s`, if any.
pub open spec fn spec_space_index(s: Seq<char>) -> Option<int>
    decreases s.len(),
{
    if s.len() == 0 {
        None
    } else if s[0] == ' ' {
        Some(0)
    } else {
        match spec_space_index(s.drop_first()) {
            Some(k) => Some(k + 1),
            None => None,
        }
    }
}

/// A command line split into name and arguments: the trimmed line up to
/// its first space, and what follows that space (empty without one);
/// `None` for a blank line.
pub open spec fn spec_parse_command(line: Seq<char>) -> Option<(Seq<char>, Seq<char>)> {
    let t = spec_trim(line);
    if t.len() == 0 {
        None
    } else {
        match spec_space_index(t) {
            Some(i) => Some((t.subrange(0, i), t.subrange(i + 1, t.len() as int))),
            None => Some((t, Seq::empty())),
        }
    }
}

proof fn lemma_ws_prefix(s: Seq<char>, i: int)
    requires
        0 <= i <= s.len(),
        forall|j: int| 0 <= j < i ==> spec_is_whitespace(#[trigger] s[j]),
        i == s.len() || !spec_is_whitespace(s[i]),
    ensures
        spec_ws_prefix(s) == i,
    decreases i,
{
    if i > 0 {
        assert(spec_is_whitespace(s[0]));
        let t = s.drop_first();
        assert forall|j: int| 0 <= j < i - 1 implies spec_is_whitespace(#[trigger] t[j]) by {
            assert(t[j] == s[j + 1]);
        }
        if i - 1 < t.len() {
            assert(t[i - 1] == s[i]);
        }
        lemma_ws_prefix(t, i - 1);
    }
}

proof fn lemma_ws_suffix(s: Seq<char>, k: int)
    requires
        0 <= k <= s.len(),
        forall|j: int| s.len() - k <= j < s.len() ==> spec_is_whitespace(#[trigger] s[j]),
        k == s.len() || !spec_is_whitespace(s[s.len() - k - 1]),
    ensures
        spec_ws_suffix(s) == k,
    decreases k,
{
    if k > 0 {
        assert(spec_is_whitespace(s[s.len() - 1]));
        let t = s.drop_last();
        assert forall|j: int| t.len() - (k - 1) <= j < t.len() implies spec_is_whitespace(#[trigger] t[j]) by {
            assert(t[j] == s[j]);
        }
        if k - 1 < t.len() {
            assert(t[t.len() - (k - 1) - 1] == s[s.len() - k - 1]);
        }
        lemma_ws_suffix(t, k - 1);
    }
}

proof fn lemma_space_index(s: Seq<char>, i: int)
    requires
        0 <= i <= s.len(),
        forall|j: int| 0 <= j < i ==> #[trigger] s[j] != ' ',
    ensures
        i < s.len() && s[i] == ' ' ==> spec_space_index(s) == Some(i),
        i == s.len() ==> spec_space_index(s) is None,
    decreases i,
{
    if i > 0 {
        let t = s.drop_first();
        assert forall|j: int| 0 <= j < i - 1 implies #[trigger] t[j] != ' ' by {
            assert(t[j] == s[j + 1]);
        }
        if i < s.len() {
            assert(t[i - 1] == s[i]);
        }
        lemma_space_index(t, i - 1);
        assert(s[0] != ' ');
    } else if s.len() == 0 {
    }
}

/// Character bounds of `s` without its leading and trailing whitespace.
fn trim_bounds(s: &str) -> (r: (usize, usize))
    ensures
        r.0 <= r.1 <= s@.len(),
        spec_trim(s@) == s@.subrange(r.0 as int, r.1 as int),
{
    let n = s.unicode_len();
    let mut start: usize = 0;
    while start < n
        invariant
            n == s@.len(),
            0 <= start <= n,
            forall|j: int| 0 <= j < start ==> spec_is_whitespace(#[trigger] s@[j]),
        ensures
            0 <= start <= n,
            forall|j: int| 0 <= j < start ==> spec_is_whitespace(#[trigger] s@[j]),
            start < n ==> !spec_is_whitespace(s@[start as int]),
        decreases n - start,
    {
        if !is_whitespace(s.get_char(start)) {
            break;
        }
        start = start + 1;
    }
    proof {
        lemma_ws_prefix(s@, start as int);
    }
    let mut end: usize = n;
    while end > start
        invariant
            n == s@.len(),
            0 <= start <= end <= n,
            forall|j: int| end <= j < n ==> spec_is_whitespace(#[trigger] s@[j]),
        ensures
            0 <= start <= end <= n,
            forall|j: int| end <= j < n ==> spec_is_whitespace(#[trigger] s@[j]),
            end > start ==> !spec_is_whitespace(s@[end - 1]),
        decreases end - start,
    {
        if !is_whitespace(s.get_char(end - 1)) {
            break;
        }
        end = end - 1;
    }
    let ghost t = s@.subrange(start as int, n as int);
    proof {
        assert forall|j: int| t.len() - (n - end) <= j < t.len() implies spec_is_whitespace(#[trigger] t[j]) by {
            assert(t[j] == s@[j + start]);
        }
        if end > start {
            assert(t[t.len() - (n - end) - 1] == s@[end - 1]);
        }
        lemma_ws_suffix(t, (n - end) as int);
        assert(spec_trim(s@) =~= s@.subrange(start as int, end as int));
    }
    (start, end)
}

/// `s` without leading and trailing whitespace.
pub fn trim<'a>(s: &'a str) -> (r: &'a str)
    ensures
        r@ == spec_trim(s@),
{
    let (start, end) = trim_bounds(s);
    s.substring_char(start, end)
}

/// A shell command: its name and its arguments, borrowed from the line.
pub struct Command<'a> {
    pub name: &'a str,
    pub args: &'a str,
}

impl<'a> Command<'a> {
    /// Split a line (see `spec_parse_command`).
    pub fn parse(line: &'a str) -> (r: Option<Self>)
        ensures
            match spec_parse_command(line@) {
                None => r is None,
                Some((name, args)) => r matches Some(c) && c.name@ == name && c.args@ == args,
            },
    {
        let (start, end) = trim_bounds(line);
        if start == end {
            return None;
        }
        let mut sp: usize = start;
        while sp < end
            invariant
                0 <= start <= sp <= end <= line@.len(),
                forall|j: int| start <= j < sp ==> #[trigger] line@[j] != ' ',
            ensures
                start <= sp <= end,
                forall|j: int| start <= j < sp ==> #[trigger] line@[j] != ' ',
                sp < end ==> line@[sp as int] == ' ',
            decreases end - sp,
        {
            if line.get_char(sp) == ' ' {
                break;
            }
            sp = sp + 1;
        }
        let ghost tr = line@.subrange(start as int, end as int);
        proof {
            assert forall|j: int| 0 <= j < sp - start implies #[trigger] tr[j] != ' ' by {
                assert(tr[j] == line@[j + start]);
            }
            if sp < end {
                assert(tr[sp - start] == line@[sp as int]);
            }
            lemma_space_index(tr, sp - start);
        }
        if sp < end {
            let name = line.substring_char(start, sp);
            let args = line.substring_char(sp + 1, end);
            proof {
                assert(name@ =~= tr.subrange(0, sp - start));
                assert(args@ =~= tr.subrange(sp - start + 1, tr.len() as int));
            }
            Some(Command { name, args })
        } else {
            let name = line.substring_char(start, end);
            let args = line.substring_char(end, end);
            proof {
                assert(args@ =~= Seq::<char>::empty());
            }
            Some(Command { name, args })
        }
    }
}

/// Number of leading characters that are not whitespace.
pub open spec fn spec_word_len(s: Seq<char>) -> nat
    decreases s.len(),
{
    if s.len() == 0 || spec_is_whitespace(s[0]) {
        0
    } else {
        1 + spec_word_len(s.drop_first())
    }
}

/// The first whitespace-separated word of `s` and what follows it.
pub open spec fn spec_next_word(s: Seq<char>) -> Option<(Seq<char>, Seq<char>)> {
    let t = s.skip(spec_ws_prefix(s) as int);
    if t.len() == 0 {
        None
    } else {
        Some((t.take(spec_word_len(t) as int), t.skip(spec_word_len(t) as int)))
    }
}

/// The first two whitespace-separated words of `s`.
pub open spec fn spec_two_words(s: Seq<char>) -> (Option<Seq<char>>, Option<Seq<char>>) {
    match spec_next_word(s) {
        None => (None, None),
        Some((w1, rest)) => (Some(w1), match spec_next_word(rest) {
            Some((w2, _)) => Some(w2),
            None => None,
        }),
    }
}

proof fn lemma_word_len(s: Seq<char>, i: int)
    requires
        0 <= i <= s.len(),
        forall|j: int| 0 <= j < i ==> !spec_is_whitespace(#[trigger] s[j]),
        i == s.len() || spec_is_whitespace(s[i]),
    ensures
        spec_word_len(s) == i,
    decreases i,
{
    if i > 0 {
        let t = s.drop_first();
        assert forall|j: int| 0 <= j < i - 1 implies !spec_is_whitespace(#[trigger] t[j]) by {
            assert(t[j] == s[j + 1]);
        }
        if i - 1 < t.len() {
            assert(t[i - 1] == s[i]);
        }
        assert(!spec_is_whitespace(s[0]));
        lemma_word_len(t, i - 1);
    }
}

/// The next word of `s[from..]`: its start and end (character indices
/// into `s`), if any.
fn next_word(s: &str, from: usize) -> (r: Option<(usize, usize)>)
    requires
        from <= s@.len(),
    ensures
        match spec_next_word(s@.skip(from as int)) {
            None => r is None,
            Some((w, rest)) => r matches Some((a, b)) && from <= a < b <= s@.len()
                && w == s@.subrange(a as int, b as int) && rest == s@.skip(b as int),
        },
{
    let n = s.unicode_len();
    let ghost u = s@.skip(from as int);
    let mut a: usize = from;
    while a < n
        invariant
            n == s@.len(),
            from <= a <= n,
            forall|j: int| from <= j < a ==> spec_is_whitespace(#[trigger] s@[j]),
        ensures
            from <= a <= n,
            forall|j: int| from <= j < a ==> spec_is_whitespace(#[trigger] s@[j]),
            a < n ==> !spec_is_whitespace(s@[a as int]),
        decreases n - a,
    {
        if !is_whitespace(s.get_char(a)) {
            break;
        }
        a = a + 1;
    }
    proof {
        assert forall|j: int| 0 <= j < a - from implies spec_is_whitespace(#[trigger] u[j]) by {
            assert(u[j] == s@[j + from]);
        }
        if a < n {
            assert(u[a - from] == s@[a as int]);
        }
        lemma_ws_prefix(u, a - from);
        assert(u.skip(a - from) =~= s@.skip(a as int));
    }
    if a == n {
        return None;
    }
    let mut b: usize = a;
    while b < n
        invariant
            n == s@.len(),
            a <= b <= n,
            forall|j: int| a <= j < b ==> !spec_is_whitespace(#[trigger] s@[j]),
        ensures
            a <= b <= n,
            forall|j: int| a <= j < b ==> !spec_is_whitespace(#[trigger] s@[j]),
            b < n ==> spec_is_whitespace(s@[b as int]),
        decreases n - b,
    {
        if is_whitespace(s.get_char(b)) {
            break;
        }
        b = b + 1;
    }
    let ghost v = s@.skip(a as int);
    proof {
        assert forall|j: int| 0 <= j < b - a implies !spec_is_whitespace(#[trigger] v[j]) by {
            assert(v[j] == s@[j + a]);
        }
        if b < n {
            assert(v[b - a] == s@[b as int]);
        }
        lemma_word_len(v, b - a);
        assert(v.take(b - a) =~= s@.subrange(a as int, b as int));
        assert(v.skip(b - a) =~= s@.skip(b as int));
    }
    Some((a, b))
}

/// The first two whitespace-separated words of `s`.
pub fn two_words<'a>(s: &'a str) -> (r: (Option<&'a str>, Option<&'a str>))
    ensures
        spec_two_words(s@) matches (w1, w2) && (match w1 {
            None => r.0 is None,
            Some(w) => r.0 matches Some(x) && x@ == w,
        }) && (match w2 {
            None => r.1 is None,
            Some(w) => r.1 matches Some(x) && x@ == w,
        }),
{
    proof {
        assert(s@.skip(0) =~= s@);
    }
    match next_word(s, 0) {
        None => (None, None),
        Some((a, b)) => {
            let first = s.substring_char(a, b);
            match next_word(s, b) {
                None => (Some(first), None),
                Some((c, d)) => (Some(first), Some(s.substring_char(c, d))),
            }
        },
    }
}

/// `c` with ASCII upper case turned to lower case.
pub open spec fn spec_ascii_lower(c: char) -> char {
    if 'A' <= c <= 'Z' { ((c as u32) + 32) as char } else { c }
}

/// `s` with ASCII upper case turned to lower case. For the command words
/// the shell knows, which are ASCII and have no `k`, this compares as
/// `to_lowercase` does.
pub open spec fn spec_lower(s: Seq<char>) -> Seq<char> {
    s.map_values(|c: char| spec_ascii_lower(c))
}

/// Whether `s` is `w`, ignoring ASCII case when `fold_case`.
fn word_eq(s: &str, w: &str, fold_case: bool) -> (b: bool)
    ensures
        b == (if fold_case { spec_lower(s@) == w@ } else { s@ == w@ }),
{
    let n = s.unicode_len();
    let m = w.unicode_len();
    if n != m {
        proof {
            assert(spec_lower(s@).len() == s@.len());
        }
        return false;
    }
    let mut i: usize = 0;
    while i < n
        invariant
            n == s@.len(),
            m == w@.len(),
            n == m,
            0 <= i <= n,
            forall|j: int| 0 <= j < i ==> (if fold_case { spec_ascii_lower(#[trigger] s@[j]) } else { s@[j] }) == w@[j],
        decreases n - i,
    {
        let c = s.get_char(i);
        let d = w.get_char(i);
        let c2 = if fold_case && 'A' <= c && c <= 'Z' {
            char_from_u32_ascii((c as u32) + 32)
        } else {
            c
        };
        if c2 != d {
            proof {
                if fold_case {
                    assert(spec_lower(s@)[i as int] != w@[i as int]);
                } else {
                    assert(s@[i as int] != w@[i as int]);
                }
            }
            return false;
        }
        i = i + 1;
    }
    proof {
        if fold_case {
            assert(spec_lower(s@) =~= w@);
        } else {
            assert(s@ =~= w@);
        }
    }
    true
}

/// The lower-case letter `v` (an ASCII code from `a` to `z`).
fn char_from_u32_ascii(v: u32) -> (c: char)
    requires
        97 <= v <= 122,
    ensures
        c == v as char,
{
    let b = v as u8;
    b as char
}

/// The pin function named by a (case-insensitive) mode word.
pub open spec fn spec_parse_function(m: Seq<char>) -> Option<Function> {
    let l = spec_lower(m);
    if l == "input"@ || l == "in"@ {
        Some(Function::Input)
    } else if l == "output"@ || l == "out"@ {
        Some(Function::Output)
    } else if l == "alt0"@ {
        Some(Function::Alt0)
    } else if l == "alt1"@ {
        Some(Function::Alt1)
    } else if l == "alt2"@ {
        Some(Function::Alt2)
    } else if l == "alt3"@ {
        Some(Function::Alt3)
    } else if l == "alt4"@ {
        Some(Function::Alt4)
    } else if l == "alt5"@ {
        Some(Function::Alt5)
    } else {
        None
    }
}

/// The pin function named by a mode word (see `spec_parse_function`).
pub fn parse_function(mode: &str) -> (r: Option<Function>)
    ensures
        r == spec_parse_function(mode@),
{
    if word_eq(mode, "input", true) || word_eq(mode, "in", true) {
        Some(Function::Input)
    } else if word_eq(mode, "output", true) || word_eq(mode, "out", true) {
        Some(Function::Output)
    } else if word_eq(mode, "alt0", true) {
        Some(Function::Alt0)
    } else if word_eq(mode, "alt1", true) {
        Some(Function::Alt1)
    } else if word_eq(mode, "alt2", true) {
        Some(Function::Alt2)
    } else if word_eq(mode, "alt3", true) {
        Some(Function::Alt3)
    } else if word_eq(mode, "alt4", true) {
        Some(Function::Alt4)
    } else if word_eq(mode, "alt5", true) {
        Some(Function::Alt5)
    } else {
        None
    }
}

/// The function words, in any case: input/in, output/out and alt0..alt5
/// select the function of that name; a word selects a function only if
/// it is one of these, and other words select nothing.
pub proof fn lemma_function_words(m: Seq<char>)
    ensures
        (spec_lower(m) == "input"@ || spec_lower(m) == "in"@) ==> spec_parse_function(m) == Some(Function::Input),
        spec_parse_function(m) == Some(Function::Input) ==> (spec_lower(m) == "input"@ || spec_lower(m) == "in"@),
        (spec_lower(m) == "output"@ || spec_lower(m) == "out"@) ==> spec_parse_function(m) == Some(Function::Output),
        spec_parse_function(m) == Some(Function::Output) ==> (spec_lower(m) == "output"@ || spec_lower(m) == "out"@),
        (spec_lower(m) == "alt0"@) ==> spec_parse_function(m) == Some(Function::Alt0),
        spec_parse_function(m) == Some(Function::Alt0) ==> (spec_lower(m) == "alt0"@),
        (spec_lower(m) == "alt1"@) ==> spec_parse_function(m) == Some(Function::Alt1),
        spec_parse_function(m) == Some(Function::Alt1) ==> (spec_lower(m) == "alt1"@),
        (spec_lower(m) == "alt2"@) ==> spec_parse_function(m) == Some(Function::Alt2),
        spec_parse_function(m) == Some(Function::Alt2) ==> (spec_lower(m) == "alt2"@),
        (spec_lower(m) == "alt3"@) ==> spec_parse_function(m) == Some(Function::Alt3),
        spec_parse_function(m) == Some(Function::Alt3) ==> (spec_lower(m) == "alt3"@),
        (spec_lower(m) == "alt4"@) ==> spec_parse_function(m) == Some(Function::Alt4),
        spec_parse_function(m) == Some(Function::Alt4) ==> (spec_lower(m) == "alt4"@),
        (spec_lower(m) == "alt5"@) ==> spec_parse_function(m) == Some(Function::Alt5),
        spec_parse_function(m) == Some(Function::Alt5) ==> (spec_lower(m) == "alt5"@),
        !(spec_lower(m) == "input"@ || spec_lower(m) == "in"@ || spec_lower(m) == "output"@ || spec_lower(m) == "out"@ || spec_lower(m) == "alt0"@ || spec_lower(m) == "alt1"@ || spec_lower(m) == "alt2"@ || spec_lower(m) == "alt3"@ || spec_lower(m) == "alt4"@ || spec_lower(m) == "alt5"@) ==> spec_parse_function(m) is None,
{
    reveal_strlit("input");
    reveal_strlit("in");
    reveal_strlit("output");
    reveal_strlit("out");
    reveal_strlit("alt0");
    reveal_strlit("alt1");
    reveal_strlit("alt2");
    reveal_strlit("alt3");
    reveal_strlit("alt4");
    reveal_strlit("alt5");
    assert("input"@.len() == 5);
    assert("in"@.len() == 2);
    assert("output"@.len() == 6);
    assert("out"@.len() == 3);
    assert("alt0"@.len() == 4);
    assert("alt1"@.len() == 4);
    assert("alt2"@.len() == 4);
    assert("alt3"@.len() == 4);
    assert("alt4"@.len() == 4);
    assert("alt5"@.len() == 4);
    assert("alt0"@[3] != "alt1"@[3]);
    assert("alt0"@[3] != "alt2"@[3]);
    assert("alt0"@[3] != "alt3"@[3]);
    assert("alt0"@[3] != "alt4"@[3]);
    assert("alt0"@[3] != "alt5"@[3]);
    assert("alt1"@[3] != "alt2"@[3]);
    assert("alt1"@[3] != "alt3"@[3]);
    assert("alt1"@[3] != "alt4"@[3]);
    assert("alt1"@[3] != "alt5"@[3]);
    assert("alt2"@[3] != "alt3"@[3]);
    assert("alt2"@[3] != "alt4"@[3]);
    assert("alt2"@[3] != "alt5"@[3]);
    assert("alt3"@[3] != "alt4"@[3]);
    assert("alt3"@[3] != "alt5"@[3]);
    assert("alt4"@[3] != "alt5"@[3]);
}


/// The pull setting named by a (case-insensitive) word.
pub open spec fn spec_parse_pull(m: Seq<char>) -> Option<Pull> {
    let l = spec_lower(m);
    if l == "none"@ || l == "off"@ || l == "disable"@ {
        Some(Pull::NoPull)
    } else if l == "up"@ || l == "pullup"@ || l == "pull-up"@ {
        Some(Pull::Up)
    } else if l == "down"@ || l == "pulldown"@ || l == "pull-down"@ {
        Some(Pull::Down)
    } else {
        None
    }
}

/// The pull words, in any case: none/off/disable select no pull,
/// up/pullup/pull-up the pull-up and down/pulldown/pull-down the
/// pull-down; a word selects a pull only if it is one of these, and other
/// words select nothing.
pub proof fn lemma_pull_words(m: Seq<char>)
    ensures
        (spec_lower(m) == "none"@ || spec_lower(m) == "off"@ || spec_lower(m) == "disable"@) ==> spec_parse_pull(m) == Some(Pull::NoPull),
        spec_parse_pull(m) == Some(Pull::NoPull) ==> (spec_lower(m) == "none"@ || spec_lower(m) == "off"@ || spec_lower(m) == "disable"@),
        (spec_lower(m) == "up"@ || spec_lower(m) == "pullup"@ || spec_lower(m) == "pull-up"@) ==> spec_parse_pull(m) == Some(Pull::Up),
        spec_parse_pull(m) == Some(Pull::Up) ==> (spec_lower(m) == "up"@ || spec_lower(m) == "pullup"@ || spec_lower(m) == "pull-up"@),
        (spec_lower(m) == "down"@ || spec_lower(m) == "pulldown"@ || spec_lower(m) == "pull-down"@) ==> spec_parse_pull(m) == Some(Pull::Down),
        spec_parse_pull(m) == Some(Pull::Down) ==> (spec_lower(m) == "down"@ || spec_lower(m) == "pulldown"@ || spec_lower(m) == "pull-down"@),
        !(spec_lower(m) == "none"@ || spec_lower(m) == "off"@ || spec_lower(m) == "disable"@ || spec_lower(m) == "up"@ || spec_lower(m) == "pullup"@ || spec_lower(m) == "pull-up"@ || spec_lower(m) == "down"@ || spec_lower(m) == "pulldown"@ || spec_lower(m) == "pull-down"@) ==> spec_parse_pull(m) is None,
{
    reveal_strlit("none");
    reveal_strlit("off");
    reveal_strlit("disable");
    reveal_strlit("up");
    reveal_strlit("pullup");
    reveal_strlit("pull-up");
    reveal_strlit("down");
    reveal_strlit("pulldown");
    reveal_strlit("pull-down");
    assert("none"@.len() == 4);
    assert("off"@.len() == 3);
    assert("disable"@.len() == 7);
    assert("up"@.len() == 2);
    assert("pullup"@.len() == 6);
    assert("pull-up"@.len() == 7);
    assert("down"@.len() == 4);
    assert("pulldown"@.len() == 8);
    assert("pull-down"@.len() == 9);
    assert("none"@[0] != "down"@[0]);
    assert("disable"@[0] != "pull-up"@[0]);
}

/// The pull setting named by a word (see `spec_parse_pull`).
pub fn parse_pull(mode: &str) -> (r: Option<Pull>)
    ensures
        r == spec_parse_pull(mode@),
{
    if word_eq(mode, "none", true) || word_eq(mode, "off", true) || word_eq(mode, "disable", true) {
        Some(Pull::NoPull)
    } else if word_eq(mode, "up", true) || word_eq(mode, "pullup", true) || word_eq(mode, "pull-up", true) {
        Some(Pull::Up)
    } else if word_eq(mode, "down", true) || word_eq(mode, "pulldown", true) || word_eq(mode, "pull-down", true) {
        Some(Pull::Down)
    } else {
        None
    }
}

/// The level named by a word: 1/high/on/true or 0/low/off/false.
pub open spec fn spec_parse_level(v: Seq<char>) -> Option<bool> {
    if v == "1"@ || v == "high"@ || v == "on"@ || v == "true"@ {
        Some(true)
    } else if v == "0"@ || v == "low"@ || v == "off"@ || v == "false"@ {
        Some(false)
    } else {
        None
    }
}

/// The words for a high level give `true` and those for a low level give
/// `false`; a word that gives `true` is a high word, one that gives
/// `false` a low word, and every other word gives nothing.
pub proof fn lemma_level_words(v: Seq<char>)
    ensures
        spec_parse_level("1"@) == Some(true),
        spec_parse_level("high"@) == Some(true),
        spec_parse_level("on"@) == Some(true),
        spec_parse_level("true"@) == Some(true),
        spec_parse_level("0"@) == Some(false),
        spec_parse_level("low"@) == Some(false),
        spec_parse_level("off"@) == Some(false),
        spec_parse_level("false"@) == Some(false),
        spec_parse_level(v) == Some(true) ==> (v == "1"@ || v == "high"@ || v == "on"@ || v == "true"@),
        spec_parse_level(v) == Some(false) ==> (v == "0"@ || v == "low"@ || v == "off"@ || v == "false"@),
        !(v == "1"@ || v == "high"@ || v == "on"@ || v == "true"@ || v == "0"@ || v == "low"@ || v == "off"@ || v == "false"@)
            ==> spec_parse_level(v) is None,
{
    reveal_strlit("1");
    reveal_strlit("high");
    reveal_strlit("on");
    reveal_strlit("true");
    reveal_strlit("0");
    reveal_strlit("low");
    reveal_strlit("off");
    reveal_strlit("false");
    assert("1"@.len() == 1);
    assert("high"@.len() == 4);
    assert("on"@.len() == 2);
    assert("true"@.len() == 4);
    assert("0"@.len() == 1);
    assert("low"@.len() == 3);
    assert("off"@.len() == 3);
    assert("false"@.len() == 5);
    assert("1"@[0] != "0"@[0]);
    assert("high"@[0] != "true"@[0]);
    assert("low"@[0] != "off"@[0]);
}

/// The level named by a word (see `spec_parse_level`).
pub fn parse_level(value: &str) -> (r: Option<bool>)
    ensures
        r == spec_parse_level(value@),
{
    if word_eq(value, "1", false) || word_eq(value, "high", false) || word_eq(value, "on", false) || word_eq(value, "true", false) {
        Some(true)
    } else if word_eq(value, "0", false) || word_eq(value, "low", false) || word_eq(value, "off", false) || word_eq(value, "false", false) {
        Some(false)
    } else {
        None
    }
}

/// Why the arguments of a GPIO command were refused.
#[derive(Debug, Clone, Copy, PartialEq, Eq, Structural)]
pub enum GpioArgError {
    /// Arguments missing: show the command's usage.
    Usage,
    /// The pin is not a number.
    InvalidPin,
    /// The pin is 58 or more.
    PinOutOfRange,
    /// The mode (function, pull or level) word is not known.
    InvalidMode,
}

/// A pin number word: a decimal `u32` below 58.
pub open spec fn spec_parse_pin(w: Seq<char>) -> Result<u32, GpioArgError> {
    match spec_parse_unsigned(w, 10, u32::MAX as int) {
        None => Err(GpioArgError::InvalidPin),
        Some(p) => if p >= NUM_GPIOS { Err(GpioArgError::PinOutOfRange) } else { Ok(p as u32) },
    }
}

/// A pin number word (see `spec_parse_pin`).
pub fn parse_pin(w: &str) -> (r: Result<u32, GpioArgError>)
    ensures
        r == spec_parse_pin(w@),
{
    match parse_unsigned(w, 10, 0xFFFF_FFFF) {
        None => Err(GpioArgError::InvalidPin),
        Some(p) => {
            if p >= NUM_GPIOS as u64 {
                Err(GpioArgError::PinOutOfRange)
            } else {
                Ok(p as u32)
            }
        },
    }
}

/// Arguments of a two-word GPIO command: the pin and the word after it,
/// checked in the order pin, then word.
pub open spec fn spec_pin_and_word<T>(args: Seq<char>, word: spec_fn(Seq<char>) -> Option<T>) -> Result<(u32, T), GpioArgError> {
    match spec_two_words(args) {
        (Some(p), Some(w)) => match spec_parse_pin(p) {
            Err(e) => Err(e),
            Ok(pin) => match word(w) {
                Some(v) => Ok((pin, v)),
                None => Err(GpioArgError::InvalidMode),
            },
        },
        _ => Err(GpioArgError::Usage),
    }
}

/// Arguments of `gpio-mode <pin> <mode>`.
pub fn parse_gpio_mode(args: &str) -> (r: Result<(u32, Function), GpioArgError>)
    ensures
        r == spec_pin_and_word(args@, |w: Seq<char>| spec_parse_function(w)),
{
    match two_words(args) {
        (Some(p), Some(w)) => match parse_pin(p) {
            Err(e) => Err(e),
            Ok(pin) => match parse_function(w) {
                Some(f) => Ok((pin, f)),
                None => Err(GpioArgError::InvalidMode),
            },
        },
        _ => Err(GpioArgError::Usage),
    }
}

/// Arguments of `gpio-pull <pin> <mode>`.
pub fn parse_gpio_pull(args: &str) -> (r: Result<(u32, Pull), GpioArgError>)
    ensures
        r == spec_pin_and_word(args@, |w: Seq<char>| spec_parse_pull(w)),
{
    match two_words(args) {
        (Some(p), Some(w)) => match parse_pin(p) {
            Err(e) => Err(e),
            Ok(pin) => match parse_pull(w) {
                Some(v) => Ok((pin, v)),
                None => Err(GpioArgError::InvalidMode),
            },
        },
        _ => Err(GpioArgError::Usage),
    }
}

/// Arguments of `gpio-set <pin> <value>`.
pub fn parse_gpio_set(args: &str) -> (r: Result<(u32, bool), GpioArgError>)
    ensures
        r == spec_pin_and_word(args@, |w: Seq<char>| spec_parse_level(w)),
{
    match two_words(args) {
        (Some(p), Some(w)) => match parse_pin(p) {
            Err(e) => Err(e),
            Ok(pin) => match parse_level(w) {
                Some(v) => Ok((pin, v)),
                None => Err(GpioArgError::InvalidMode),
            },
        },
        _ => Err(GpioArgError::Usage),
    }
}

/// Arguments of `gpio-get <pin>` and `gpio-toggle <pin>`: the trimmed
/// arguments as a pin number; `Usage` when they are blank.
pub fn parse_gpio_pin(args: &str) -> (r: Result<u32, GpioArgError>)
    ensures
        spec_trim(args@).len() == 0 ==> r == Err::<u32, GpioArgError>(GpioArgError::Usage),
        spec_trim(args@).len() > 0 ==> r == spec_parse_pin(spec_trim(args@)),
{
    let t = trim(args);
    if t.unicode_len() == 0 {
        return Err(GpioArgError::Usage);
    }
    parse_pin(t)
}

/// A `kexec` address: hexadecimal after `0x` or `0X`, else decimal.
pub open spec fn spec_parse_address(s: Seq<char>) -> Option<usize> {
    let r = if s.len() >= 2 && s[0] == '0' && (s[1] == 'x' || s[1] == 'X') {
        spec_parse_unsigned(s.skip(2), 16, usize::MAX as int)
    } else {
        spec_parse_unsigned(s, 10, usize::MAX as int)
    };
    match r {
        Some(v) => Some(v as usize),
        None => None,
    }
}

/// A `kexec` address (see `spec_parse_address`).
pub fn parse_address(s: &str) -> (r: Option<usize>)
    ensures
        r == spec_parse_address(s@),
{
    let n = s.unicode_len();
    let parsed = if n >= 2 && s.get_char(0) == '0' && (s.get_char(1) == 'x' || s.get_char(1) == 'X') {
        let hex = s.substring_char(2, n);
        proof {
            assert(hex@ =~= s@.skip(2));
        }
        parse_unsigned(hex, 16, usize::MAX as u64)
    } else {
        parse_unsigned(s, 10, usize::MAX as u64)
    };
    match parsed {
        Some(v) => Some(v as usize),
        None => None,
    }
}

/// Uptime split into days, hours, minutes and seconds.
#[derive(Debug, Clone, Copy, PartialEq, Eq, Structural)]
pub struct Uptime {
    pub days: u64,
    pub hours: u64,
    pub minutes: u64,
    pub seconds: u64,
}

/// Split an uptime in microseconds: whole days, and the hours, minutes
/// and seconds left over.
pub fn uptime_breakdown(uptime_us: u64) -> (u: Uptime)
    ensures
        u.days == uptime_us / 86_400_000_000,
        u.hours == (uptime_us / 3_600_000_000) % 24,
        u.minutes == (uptime_us / 60_000_000) % 60,
        u.seconds == (uptime_us / 1_000_000) % 60,
{
    let seconds = uptime_us / 1_000_000;
    let minutes = seconds / 60;
    let hours = minutes / 60;
    let days = hours / 24;
    assert(minutes == uptime_us / 60_000_000) by (nonlinear_arith)
        requires seconds == uptime_us / 1_000_000, minutes == seconds / 60;
    assert(hours == uptime_us / 3_600_000_000) by (nonlinear_arith)
        requires minutes == uptime_us / 60_000_000, hours == minutes / 60;
    assert(days == uptime_us / 86_400_000_000) by (nonlinear_arith)
        requires hours == uptime_us / 3_600_000_000, days == hours / 24;
    Uptime { days, hours: hours % 24, minutes: minutes % 60, seconds: seconds % 60 }
}

/// The uptime line for an uptime split into days, hours, minutes and
/// seconds: only the largest nonzero unit and those below it are named.
pub open spec fn spec_uptime_text(u: Uptime) -> Seq<char> {
    if u.days > 0 {
        "Uptime: "@ + spec_decimal(u.days as nat) + " days, "@ + spec_decimal(u.hours as nat) + " hours, "@
            + spec_decimal(u.minutes as nat) + " minutes, "@ + spec_decimal(u.seconds as nat) + " seconds"@
    } else if u.hours > 0 {
        "Uptime: "@ + spec_decimal(u.hours as nat) + " hours, "@ + spec_decimal(u.minutes as nat) + " minutes, "@
            + spec_decimal(u.seconds as nat) + " seconds"@
    } else if u.minutes > 0 {
        "Uptime: "@ + spec_decimal(u.minutes as nat) + " minutes, "@ + spec_decimal(u.seconds as nat) + " seconds"@
    } else {
        "Uptime: "@ + spec_decimal(u.seconds as nat) + " seconds"@
    }
}

/// The uptime line for `uptime_us` microseconds (see `spec_uptime_text`).
pub fn uptime_text(uptime_us: u64) -> (r: String)
    ensures
        r@ == spec_uptime_text(Uptime {
            days: uptime_us / 86_400_000_000,
            hours: (uptime_us / 3_600_000_000) % 24,
            minutes: (uptime_us / 60_000_000) % 60,
            seconds: (uptime_us / 1_000_000) % 60,
        }),
{
    let u = uptime_breakdown(uptime_us);
    let mut out = String::from_str("Uptime: ");
    if u.days > 0 {
        push_decimal(&mut out, u.days);
        out.append(" days, ");
        push_decimal(&mut out, u.hours);
        out.append(" hours, ");
        push_decimal(&mut out, u.minutes);
        out.append(" minutes, ");
    } else if u.hours > 0 {
        push_decimal(&mut out, u.hours);
        out.append(" hours, ");
        push_decimal(&mut out, u.minutes);
        out.append(" minutes, ");
    } else if u.minutes > 0 {
        push_decimal(&mut out, u.minutes);
        out.append(" minutes, ");
    }
    push_decimal(&mut out, u.seconds);
    out.append(" seconds");
    out
}

/// The built-in shell commands.
#[derive(Debug, Clone, Copy, PartialEq, Eq, Structural)]
pub enum CommandKind {
    Help,
    Echo,
    Clear,
    Version,
    Meminfo,
    Uptime,
    History,
    Debug,
    /// `exit`, `shutdown` or `halt`.
    Exit,
    Mmu,
    Exception,
    GpioMode,
    GpioPull,
    GpioSet,
    GpioGet,
    GpioToggle,
    EthStats,
    Netstats,
    ArpProbe,
    FetchKernel,
    Kexec,
}

/// The built-in command a command name selects (names are exact, case
/// included); `None` for an unknown command.
pub open spec fn spec_command_kind(name: Seq<char>) -> Option<CommandKind> {
    if name == "help"@ { Some(CommandKind::Help) }
    else if name == "echo"@ { Some(CommandKind::Echo) }
    else if name == "clear"@ { Some(CommandKind::Clear) }
    else if name == "version"@ { Some(CommandKind::Version) }
    else if name == "meminfo"@ { Some(CommandKind::Meminfo) }
    else if name == "uptime"@ { Some(CommandKind::Uptime) }
    else if name == "history"@ { Some(CommandKind::History) }
    else if name == "debug"@ { Some(CommandKind::Debug) }
    else if name == "exit"@ || name == "shutdown"@ || name == "halt"@ { Some(CommandKind::Exit) }
    else if name == "mmu"@ { Some(CommandKind::Mmu) }
    else if name == "exception"@ { Some(CommandKind::Exception) }
    else if name == "gpio-mode"@ { Some(CommandKind::GpioMode) }
    else if name == "gpio-pull"@ { Some(CommandKind::GpioPull) }
    else if name == "gpio-set"@ { Some(CommandKind::GpioSet) }
    else if name == "gpio-get"@ { Some(CommandKind::GpioGet) }
    else if name == "gpio-toggle"@ { Some(CommandKind::GpioToggle) }
    else if name == "eth-stats"@ { Some(CommandKind::EthStats) }
    else if name == "netstats"@ { Some(CommandKind::Netstats) }
    else if name == "arp-probe"@ { Some(CommandKind::ArpProbe) }
    else if name == "fetch-kernel"@ { Some(CommandKind::FetchKernel) }
    else if name == "kexec"@ { Some(CommandKind::Kexec) }
    else { None }
}

/// Every built-in command named in the help text is selected by its own
/// name, and `exit`, `shutdown` and `halt` all select exit; a name that
/// selects a command is one of these names.
pub proof fn lemma_builtin_command_names()
    ensures
        spec_command_kind("help"@) == Some(CommandKind::Help),
        spec_command_kind("echo"@) == Some(CommandKind::Echo),
        spec_command_kind("clear"@) == Some(CommandKind::Clear),
        spec_command_kind("version"@) == Some(CommandKind::Version),
        spec_command_kind("meminfo"@) == Some(CommandKind::Meminfo),
        spec_command_kind("uptime"@) == Some(CommandKind::Uptime),
        spec_command_kind("history"@) == Some(CommandKind::History),
        spec_command_kind("debug"@) == Some(CommandKind::Debug),
        spec_command_kind("exit"@) == Some(CommandKind::Exit),
        spec_command_kind("shutdown"@) == Some(CommandKind::Exit),
        spec_command_kind("halt"@) == Some(CommandKind::Exit),
        spec_command_kind("mmu"@) == Some(CommandKind::Mmu),
        spec_command_kind("exception"@) == Some(CommandKind::Exception),
        spec_command_kind("gpio-mode"@) == Some(CommandKind::GpioMode),
        spec_command_kind("gpio-pull"@) == Some(CommandKind::GpioPull),
        spec_command_kind("gpio-set"@) == Some(CommandKind::GpioSet),
        spec_command_kind("gpio-get"@) == Some(CommandKind::GpioGet),
        spec_command_kind("gpio-toggle"@) == Some(CommandKind::GpioToggle),
        spec_command_kind("eth-stats"@) == Some(CommandKind::EthStats),
        spec_command_kind("netstats"@) == Some(CommandKind::Netstats),
        spec_command_kind("arp-probe"@) == Some(CommandKind::ArpProbe),
        spec_command_kind("fetch-kernel"@) == Some(CommandKind::FetchKernel),
        spec_command_kind("kexec"@) == Some(CommandKind::Kexec),
        forall|n: Seq<char>| #[trigger] spec_command_kind(n) is Some ==> {
            ||| n == "help"@ ||| n == "echo"@ ||| n == "clear"@ ||| n == "version"@
            ||| n == "meminfo"@ ||| n == "uptime"@ ||| n == "history"@ ||| n == "debug"@
            ||| n == "exit"@ ||| n == "shutdown"@ ||| n == "halt"@ ||| n == "mmu"@
            ||| n == "exception"@ ||| n == "gpio-mode"@ ||| n == "gpio-pull"@ ||| n == "gpio-set"@
            ||| n == "gpio-get"@ ||| n == "gpio-toggle"@ ||| n == "eth-stats"@ ||| n == "netstats"@
            ||| n == "arp-probe"@ ||| n == "fetch-kernel"@ ||| n == "kexec"@
        },
{
    reveal_strlit("help");
    reveal_strlit("echo");
    reveal_strlit("clear");
    reveal_strlit("version");
    reveal_strlit("meminfo");
    reveal_strlit("uptime");
    reveal_strlit("history");
    reveal_strlit("debug");
    reveal_strlit("exit");
    reveal_strlit("shutdown");
    reveal_strlit("halt");
    reveal_strlit("mmu");
    reveal_strlit("exception");
    reveal_strlit("gpio-mode");
    reveal_strlit("gpio-pull");
    reveal_strlit("gpio-set");
    reveal_strlit("gpio-get");
    reveal_strlit("gpio-toggle");
    reveal_strlit("eth-stats");
    reveal_strlit("netstats");
    reveal_strlit("arp-probe");
    reveal_strlit("fetch-kernel");
    reveal_strlit("kexec");
    assert("help"@.len() == 4);
    assert("echo"@.len() == 4);
    assert("clear"@.len() == 5);
    assert("version"@.len() == 7);
    assert("meminfo"@.len() == 7);
    assert("uptime"@.len() == 6);
    assert("history"@.len() == 7);
    assert("debug"@.len() == 5);
    assert("exit"@.len() == 4);
    assert("shutdown"@.len() == 8);
    assert("halt"@.len() == 4);
    assert("mmu"@.len() == 3);
    assert("exception"@.len() == 9);
    assert("gpio-mode"@.len() == 9);
    assert("gpio-pull"@.len() == 9);
    assert("gpio-set"@.len() == 8);
    assert("gpio-get"@.len() == 8);
    assert("gpio-toggle"@.len() == 11);
    assert("eth-stats"@.len() == 9);
    assert("netstats"@.len() == 8);
    assert("arp-probe"@.len() == 9);
    assert("fetch-kernel"@.len() == 12);
    assert("kexec"@.len() == 5);
    assert("help"@[0] != "echo"@[0]);
    assert("help"@[0] != "exit"@[0]);
    assert("help"@[1] != "halt"@[1]);
    assert("echo"@[1] != "exit"@[1]);
    assert("echo"@[0] != "halt"@[0]);
    assert("clear"@[0] != "debug"@[0]);
    assert("clear"@[0] != "kexec"@[0]);
    assert("version"@[0] != "meminfo"@[0]);
    assert("version"@[0] != "history"@[0]);
    assert("meminfo"@[0] != "history"@[0]);
    assert("debug"@[0] != "kexec"@[0]);
    assert("exit"@[0] != "halt"@[0]);
    assert("shutdown"@[0] != "gpio-set"@[0]);
    assert("shutdown"@[0] != "gpio-get"@[0]);
    assert("shutdown"@[0] != "netstats"@[0]);
    assert("exception"@[0] != "gpio-mode"@[0]);
    assert("exception"@[0] != "gpio-pull"@[0]);
    assert("exception"@[1] != "eth-stats"@[1]);
    assert("exception"@[0] != "arp-probe"@[0]);
    assert("gpio-mode"@[5] != "gpio-pull"@[5]);
    assert("gpio-mode"@[0] != "eth-stats"@[0]);
    assert("gpio-mode"@[0] != "arp-probe"@[0]);
    assert("gpio-pull"@[0] != "eth-stats"@[0]);
    assert("gpio-pull"@[0] != "arp-probe"@[0]);
    assert("gpio-set"@[5] != "gpio-get"@[5]);
    assert("gpio-set"@[0] != "netstats"@[0]);
    assert("gpio-get"@[0] != "netstats"@[0]);
    assert("eth-stats"@[0] != "arp-probe"@[0]);
}

/// The built-in command a command name selects (see `spec_command_kind`).
pub fn command_kind(name: &str) -> (r: Option<CommandKind>)
    ensures
        r == spec_command_kind(name@),
{
    if word_eq(name, "help", false) { Some(CommandKind::Help) }
    else if word_eq(name, "echo", false) { Some(CommandKind::Echo) }
    else if word_eq(name, "clear", false) { Some(CommandKind::Clear) }
    else if word_eq(name, "version", false) { Some(CommandKind::Version) }
    else if word_eq(name, "meminfo", false) { Some(CommandKind::Meminfo) }
    else if word_eq(name, "uptime", false) { Some(CommandKind::Uptime) }
    else if word_eq(name, "history", false) { Some(CommandKind::History) }
    else if word_eq(name, "debug", false) { Some(CommandKind::Debug) }
    else if word_eq(name, "exit", false) || word_eq(name, "shutdown", false) || word_eq(name, "halt", false) { Some(CommandKind::Exit) }
    else if word_eq(name, "mmu", false) { Some(CommandKind::Mmu) }
    else if word_eq(name, "exception", false) { Some(CommandKind::Exception) }
    else if word_eq(name, "gpio-mode", false) { Some(CommandKind::GpioMode) }
    else if word_eq(name, "gpio-pull", false) { Some(CommandKind::GpioPull) }
    else if word_eq(name, "gpio-set", false) { Some(CommandKind::GpioSet) }
    else if word_eq(name, "gpio-get", false) { Some(CommandKind::GpioGet) }
    else if word_eq(name, "gpio-toggle", false) { Some(CommandKind::GpioToggle) }
    else if word_eq(name, "eth-stats", false) { Some(CommandKind::EthStats) }
    else if word_eq(name, "netstats", false) { Some(CommandKind::Netstats) }
    else if word_eq(name, "arp-probe", false) { Some(CommandKind::ArpProbe) }
    else if word_eq(name, "fetch-kernel", false) { Some(CommandKind::FetchKernel) }
    else if word_eq(name, "kexec", false) { Some(CommandKind::Kexec) }
    else { None }
}

/// Translation granule size of TCR_EL1.TG0.
#[derive(Debug, Clone, Copy, PartialEq, Eq, Structural)]
pub enum Granule {
    K4,
    K64,
    K16,
    Reserved,
}

/// What TCR_EL1 says of the lower address range: its virtual address
/// bits (64 - T0SZ), its size in GiB and the granule. T0SZ must not be 0.
pub fn tcr_summary(tcr: u64) -> (r: (u64, u64, Granule))
    requires
        tcr & 0x3F != 0,
    ensures
        r.0 == 64 - (tcr & 0x3F),
        r.1 == spec_pow2(r.0 as nat) / 0x4000_0000,
        r.2 == match (tcr >> 14u64) & 3 {
            0 => Granule::K4,
            1 => Granule::K64,
            2 => Granule::K16,
            _ => Granule::Reserved,
        },
{
    let t0sz = tcr & 0x3F;
    assert(tcr & 0x3F <= 63) by (bit_vector);
    let va_bits = 64 - t0sz;
    let va_size = 1u64 << va_bits;
    assert(1u64 << va_bits == spec_pow2(va_bits as nat)) by {
        lemma_shl_pow2(va_bits);
    }
    let g = (tcr >> 14) & 0x3;
    let granule = if g == 0 {
        Granule::K4
    } else if g == 1 {
        Granule::K64
    } else if g == 2 {
        Granule::K16
    } else {
        Granule::Reserved
    };
    (va_bits, va_size / 0x4000_0000, granule)
}

/// 2 to the `n`.
pub open spec fn spec_pow2(n: nat) -> nat
    decreases n,
{
    if n == 0 { 1 } else { 2 * spec_pow2((n - 1) as nat) }
}

proof fn lemma_shl_pow2(k: u64)
    requires
        k < 64,
    ensures
        1u64 << k == spec_pow2(k as nat),
    decreases k,
{
    if k > 0 {
        lemma_shl_pow2((k - 1) as u64);
        assert(1u64 << k == 2 * (1u64 << ((k - 1) as u64))) by (bit_vector)
            requires 0 < k < 64;
    } else {
        assert(1u64 << 0u64 == 1) by (bit_vector);
    }
}

/// The two memory attributes in MAIR_EL1: attribute 0 and attribute 1.
pub fn mair_attributes(mair: u64) -> (r: (u64, u64))
    ensures
        r == (mair & 0xFF, (mair >> 8u64) & 0xFF),
{
    (mair & 0xFF, (mair >> 8) & 0xFF)
}

/// The DAIF mask bits: debug, SError, IRQ, FIQ masked.
pub fn daif_flags(daif: u64) -> (r: (bool, bool, bool, bool))
    ensures
        r == (daif & (1u64 << 9u64) != 0, daif & (1u64 << 8u64) != 0, daif & (1u64 << 7u64) != 0, daif & (1u64 << 6u64) != 0),
{
    (daif & (1u64 << 9u64) != 0, daif & (1u64 << 8u64) != 0, daif & (1u64 << 7u64) != 0, daif & (1u64 << 6u64) != 0)
}

/// Longest command line.
pub const LINE_BUFFER_SIZE: usize = 256;

/// Commands kept in the history.
pub const MAX_HISTORY: usize = 100;

/// What one typed byte did to the line being edited.
#[derive(Debug, Clone, Copy, PartialEq, Eq, Structural)]
pub enum LineEvent {
    /// Enter: the line is complete (start a new output line).
    Done,
    /// Ctrl-C: the line is abandoned (echo `^C` and a new line).
    Cancelled,
    /// This many characters were erased (echo backspace, space,
    /// backspace for each).
    Erased(usize),
    /// The byte was added to the line (echo it).
    Echo(u8),
    /// Nothing happened.
    Ignored,
}

/// A command line being typed.
pub struct LineEditor {
    line: Vec<u8>,
}

impl LineEditor {
    /// The bytes typed so far.
    pub closed spec fn view(&self) -> Seq<u8> {
        self.line@
    }

    /// An empty line.
    pub fn new() -> (e: Self)
        ensures
            e@ == Seq::<u8>::empty(),
    {
        LineEditor { line: Vec::new() }
    }

    /// The bytes typed so far.
    pub fn line(&self) -> (l: &[u8])
        ensures
            l@ == self@,
    {
        self.line.as_slice()
    }

    /// Start a new line.
    pub fn clear(&mut self)
        ensures
            final(self)@ == Seq::<u8>::empty(),
    {
        self.line = Vec::new();
    }

    /// Feed one typed byte: CR or LF completes the line; DEL or BS erases
    /// the last character; Ctrl-C abandons the line (which becomes empty);
    /// Ctrl-U erases the whole line; a printable ASCII byte is added
    /// while the line is shorter than `LINE_BUFFER_SIZE`; anything else
    /// is ignored.
    pub fn feed(&mut self, ch: u8) -> (ev: LineEvent)
        requires
            old(self)@.len() <= LINE_BUFFER_SIZE,
        ensures
            final(self)@.len() <= LINE_BUFFER_SIZE,
            ch == 13 || ch == 10 ==> ev == LineEvent::Done && final(self)@ == old(self)@,
            ch == 0x7F || ch == 8 ==> if old(self)@.len() > 0 {
                ev == LineEvent::Erased(1) && final(self)@ == old(self)@.drop_last()
            } else {
                ev == LineEvent::Erased(0) && final(self)@ == old(self)@
            },
            ch == 3 ==> ev == LineEvent::Cancelled && final(self)@ == Seq::<u8>::empty(),
            ch == 0x15 ==> ev == LineEvent::Erased(old(self)@.len() as usize) && final(self)@ == Seq::<u8>::empty(),
            0x20 <= ch <= 0x7E ==> if old(self)@.len() < LINE_BUFFER_SIZE {
                ev == LineEvent::Echo(ch) && final(self)@ == old(self)@.push(ch)
            } else {
                ev == LineEvent::Ignored && final(self)@ == old(self)@
            },
            !(ch == 13 || ch == 10 || ch == 0x7F || ch == 8 || ch == 3 || ch == 0x15 || 0x20 <= ch <= 0x7E) ==> ev == LineEvent::Ignored && final(self)@ == old(self)@,
    {
        if ch == 13 || ch == 10 {
            LineEvent::Done
        } else if ch == 0x7F || ch == 8 {
            if self.line.len() > 0 {
                self.line.pop();
                LineEvent::Erased(1)
            } else {
                LineEvent::Erased(0)
            }
        } else if ch == 3 {
            self.line = Vec::new();
            LineEvent::Cancelled
        } else if ch == 0x15 {
            let n = self.line.len();
            self.line = Vec::new();
            LineEvent::Erased(n)
        } else if 0x20 <= ch && ch <= 0x7E {
            if self.line.len() < LINE_BUFFER_SIZE {
                self.line.push(ch);
                LineEvent::Echo(ch)
            } else {
                LineEvent::Ignored
            }
        } else {
            LineEvent::Ignored
        }
    }
}

/// The command history, oldest first.
pub struct History {
    entries: Vec<String>,
}

/// The history after recording `line` (run as command `name`): commands
/// other than `history` are appended, and beyond `MAX_HISTORY` entries
/// the oldest is dropped.
pub open spec fn spec_record(h: Seq<Seq<char>>, name: Seq<char>, line: Seq<char>) -> Seq<Seq<char>> {
    if name == "history"@ {
        h
    } else if h.len() + 1 > MAX_HISTORY {
        h.push(line).drop_first()
    } else {
        h.push(line)
    }
}

impl History {
    /// The recorded lines, oldest first.
    pub closed spec fn view(&self) -> Seq<Seq<char>> {
        self.entries@.map_values(|s: String| s@)
    }

    /// At most `MAX_HISTORY` lines are kept.
    #[verifier::type_invariant]
    closed spec fn bounded(&self) -> bool {
        self.entries@.len() <= MAX_HISTORY
    }

    /// An empty history.
    pub fn new() -> (h: Self)
        ensures
            h@ == Seq::<Seq<char>>::empty(),
    {
        let h = History { entries: Vec::new() };
        assert(h@ =~= Seq::<Seq<char>>::empty());
        h
    }

    /// Record a command line (see `spec_record`).
    pub fn record(&mut self, name: &str, line: &str)
        ensures
            old(self)@.len() <= MAX_HISTORY,
            final(self)@ == spec_record(old(self)@, name@, line@),
            final(self)@.len() <= MAX_HISTORY,
    {
        proof {
            use_type_invariant(&*self);
        }
        if word_eq(name, "history", false) {
            return;
        }
        let s = <String as vstd::string::StringExecFns>::from_str(line);
        let mut entries: Vec<String> = Vec::new();
        std::mem::swap(&mut entries, &mut self.entries);
        entries.push(s);
        if entries.len() > MAX_HISTORY {
            let ghost mid = entries@;
            let _oldest = entries.remove(0);
            proof {
                assert(entries@ =~= mid.drop_first());
            }
        }
        proof {
            assert(entries@.map_values(|s: String| s@) =~= spec_record(old(self)@, name@, line@));
        }
        self.entries = entries;
    }

    /// Number of recorded lines.
    pub fn len(&self) -> (n: usize)
        ensures
            n == self@.len(),
    {
        self.entries.len()
    }

    /// Whether nothing is recorded.
    pub fn is_empty(&self) -> (b: bool)
        ensures
            b == (self@.len() == 0),
    {
        self.entries.len() == 0
    }

    /// The `i`-th recorded line, oldest first.
    pub fn get(&self, i: usize) -> (s: &str)
        requires
            i < self@.len(),
        ensures
            s@ == self@[i as int],
    {
        self.entries[i].as_str()
    }
}

} // verus!
