//! Text helpers: decimal rendering of integers.

use vstd::prelude::*;

verus! {

/// The character of a decimal digit.
pub open spec fn digit_char(d: nat) -> char {
    ((d + 48) as u8) as char
}

/// The decimal representation of `n`, without sign or leading zeros.
pub open spec fn decimal(n: nat) -> Seq<char>
    decreases n,
{
    if n < 10 {
        seq![digit_char(n)]
    } else {
        decimal(n / 10).push(digit_char(n % 10))
    }
}

fn digit_str(d: u64) -> (s: &'static str)
    requires
        d < 10,
    ensures
        s@ == seq![digit_char(d as nat)],
{
    proof {
        reveal_strlit("0");
        reveal_strlit("1");
        reveal_strlit("2");
        reveal_strlit("3");
        reveal_strlit("4");
        reveal_strlit("5");
        reveal_strlit("6");
        reveal_strlit("7");
        reveal_strlit("8");
        reveal_strlit("9");
    }
    match d {
        0 => "0",
        1 => "1",
        2 => "2",
        3 => "3",
        4 => "4",
        5 => "5",
        6 => "6",
        7 => "7",
        8 => "8",
        _ => "9",
    }
}

/// Appends the decimal representation of `n` to `out`.
pub fn push_decimal(out: &mut String, n: u64)
    ensures
        final(out)@ == old(out)@ + decimal(n as nat),
    decreases n,
{
    if n >= 10 {
        push_decimal(out, n / 10);
    }
    out.append(digit_str(n % 10));
}

/// The decimal representation of `n`, as `n.to_string()` gives it.
pub fn decimal_string(n: u64) -> (s: String)
    ensures
        s@ == decimal(n as nat),
{
    let mut s = String::new();
    push_decimal(&mut s, n);
    assert(s@ =~= decimal(n as nat));
    s
}

} // verus!

verus! {

/// `s` with every occurrence of the character `from` replaced by `to`, as
/// `str::replace` with a character pattern gives it.
pub open spec fn replaced(s: Seq<char>, from: char, to: Seq<char>) -> Seq<char>
    decreases s.len(),
{
    if s.len() == 0 {
        Seq::empty()
    } else {
        replaced(s.drop_last(), from, to) + (if s.last() == from {
            to
        } else {
            seq![s.last()]
        })
    }
}

/// Replacement distributes over concatenation.
pub proof fn lemma_replaced_concat(a: Seq<char>, b: Seq<char>, from: char, to: Seq<char>)
    ensures
        replaced(a + b, from, to) == replaced(a, from, to) + replaced(b, from, to),
    decreases b.len(),
{
    if b.len() == 0 {
        assert(a + b =~= a);
        assert(replaced(b, from, to) =~= Seq::<char>::empty());
        assert(replaced(a, from, to) + replaced(b, from, to) =~= replaced(a, from, to));
    } else {
        lemma_replaced_concat(a, b.drop_last(), from, to);
        assert((a + b).drop_last() =~= a + b.drop_last());
        assert((a + b).last() == b.last());
        let piece = if b.last() == from { to } else { seq![b.last()] };
        assert(replaced(a, from, to) + replaced(b.drop_last(), from, to) + piece
            =~= replaced(a, from, to) + (replaced(b.drop_last(), from, to) + piece));
    }
}

/// Copies `s`, replacing each character `from` by the text `to`.
pub fn replace_char(s: &str, from: char, to: &str) -> (r: String)
    ensures
        r@ == replaced(s@, from, to@),
{
    let n = s.unicode_len();
    let mut r = String::new();
    let mut i: usize = 0;
    while i < n
        invariant
            n == s@.len(),
            i <= n,
            r@ == replaced(s@.take(i as int), from, to@),
        decreases n - i,
    {
        let c = s.get_char(i);
        assert(s@.take(i + 1).drop_last() =~= s@.take(i as int));
        if c == from {
            r.append(to);
        } else {
            let one = s.substring_char(i, i + 1);
            assert(one@ =~= seq![c]);
            r.append(one);
        }
        i = i + 1;
    }
    assert(s@.take(n as int) =~= s@);
    r
}

/// The text of a shell word that quotes `s`: `s` in single quotes, each
/// single quote in it written as `'\''`.
pub open spec fn sh_quoted(s: Seq<char>) -> Seq<char> {
    "'"@ + replaced(s, '\'', "'\\''"@) + "'"@
}

/// Quotes a value for the shell: wraps it in single quotes, and writes each
/// single quote inside as `'\''`.
pub fn shell_quote(value: &str) -> (q: String)
    ensures
        q@ == sh_quoted(value@),
{
    let mut q = String::from_str("'");
    let body = replace_char(value, '\'', "'\\''");
    q.append(body.as_str());
    q.append("'");
    q
}

/// How a POSIX shell reads a word made only of single-quoted spans and
/// backslash-escaped characters; `None` for any other word (an unquoted
/// plain character, a dangling backslash or an unclosed quote).
pub open spec fn sh_unquote(w: Seq<char>, in_quote: bool) -> Option<Seq<char>>
    decreases w.len(),
{
    if w.len() == 0 {
        if in_quote { None } else { Some(Seq::empty()) }
    } else if in_quote {
        if w[0] == '\'' {
            sh_unquote(w.drop_first(), false)
        } else {
            match sh_unquote(w.drop_first(), true) {
                Some(rest) => Some(seq![w[0]] + rest),
                None => None,
            }
        }
    } else if w[0] == '\'' {
        sh_unquote(w.drop_first(), true)
    } else if w[0] == '\\' && w.len() >= 2 {
        match sh_unquote(w.drop_first().drop_first(), false) {
            Some(rest) => Some(seq![w[1]] + rest),
            None => None,
        }
    } else {
        None
    }
}

#[verifier::spinoff_prover]
proof fn lemma_unquote_body(s: Seq<char>)
    ensures
        sh_unquote(replaced(s, '\'', "'\\''"@) + "'"@, true) == Some(s),
    decreases s.len(),
{
    reveal_strlit("'");
    reveal_strlit("'\\''");
    let esc = "'\\''"@;
    if s.len() == 0 {
        assert(replaced(s, '\'', esc) =~= Seq::<char>::empty());
        let w = replaced(s, '\'', esc) + "'"@;
        assert(w =~= seq!['\'']);
        assert(w.drop_first() =~= Seq::<char>::empty());
        assert(sh_unquote(w.drop_first(), false) == Some(Seq::<char>::empty()));
        assert(sh_unquote(w, true) == sh_unquote(w.drop_first(), false));
        assert(s =~= Seq::<char>::empty());
    } else {
        let c = s[0];
        let rest = s.drop_first();
        assert(s =~= seq![c] + rest);
        lemma_replaced_concat(seq![c], rest, '\'', esc);
        assert(seq![c].drop_last() =~= Seq::<char>::empty());
        assert(replaced(Seq::<char>::empty(), '\'', esc) =~= Seq::<char>::empty());
        lemma_unquote_body(rest);
        let tail = replaced(rest, '\'', esc) + "'"@;
        assert(sh_unquote(tail, true) == Some(rest));
        if c == '\'' {
            assert(replaced(seq![c], '\'', esc) =~= esc);
            let w = esc + tail;
            assert(w =~= replaced(s, '\'', esc) + "'"@);
            let w1 = w.drop_first();
            let w2 = w1.drop_first().drop_first();
            assert(w[0] == '\'');
            assert(w1[0] == '\\' && w1[1] == '\'' && w1.len() >= 2);
            assert(w2[0] == '\'');
            assert(w2.drop_first() =~= tail);
            assert(sh_unquote(w2, false) == sh_unquote(w2.drop_first(), true));
            assert(sh_unquote(w2, false) == Some(rest));
            assert(sh_unquote(w1, false) == Some(seq![w1[1]] + rest));
            assert(sh_unquote(w, true) == sh_unquote(w1, false));
            assert(seq![w1[1]] + rest =~= s);
        } else {
            assert(replaced(seq![c], '\'', esc) =~= seq![c]);
            let w = seq![c] + tail;
            assert(w =~= replaced(s, '\'', esc) + "'"@);
            assert(w[0] == c);
            assert(w.drop_first() =~= tail);
            assert(sh_unquote(w, true) == Some(seq![w[0]] + rest));
            assert(seq![w[0]] + rest =~= s);
        }
    }
}

/// A quoted value reads back, in the shell, as exactly the value.
pub proof fn lemma_shell_quote_round_trip(s: Seq<char>)
    ensures
        sh_unquote(sh_quoted(s), false) == Some(s),
{
    reveal_strlit("'");
    let w = sh_quoted(s);
    let body = replaced(s, '\'', "'\\''"@) + "'"@;
    assert(w =~= seq!['\''] + body);
    assert(w.drop_first() =~= body);
    lemma_unquote_body(s);
}

} // verus!

verus! {

/// The texts of `items` joined by `sep`, as `[String]::join` gives it.
pub open spec fn joined(items: Seq<Seq<char>>, sep: Seq<char>) -> Seq<char>
    decreases items.len(),
{
    if items.len() == 0 {
        Seq::empty()
    } else if items.len() == 1 {
        items[0]
    } else {
        joined(items.drop_last(), sep) + sep + items.last()
    }
}

/// Joins the strings of `items` with `sep` between each two of them.
pub fn join_strings(items: &[String], sep: &str) -> (r: String)
    ensures
        r@ == joined(items@.map_values(|s: String| s@), sep@),
{
    let ghost views = items@.map_values(|s: String| s@);
    let mut r = String::new();
    let n = items.len();
    let mut i: usize = 0;
    while i < n
        invariant
            n == items@.len(),
            views == items@.map_values(|s: String| s@),
            i <= n,
            r@ == joined(views.take(i as int), sep@),
        decreases n - i,
    {
        assert(views.take(i + 1).drop_last() =~= views.take(i as int));
        assert(views.take(i + 1).last() == items@[i as int]@);
        if i != 0 {
            r.append(sep);
        } else {
            assert(views.take(1) =~= seq![views[0]]);
        }
        r.append(items[i].as_str());
        i = i + 1;
    }
    assert(views.take(n as int) =~= views);
    r
}

/// What `format!("{:?}", s)` renders for the string `s`.
pub uninterp spec fn debug_text(s: Seq<char>) -> Seq<char>;

/// Renders a string as `{:?}` does: in double quotes, with escapes.
///
/// Calls `<str as Debug>::fmt` through `format!`; the contract claims only
/// that the result is a function of the string.
#[verifier::external_body]
fn debug_quote(s: &str) -> (r: String)
    ensures
        r@ == debug_text(s@),
{
    format!("{:?}", s)
}

/// What `{:?}` renders for a list of strings: the debug forms of the
/// strings, separated by `, `, in square brackets.
pub open spec fn debug_list_text(items: Seq<Seq<char>>) -> Seq<char> {
    "["@ + joined(items.map_values(|s: Seq<char>| debug_text(s)), ", "@) + "]"@
}

/// Renders a list of strings as `{:?}` does.
pub fn debug_list(items: &[String]) -> (r: String)
    ensures
        r@ == debug_list_text(items@.map_values(|s: String| s@)),
{
    let ghost views = items@.map_values(|s: String| s@);
    let ghost dviews = views.map_values(|s: Seq<char>| debug_text(s));
    let mut r = String::from_str("[");
    let n = items.len();
    let mut i: usize = 0;
    while i < n
        invariant
            n == items@.len(),
            views == items@.map_values(|s: String| s@),
            dviews == views.map_values(|s: Seq<char>| debug_text(s)),
            i <= n,
            r@ == "["@ + joined(dviews.take(i as int), ", "@),
        decreases n - i,
    {
        assert(dviews.take(i + 1).drop_last() =~= dviews.take(i as int));
        assert(dviews.take(i + 1).last() == debug_text(items@[i as int]@));
        let ghost before = r@;
        if i != 0 {
            r.append(", ");
        } else {
            assert(dviews.take(1) =~= seq![dviews[0]]);
        }
        let d = debug_quote(items[i].as_str());
        r.append(d.as_str());
        proof {
            if i != 0 {
                assert(r@ =~= "["@ + (joined(dviews.take(i as int), ", "@) + ", "@ + dviews[i as int]));
            } else {
                assert(r@ =~= "["@ + dviews[0]);
            }
        }
        i = i + 1;
    }
    assert(dviews.take(n as int) =~= dviews);
    r.append("]");
    r
}

/// Whether `c` has the Unicode `White_Space` property, as
/// `char::is_whitespace` tests it.
pub open spec fn is_white_space(c: char) -> bool {
    ||| ('\u{9}' <= c && c <= '\u{d}')
    ||| c == ' '
    ||| c == '\u{85}'
    ||| c == '\u{a0}'
    ||| c == '\u{1680}'
    ||| ('\u{2000}' <= c && c <= '\u{200a}')
    ||| c == '\u{2028}'
    ||| c == '\u{2029}'
    ||| c == '\u{202f}'
    ||| c == '\u{205f}'
    ||| c == '\u{3000}'
}

/// `s` without its leading white space.
pub open spec fn trim_start(s: Seq<char>) -> Seq<char>
    decreases s.len(),
{
    if s.len() > 0 && is_white_space(s[0]) {
        trim_start(s.drop_first())
    } else {
        s
    }
}

/// `s` without its trailing white space.
pub open spec fn trim_end(s: Seq<char>) -> Seq<char>
    decreases s.len(),
{
    if s.len() > 0 && is_white_space(s.last()) {
        trim_end(s.drop_last())
    } else {
        s
    }
}

/// What `str::trim` leaves of a string: the string without leading and
/// trailing white space.
pub open spec fn trimmed(s: Seq<char>) -> Seq<char> {
    trim_end(trim_start(s))
}

/// Whether `c` is white space (see [`is_white_space`]).
pub fn white_space_char(c: char) -> (b: bool)
    ensures
        b == is_white_space(c),
{
    ('\u{9}' <= c && c <= '\u{d}') || c == ' ' || c == '\u{85}' || c == '\u{a0}' || c
        == '\u{1680}' || ('\u{2000}' <= c && c <= '\u{200a}') || c == '\u{2028}' || c
        == '\u{2029}' || c == '\u{202f}' || c == '\u{205f}' || c == '\u{3000}'
}

/// Removes leading and trailing white space, as `str::trim` does.
pub fn trim_text(s: &str) -> (r: String)
    ensures
        r@ == trimmed(s@),
{
    let n = s.unicode_len();
    let mut start: usize = 0;
    assert(s@.subrange(0, n as int) =~= s@);
    while start < n
        invariant
            n == s@.len(),
            start <= n,
            trim_start(s@) == trim_start(s@.subrange(start as int, n as int)),
        ensures
            start == n || !is_white_space(s@[start as int]),
        decreases n - start,
    {
        if !white_space_char(s.get_char(start)) {
            break;
        }
        assert(s@.subrange(start as int, n as int).drop_first() =~= s@.subrange(
            start + 1,
            n as int,
        ));
        start = start + 1;
    }
    let ghost front = s@.subrange(start as int, n as int);
    assert(trim_start(s@) == front) by {
        if start < n {
            assert(front[0] == s@[start as int]);
        } else {
            assert(front.len() == 0);
        }
    }
    let mut end: usize = n;
    while end > start
        invariant
            n == s@.len(),
            start <= end <= n,
            front == s@.subrange(start as int, n as int),
            trim_end(front) == trim_end(s@.subrange(start as int, end as int)),
        ensures
            end == start || !is_white_space(s@[end - 1]),
        decreases end - start,
    {
        if !white_space_char(s.get_char(end - 1)) {
            break;
        }
        assert(s@.subrange(start as int, end as int).drop_last() =~= s@.subrange(
            start as int,
            end - 1,
        ));
        end = end - 1;
    }
    let ghost kept = s@.subrange(start as int, end as int);
    assert(trim_end(front) == kept) by {
        if start < end {
            assert(kept.last() == s@[end - 1]);
        } else {
            assert(kept.len() == 0);
        }
    }
    String::from_str(s.substring_char(start, end))
}

/// Whether `p` is a prefix of `s`.
pub open spec fn is_prefix(p: Seq<char>, s: Seq<char>) -> bool {
    p.len() <= s.len() && s.subrange(0, p.len() as int) == p
}

/// Whether `s` starts with `p`.
pub fn starts_with(s: &str, p: &str) -> (b: bool)
    ensures
        b == is_prefix(p@, s@),
{
    let n = s.unicode_len();
    let m = p.unicode_len();
    if m > n {
        return false;
    }
    let mut i: usize = 0;
    while i < m
        invariant
            n == s@.len(),
            m == p@.len(),
            m <= n,
            i <= m,
            forall|j: int| 0 <= j < i ==> s@[j] == p@[j],
        decreases m - i,
    {
        if s.get_char(i) != p.get_char(i) {
            assert(s@.subrange(0, m as int)[i as int] != p@[i as int]);
            return false;
        }
        i = i + 1;
    }
    assert(s@.subrange(0, m as int) =~= p@);
    true
}

/// Whether two strings hold the same text.
pub fn same_text(a: &str, b: &str) -> (r: bool)
    ensures
        r == (a@ == b@),
{
    let x = String::from_str(a);
    let y = String::from_str(b);
    x == y
}

/// The value of a character as a decimal digit.
pub open spec fn digit_value(c: char) -> nat {
    (c as nat - 48) as nat
}

pub open spec fn is_digit(c: char) -> bool {
    '0' <= c && c <= '9'
}

/// The number a string of decimal digits denotes.
pub open spec fn digits_value(d: Seq<char>) -> nat
    decreases d.len(),
{
    if d.len() == 0 {
        0
    } else {
        digits_value(d.drop_last()) * 10 + digit_value(d.last())
    }
}

/// The digits part of a number to parse: the text without one leading `+`.
pub open spec fn unsigned_digits(s: Seq<char>) -> Seq<char> {
    if s.len() > 0 && s[0] == '+' { s.drop_first() } else { s }
}

/// Whether every character of `d` is a decimal digit.
pub open spec fn all_digits(d: Seq<char>) -> bool {
    forall|i: int| 0 <= i < d.len() ==> is_digit(#[trigger] d[i])
}

/// What `str::parse::<usize>` accepts: an optional `+`, then one or more
/// decimal digits whose value fits in a `usize`; and the value.
pub open spec fn parsed_usize(s: Seq<char>) -> Option<usize> {
    let d = unsigned_digits(s);
    if d.len() > 0 && all_digits(d) && digits_value(d) <= usize::MAX {
        Some(digits_value(d) as usize)
    } else {
        None
    }
}

proof fn lemma_digits_value_mono(d: Seq<char>, k: int)
    requires
        0 <= k <= d.len(),
    ensures
        digits_value(d.take(k)) <= digits_value(d),
    decreases d.len() - k,
{
    if k < d.len() {
        lemma_digits_value_mono(d, k + 1);
        assert(d.take(k + 1).drop_last() =~= d.take(k));
    } else {
        assert(d.take(k) =~= d);
    }
}

/// Reads a decimal `usize` as `str::parse::<usize>` does.
pub fn parse_usize(s: &str) -> (r: Option<usize>)
    ensures
        r == parsed_usize(s@),
{
    let n = s.unicode_len();
    let start: usize = if n > 0 && s.get_char(0) == '+' { 1 } else { 0 };
    let ghost d = unsigned_digits(s@);
    assert(d =~= s@.subrange(start as int, n as int));
    if start == n {
        return None;
    }
    let mut value: usize = 0;
    let mut i: usize = start;
    while i < n
        invariant
            n == s@.len(),
            start <= i <= n,
            start < n,
            d == unsigned_digits(s@),
            d == s@.subrange(start as int, n as int),
            forall|j: int| 0 <= j < i - start ==> is_digit(#[trigger] d[j]),
            value == digits_value(d.take(i - start)),
        decreases n - i,
    {
        let c = s.get_char(i);
        assert(d[i - start] == c);
        if c < '0' || c > '9' {
            assert(!is_digit(d[i - start]));
            assert(!all_digits(d));
            return None;
        }
        let dv: usize = (c as u32 - 48) as usize;
        assert(d.take(i + 1 - start).drop_last() =~= d.take(i - start));
        assert(d.take(i + 1 - start).last() == c);
        assert(digits_value(d.take(i + 1 - start)) == value * 10 + dv);
        if value > (usize::MAX - dv) / 10 {
            proof {
                assert(value * 10 + dv > usize::MAX) by (nonlinear_arith)
                    requires
                        value > (usize::MAX - dv) / 10,
                        dv <= 9,
                ;
                lemma_digits_value_mono(d, i + 1 - start);
            }
            return None;
        }
        assert(value * 10 + dv <= usize::MAX) by (nonlinear_arith)
            requires
                value <= (usize::MAX - dv) / 10,
                dv <= 9,
        ;
        value = value * 10 + dv;
        i = i + 1;
    }
    assert(d.take(n - start) =~= d);
    assert(all_digits(d));
    Some(value)
}

/// The pieces of `s` between occurrences of the character `sep`, as
/// `str::split` with a character pattern yields them.
pub open spec fn split_parts(s: Seq<char>, sep: char) -> Seq<Seq<char>>
    decreases s.len(),
{
    if s.len() == 0 {
        seq![Seq::empty()]
    } else {
        let prev = split_parts(s.drop_last(), sep);
        if s.last() == sep {
            prev.push(Seq::empty())
        } else {
            prev.update(prev.len() - 1, prev.last().push(s.last()))
        }
    }
}

proof fn lemma_split_parts_nonempty(s: Seq<char>, sep: char)
    ensures
        split_parts(s, sep).len() >= 1,
    decreases s.len(),
{
    if s.len() > 0 {
        lemma_split_parts_nonempty(s.drop_last(), sep);
    }
}

/// Splits `s` at each occurrence of `sep`.
pub fn split_on(s: &str, sep: char) -> (parts: Vec<String>)
    ensures
        parts@.map_values(|p: String| p@) == split_parts(s@, sep),
{
    let n = s.unicode_len();
    let mut parts: Vec<String> = Vec::new();
    let mut current = String::new();
    let mut i: usize = 0;
    while i < n
        invariant
            n == s@.len(),
            i <= n,
            parts@.map_values(|p: String| p@).push(current@) == split_parts(s@.take(i as int), sep),
        decreases n - i,
    {
        let c = s.get_char(i);
        let ghost prev = split_parts(s@.take(i as int), sep);
        assert(s@.take(i + 1).drop_last() =~= s@.take(i as int));
        proof {
            lemma_split_parts_nonempty(s@.take(i as int), sep);
        }
        if c == sep {
            let done = current;
            parts.push(done);
            current = String::new();
            assert(parts@.map_values(|p: String| p@).push(current@) =~= prev.push(Seq::empty()));
        } else {
            let ghost old_parts = parts@.map_values(|p: String| p@);
            let ghost old_current = current@;
            assert(prev == old_parts.push(old_current));
            let one = s.substring_char(i, i + 1);
            assert(one@ =~= seq![c]);
            current.append(one);
            assert(parts@.map_values(|p: String| p@) == old_parts);
            assert(current@ =~= old_current.push(c));
            assert(parts@.map_values(|p: String| p@).push(current@) =~= prev.update(
                prev.len() - 1,
                prev.last().push(c),
            ));
        }
        i = i + 1;
    }
    assert(s@.take(n as int) =~= s@);
    parts.push(current);
    parts
}

/// Replacing a character by a text that does not hold it leaves none of it.
pub proof fn lemma_replaced_removes(s: Seq<char>, from: char, to: Seq<char>)
    requires
        !to.contains(from),
    ensures
        !replaced(s, from, to).contains(from),
    decreases s.len(),
{
    if s.len() > 0 {
        lemma_replaced_removes(s.drop_last(), from, to);
        let head = replaced(s.drop_last(), from, to);
        let piece = if s.last() == from { to } else { seq![s.last()] };
        assert forall|i: int| 0 <= i < (head + piece).len() implies (head + piece)[i] != from by {
            if i < head.len() {
                assert(head[i] != from);
            } else {
                assert(piece[i - head.len()] != from);
            }
        }
    }
}

/// A rendered number is all digits, and reads back as the number.
pub proof fn lemma_decimal_digits(n: nat)
    ensures
        decimal(n).len() > 0,
        all_digits(decimal(n)),
        digits_value(decimal(n)) == n,
    decreases n,
{
    if n >= 10 {
        lemma_decimal_digits(n / 10);
        let d = decimal(n / 10);
        assert(decimal(n).drop_last() =~= d);
        assert(digit_value(digit_char(n % 10)) == n % 10);
        assert(decimal(n).last() == digit_char(n % 10));
        assert(digits_value(decimal(n)) == digits_value(d) * 10 + digit_value(digit_char(n % 10)));
        assert((n / 10) * 10 + n % 10 == n);
        assert forall|i: int| 0 <= i < decimal(n).len() implies is_digit(#[trigger] decimal(n)[i]) by {
            if i < d.len() {
                assert(decimal(n)[i] == d[i]);
            }
        }
    } else {
        assert(decimal(n).drop_last() =~= Seq::<char>::empty());
        assert(digit_value(digit_char(n)) == n);
        assert(digits_value(Seq::<char>::empty()) == 0);
        assert(digits_value(decimal(n)) == digits_value(decimal(n).drop_last()) * 10 + digit_value(
            decimal(n).last(),
        ));
    }
}

/// A `usize` rendered in decimal parses back to itself.
pub proof fn lemma_decimal_parses_back(n: usize)
    ensures
        parsed_usize(decimal(n as nat)) == Some(n),
{
    lemma_decimal_digits(n as nat);
    assert(decimal(n as nat)[0] != '+');
    assert(unsigned_digits(decimal(n as nat)) == decimal(n as nat));
}

} // verus!
