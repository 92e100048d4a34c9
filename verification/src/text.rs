//! Text as sequences of characters: comparison, substitution of a token,
//! padding and decimal numerals.
//!
//! Every function here is stated over the view of its arguments, a
//! `Seq<char>`, so that callers can reason about the exact text produced.

use vstd::prelude::*;

verus! {

/// Whether `token` stands in `text` at position `at`.
pub open spec fn matches_at(text: Seq<char>, at: int, token: Seq<char>) -> bool {
    &&& 0 <= at
    &&& at + token.len() <= text.len()
    &&& text.subrange(at, at + token.len()) == token
}

/// Whether `token` stands somewhere in `text`.
pub open spec fn occurs(text: Seq<char>, token: Seq<char>) -> bool {
    exists|at: int| matches_at(text, at, token)
}

/// `text` with every occurrence of `token` replaced by `value`, reading from
/// the left; an occurrence that was replaced is not read again, so matches do
/// not overlap. An empty token occurs nowhere.
pub open spec fn replaced(text: Seq<char>, token: Seq<char>, value: Seq<char>) -> Seq<char>
    decreases text.len(),
{
    if token.len() == 0 || text.len() < token.len() {
        text
    } else if text.subrange(0, token.len() as int) == token {
        value + replaced(text.subrange(token.len() as int, text.len() as int), token, value)
    } else {
        seq![text[0]] + replaced(text.subrange(1, text.len() as int), token, value)
    }
}

/// `count` spaces.
pub open spec fn spaces(count: nat) -> Seq<char> {
    Seq::new(count, |i: int| ' ')
}

/// `text` centred in a field of `width` characters: the padding is split in
/// two, and where it is odd the extra space goes to the right. Text that
/// fills the field is left as it is.
pub open spec fn centered(text: Seq<char>, width: nat) -> Seq<char> {
    if text.len() >= width {
        text
    } else {
        let padding = (width - text.len()) as nat;
        spaces(padding / 2) + text + spaces(((padding + 1) / 2) as nat)
    }
}

/// The character of a decimal digit.
pub open spec fn digit(d: nat) -> char {
    if d == 0 {
        '0'
    } else if d == 1 {
        '1'
    } else if d == 2 {
        '2'
    } else if d == 3 {
        '3'
    } else if d == 4 {
        '4'
    } else if d == 5 {
        '5'
    } else if d == 6 {
        '6'
    } else if d == 7 {
        '7'
    } else if d == 8 {
        '8'
    } else {
        '9'
    }
}

/// The decimal numeral of `n`, without leading zeros.
pub open spec fn decimal(n: nat) -> Seq<char>
    decreases n,
{
    if n < 10 {
        seq![digit(n)]
    } else {
        decimal(n / 10).push(digit(n % 10))
    }
}

/// The characters of `s`, in order.
pub fn to_chars(s: &str) -> (v: Vec<char>)
    ensures
        v@ == s@,
{
    let mut v: Vec<char> = Vec::new();
    for c in it: s.chars()
        invariant
            v@ == s@.subrange(0, it.index() as int),
            it.seq() == s@,
    {
        v.push(c);
    }
    assert(s@.subrange(0, s@.len() as int) == s@);
    v
}

/// Whether two texts hold the same characters.
pub fn same_text(a: &str, b: &str) -> (same: bool)
    ensures
        same == (a@ == b@),
{
    let x = to_chars(a);
    let y = to_chars(b);
    if x.len() != y.len() {
        return false;
    }
    let mut i: usize = 0;
    while i < x.len()
        invariant
            x@ == a@,
            y@ == b@,
            x.len() == y.len(),
            i <= x.len(),
            forall|k: int| 0 <= k < i ==> x@[k] == y@[k],
        decreases x.len() - i,
    {
        if x[i] != y[i] {
            return false;
        }
        i = i + 1;
    }
    assert(x@ =~= y@);
    true
}

/// Whether `token` stands in `text` at position `at`.
fn token_at(text: &Vec<char>, at: usize, token: &Vec<char>) -> (found: bool)
    ensures
        found == matches_at(text@, at as int, token@),
{
    if token.len() > text.len() || at > text.len() - token.len() {
        return false;
    }
    let mut k: usize = 0;
    while k < token.len()
        invariant
            at + token.len() <= text.len(),
            k <= token.len(),
            forall|j: int| 0 <= j < k ==> text@[at + j] == token@[j],
        decreases token.len() - k,
    {
        if text[at + k] != token[k] {
            assert(text@.subrange(at as int, at + token.len())[k as int] != token@[k as int]);
            return false;
        }
        k = k + 1;
    }
    assert(text@.subrange(at as int, at + token.len()) =~= token@);
    true
}

/// Whether `token` stands somewhere in `text`.
pub fn contains(text: &str, token: &str) -> (found: bool)
    ensures
        found == occurs(text@, token@),
{
    let t = to_chars(text);
    let p = to_chars(token);
    if p.len() == 0 {
        assert(text@.subrange(0, 0) =~= token@);
        assert(matches_at(text@, 0, token@));
        return true;
    }
    if p.len() > t.len() {
        return false;
    }
    let last: usize = t.len() - p.len();
    let mut i: usize = 0;
    while i <= last
        invariant
            t@ == text@,
            p@ == token@,
            p.len() > 0,
            last == t.len() - p.len(),
            i <= last + 1,
            forall|at: int| 0 <= at < i ==> !matches_at(t@, at, p@),
        decreases last + 1 - i,
    {
        if token_at(&t, i, &p) {
            return true;
        }
        i = i + 1;
    }
    false
}

/// Where `text` does not begin with `token`, replacing skips its first
/// character.
proof fn lemma_replaced_skip(text: Seq<char>, token: Seq<char>, value: Seq<char>)
    requires
        token.len() > 0,
        text.len() >= token.len(),
        !matches_at(text, 0, token),
    ensures
        replaced(text, token, value) == seq![text[0]] + replaced(
            text.subrange(1, text.len() as int),
            token,
            value,
        ),
{
}

/// Where `text` begins with `token`, replacing puts `value` there and goes on
/// behind the token.
proof fn lemma_replaced_hit(text: Seq<char>, token: Seq<char>, value: Seq<char>)
    requires
        token.len() > 0,
        matches_at(text, 0, token),
    ensures
        replaced(text, token, value) == value + replaced(
            text.subrange(token.len() as int, text.len() as int),
            token,
            value,
        ),
{
}

/// A token that occurs nowhere leaves the text as it is.
pub proof fn lemma_replaced_absent(text: Seq<char>, token: Seq<char>, value: Seq<char>)
    requires
        !occurs(text, token),
    ensures
        replaced(text, token, value) == text,
    decreases text.len(),
{
    if token.len() == 0 || text.len() < token.len() {
    } else {
        assert(!matches_at(text, 0, token));
        let rest = text.subrange(1, text.len() as int);
        assert forall|at: int| !matches_at(rest, at, token) by {
            if matches_at(rest, at, token) {
                assert(rest.subrange(at, at + token.len()) =~= text.subrange(
                    at + 1,
                    at + 1 + token.len(),
                ));
                assert(matches_at(text, at + 1, token));
            }
        }
        lemma_replaced_absent(rest, token, value);
        assert(seq![text[0]] + rest =~= text);
    }
}

/// `text` with every occurrence of `token` replaced by `value`.
pub fn replace_all(text: &str, token: &str, value: &str) -> (out: String)
    ensures
        out@ == replaced(text@, token@, value@),
{
    let t = to_chars(text);
    let p = to_chars(token);
    let mut out = String::new();
    if p.len() == 0 || p.len() > t.len() {
        out.append(text);
        assert(out@ =~= text@);
        return out;
    }
    let last: usize = t.len() - p.len();
    let mut kept: usize = 0;
    let mut i: usize = 0;
    proof {
        assert(t@.subrange(0, t.len() as int) =~= t@);
        assert(out@ + t@.subrange(0, 0) + replaced(t@, p@, value@) =~= replaced(
            t@,
            p@,
            value@,
        ));
    }
    while i <= last
        invariant
            t@ == text@,
            p@ == token@,
            p.len() > 0,
            last == t.len() - p.len(),
            kept <= i,
            i <= t.len(),
            replaced(t@, p@, value@) == out@ + t@.subrange(kept as int, i as int) + replaced(
                t@.subrange(i as int, t.len() as int),
                p@,
                value@,
            ),
        decreases t.len() - i,
    {
        let ghost rest = t@.subrange(i as int, t.len() as int);
        let ghost before = out@;
        if token_at(&t, i, &p) {
            proof {
                assert(rest.subrange(0, p.len() as int) =~= t@.subrange(i as int, i + p.len()));
                lemma_replaced_hit(rest, p@, value@);
                assert(rest.subrange(p.len() as int, rest.len() as int) =~= t@.subrange(
                    i + p.len(),
                    t.len() as int,
                ));
            }
            out.append(text.substring_char(kept, i));
            out.append(value);
            i = i + p.len();
            kept = i;
            proof {
                assert(t@.subrange(kept as int, i as int) =~= Seq::<char>::empty());
                assert(out@ + t@.subrange(kept as int, i as int) =~= out@);
            }
        } else {
            proof {
                assert(rest.subrange(0, p.len() as int) =~= t@.subrange(i as int, i + p.len()));
                lemma_replaced_skip(rest, p@, value@);
                assert(rest.subrange(1, rest.len() as int) =~= t@.subrange(
                    i + 1,
                    t.len() as int,
                ));
                assert(t@.subrange(kept as int, i as int) + seq![rest[0]] =~= t@.subrange(
                    kept as int,
                    i + 1,
                ));
                assert(out@ + t@.subrange(kept as int, i as int) + (seq![rest[0]] + replaced(
                    t@.subrange(i + 1, t.len() as int),
                    p@,
                    value@,
                )) =~= out@ + t@.subrange(kept as int, i + 1) + replaced(
                    t@.subrange(i + 1, t.len() as int),
                    p@,
                    value@,
                ));
            }
            i = i + 1;
        }
    }
    proof {
        let rest = t@.subrange(i as int, t.len() as int);
        assert(rest.len() < p.len());
        assert(replaced(rest, p@, value@) == rest);
        assert(t@.subrange(kept as int, i as int) + rest =~= t@.subrange(
            kept as int,
            t.len() as int,
        ));
        assert(out@ + t@.subrange(kept as int, i as int) + rest =~= out@ + t@.subrange(
            kept as int,
            t.len() as int,
        ));
    }
    out.append(text.substring_char(kept, t.len()));
    out
}

/// `count` spaces.
fn blank(count: usize) -> (out: String)
    ensures
        out@ == spaces(count as nat),
{
    let mut out = String::new();
    let mut i: usize = 0;
    proof {
        reveal_strlit(" ");
        assert(out@ =~= spaces(0));
    }
    while i < count
        invariant
            i <= count,
            out@ == spaces(i as nat),
            " "@ == seq![' '],
        decreases count - i,
    {
        out.append(" ");
        i = i + 1;
        assert(out@ =~= spaces(i as nat));
    }
    out
}

/// `text` centred in a field of `width` characters.
pub fn center(text: &str, width: usize) -> (out: String)
    ensures
        out@ == centered(text@, width as nat),
{
    let length: usize = text.unicode_len();
    if length >= width {
        return text.to_owned();
    }
    let padding: usize = width - length;
    let left: usize = padding / 2;
    let right: usize = padding - left;
    assert(right == (padding + 1) / 2);
    let mut out = blank(left);
    out.append(text);
    let tail = blank(right);
    out.append(tail.as_str());
    out
}

/// The one-character text of a decimal digit.
fn digit_text(d: u64) -> (out: &'static str)
    requires
        d < 10,
    ensures
        out@ == seq![digit(d as nat)],
{
    proof {
        reveal_strlit("0");
        reveal_strlit("1");
        reveal_strlit("2");
        reveal_strlit("3");
        reveal_strlit("4");
        reveal_strlit("5");
        reveal_strlit("6");
        reveal_strlit("7");
        reveal_strlit("8");
        reveal_strlit("9");
    }
    if d == 0 {
        "0"
    } else if d == 1 {
        "1"
    } else if d == 2 {
        "2"
    } else if d == 3 {
        "3"
    } else if d == 4 {
        "4"
    } else if d == 5 {
        "5"
    } else if d == 6 {
        "6"
    } else if d == 7 {
        "7"
    } else if d == 8 {
        "8"
    } else {
        "9"
    }
}

/// The decimal numeral of `n`, without leading zeros.
pub fn decimal_text(n: u64) -> (out: String)
    ensures
        out@ == decimal(n as nat),
    decreases n,
{
    if n < 10 {
        digit_text(n).to_owned()
    } else {
        let mut out = decimal_text(n / 10);
        out.append(digit_text(n % 10));
        assert(out@ =~= decimal((n / 10) as nat).push(digit((n % 10) as nat)));
        out
    }
}

} // verus!
