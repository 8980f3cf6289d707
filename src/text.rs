//! Small verified string operations shared by the parsers and renderers.

use vstd::prelude::*;

verus! {

/// `s` with the prefix `p` removed when `s` starts with it, unchanged otherwise.
pub open spec fn strip(s: Seq<char>, p: Seq<char>) -> Seq<char> {
    if p.is_prefix_of(s) {
        s.skip(p.len() as int)
    } else {
        s
    }
}

/// Character-wise equality of two strings.
pub fn str_eq(a: &str, b: &str) -> (r: bool)
    ensures
        r == (a@ == b@),
{
    let n = a.unicode_len();
    if n != b.unicode_len() {
        return false;
    }
    let mut i: usize = 0;
    while i < n
        invariant
            n == a@.len(),
            n == b@.len(),
            i <= n,
            forall|j: int| 0 <= j < i ==> a@[j] == b@[j],
        decreases n - i,
    {
        if a.get_char(i) != b.get_char(i) {
            return false;
        }
        i = i + 1;
    }
    assert(a@ =~= b@);
    true
}

/// Whether `s` starts with `p`.
pub fn starts_with(s: &str, p: &str) -> (r: bool)
    ensures
        r == p@.is_prefix_of(s@),
{
    let n = p.unicode_len();
    if n > s.unicode_len() {
        return false;
    }
    let mut i: usize = 0;
    while i < n
        invariant
            n == p@.len(),
            n <= s@.len(),
            i <= n,
            forall|j: int| 0 <= j < i ==> p@[j] == s@[j],
        decreases n - i,
    {
        if s.get_char(i) != p.get_char(i) {
            return false;
        }
        i = i + 1;
    }
    true
}

/// `s` without the prefix `p`, when it has it.
pub fn strip_prefix<'a>(s: &'a str, p: &str) -> (r: &'a str)
    ensures
        r@ == strip(s@, p@),
{
    if starts_with(s, p) {
        let r = s.substring_char(p.unicode_len(), s.unicode_len());
        assert(r@ =~= s@.skip(p@.len() as int));
        r
    } else {
        s
    }
}

/// The parts in order, with `sep` between each two.
pub open spec fn joined(parts: Seq<Seq<char>>, sep: Seq<char>) -> Seq<char>
    decreases parts.len(),
{
    if parts.len() == 0 {
        Seq::empty()
    } else if parts.len() == 1 {
        parts[0]
    } else {
        joined(parts.drop_last(), sep) + sep + parts.last()
    }
}

/// The views of a list of strings.
pub open spec fn views(parts: Seq<String>) -> Seq<Seq<char>> {
    parts.map_values(|p: String| p@)
}

/// Relies on `itertools::join`: each item's text in order, with `sep`
/// between each two (a `String` displays as itself).
#[verifier::external_body]
pub(crate) fn join(parts: &Vec<String>, sep: &str) -> (r: String)
    ensures
        r@ == joined(views(parts@), sep@),
{
    itertools::join(parts, sep)
}

/// The emoji form of a symbol on terminals that show emoji, its plain form
/// elsewhere.
pub open spec fn pick(emoji: bool, fancy: Seq<char>, plain: Seq<char>) -> Seq<char> {
    if emoji {
        fancy
    } else {
        plain
    }
}

/// `n` spaces.
pub open spec fn spaces(n: nat) -> Seq<char> {
    Seq::new(n, |i: int| ' ')
}

/// `s` right-aligned in a field of `width` characters, as `{:>width}`
/// formats it.
pub open spec fn align_right(s: Seq<char>, width: nat) -> Seq<char> {
    if s.len() < width {
        spaces((width - s.len()) as nat) + s
    } else {
        s
    }
}

/// `s` left-aligned in a field of `width` characters, as `{:<width}`
/// formats it.
pub open spec fn align_left(s: Seq<char>, width: nat) -> Seq<char> {
    if s.len() < width {
        s + spaces((width - s.len()) as nat)
    } else {
        s
    }
}

fn push_spaces(r: &mut String, n: usize)
    ensures
        final(r)@ == old(r)@ + spaces(n as nat),
{
    let mut i: usize = 0;
    while i < n
        invariant
            i <= n,
            r@ == old(r)@ + spaces(i as nat),
        decreases n - i,
    {
        r.append(" ");
        proof {
            reveal_strlit(" ");
        }
        i = i + 1;
        assert(r@ =~= old(r)@ + spaces(i as nat));
    }
}

/// Pads `s` on the left to `width` characters.
pub fn pad_right_align(s: &str, width: usize) -> (r: String)
    ensures
        r@ == align_right(s@, width as nat),
{
    let n = s.unicode_len();
    let mut r = String::new();
    if n < width {
        push_spaces(&mut r, width - n);
    }
    r.append(s);
    assert(r@ =~= align_right(s@, width as nat));
    r
}

/// Pads `s` on the right to `width` characters.
pub fn pad_left_align(s: &str, width: usize) -> (r: String)
    ensures
        r@ == align_left(s@, width as nat),
{
    let n = s.unicode_len();
    let mut r = String::from_str(s);
    if n < width {
        push_spaces(&mut r, width - n);
    }
    assert(r@ =~= align_left(s@, width as nat));
    r
}

/// The decimal digits of `n`, without leading zeros.
pub open spec fn decimal(n: nat) -> Seq<char>
    decreases n,
{
    if n < 10 {
        digit(n)
    } else {
        decimal(n / 10) + digit(n % 10)
    }
}

pub open spec fn digit(d: nat) -> Seq<char> {
    if d == 0 {
        "0"@
    } else     if d == 1 {
        "1"@
    } else     if d == 2 {
        "2"@
    } else     if d == 3 {
        "3"@
    } else     if d == 4 {
        "4"@
    } else     if d == 5 {
        "5"@
    } else     if d == 6 {
        "6"@
    } else     if d == 7 {
        "7"@
    } else     if d == 8 {
        "8"@
    } else {
        "9"@
    }
}

fn digit_str(d: u64) -> (r: &'static str)
    requires
        d < 10,
    ensures
        r@ == digit(d as nat),
{
    if d == 0 {
        "0"
    } else     if d == 1 {
        "1"
    } else     if d == 2 {
        "2"
    } else     if d == 3 {
        "3"
    } else     if d == 4 {
        "4"
    } else     if d == 5 {
        "5"
    } else     if d == 6 {
        "6"
    } else     if d == 7 {
        "7"
    } else     if d == 8 {
        "8"
    } else {
        "9"
    }
}

/// Renders `n` in decimal, as `u64`'s `Display` does.
pub fn to_decimal(n: u64) -> (r: String)
    ensures
        r@ == decimal(n as nat),
    decreases n,
{
    if n < 10 {
        String::from_str(digit_str(n))
    } else {
        let mut r = to_decimal(n / 10);
        r.append(digit_str(n % 10));
        r
    }
}

/// What follows the last `sep` in `s`; all of `s` when it has none.
pub open spec fn after_last(s: Seq<char>, sep: char) -> Seq<char>
    decreases s.len(),
{
    if s.len() == 0 {
        s
    } else if s.last() == sep {
        Seq::empty()
    } else {
        after_last(s.drop_last(), sep).push(s.last())
    }
}

proof fn lemma_after_last(s: Seq<char>, sep: char, k: int)
    requires
        -1 <= k < s.len(),
        k >= 0 ==> s[k] == sep,
        forall|j: int| k < j < s.len() ==> s[j] != sep,
    ensures
        after_last(s, sep) == s.skip(k + 1),
    decreases s.len(),
{
    if s.len() > 0 {
        if k == s.len() - 1 {
            assert(s.skip(k + 1) =~= Seq::<char>::empty());
        } else {
            let init = s.drop_last();
            assert(s.last() == s[s.len() - 1]);
            lemma_after_last(init, sep, k);
            assert(s.skip(k + 1) =~= init.skip(k + 1).push(s.last()));
        }
    } else {
        assert(s.skip(k + 1) =~= s);
    }
}

/// The part of `path` after its last `sep`, or all of it.
pub fn last_delimiter(path: &str, sep: char) -> (r: &str)
    ensures
        r@ == after_last(path@, sep),
{
    let n = path.unicode_len();
    let mut i: usize = n;
    while i > 0
        invariant
            i <= n,
            n == path@.len(),
            forall|j: int| i <= j < n ==> path@[j] != sep,
        decreases i,
    {
        if path.get_char(i - 1) == sep {
            proof {
                lemma_after_last(path@, sep, i - 1);
            }
            let r = path.substring_char(i, n);
            assert(r@ =~= path@.skip(i as int));
            return r;
        }
        i = i - 1;
    }
    proof {
        lemma_after_last(path@, sep, -1);
    }
    assert(path@.skip(0) =~= path@);
    path
}

} // verus!
