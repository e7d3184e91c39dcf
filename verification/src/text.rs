//! Character-level helpers shared by the views: truncation, filtering,
//! wrapping and decimal rendering, each specified over `Seq<char>`.

use vstd::prelude::*;

verus! {

/// Appends one character to a string; a wrapper around `String::push`,
/// which vstd does not specify. The contract says what std documents:
/// the character is appended at the end.
#[verifier::external_body]
pub(crate) fn push_char(s: &mut String, c: char)
    ensures
        final(s)@ == old(s)@.push(c),
{
    s.push(c);
}

/// The smaller of `n` and `len`.
pub open spec fn min_int(n: int, len: int) -> int {
    if n <= len {
        n
    } else {
        len
    }
}

/// The first `n` characters of `s` (all of `s` when it is shorter),
/// as `s.chars().take(n).collect::<String>()` gives them.
pub fn take_chars(s: &str, n: usize) -> (r: String)
    ensures
        r@ == s@.take(min_int(n as int, s@.len() as int)),
{
    let mut r = String::new();
    let mut count: usize = 0;
    for c in it: s.chars()
        invariant
            count == min_int(it.index() as int, n as int),
            it.seq() == s@,
            r@ == s@.take(count as int),
    {
        if count < n {
            push_char(&mut r, c);
            count = count + 1;
        }
    }
    r
}

/// `s` with every occurrence of `c` removed.
pub open spec fn without_char(s: Seq<char>, c: char) -> Seq<char>
    decreases s.len(),
{
    if s.len() == 0 {
        s
    } else {
        let rest = without_char(s.drop_last(), c);
        if s.last() == c {
            rest
        } else {
            rest.push(s.last())
        }
    }
}

/// Removes every occurrence of `c` from `s`.
pub fn remove_char(s: &str, c: char) -> (r: String)
    ensures
        r@ == without_char(s@, c),
{
    let mut r = String::new();
    for x in it: s.chars()
        invariant
            it.seq() == s@,
            r@ == without_char(s@.take(it.index() as int), c),
    {
        proof {
            assert(s@.take(it.index() + 1).drop_last() =~= s@.take(it.index() as int));
        }
        if x != c {
            push_char(&mut r, x);
        }
    }
    proof {
        assert(s@.take(s@.len() as int) =~= s@);
    }
    r
}

/// `s` with every `from` replaced by `to`.
pub open spec fn replaced_char(s: Seq<char>, from: char, to: char) -> Seq<char> {
    s.map_values(|x: char| if x == from { to } else { x })
}

/// Replaces every occurrence of `from` in `s` by `to`.
pub fn replace_char(s: &str, from: char, to: char) -> (r: String)
    ensures
        r@ == replaced_char(s@, from, to),
{
    let mut r = String::new();
    for x in it: s.chars()
        invariant
            it.seq() == s@,
            r@ == replaced_char(s@.take(it.index() as int), from, to),
    {
        proof {
            assert(replaced_char(s@.take(it.index() + 1), from, to) =~= replaced_char(
                s@.take(it.index() as int),
                from,
                to,
            ).push(if x == from { to } else { x }));
        }
        if x == from {
            push_char(&mut r, to);
        } else {
            push_char(&mut r, x);
        }
    }
    proof {
        assert(s@.take(s@.len() as int) =~= s@);
    }
    r
}

/// The part of `s` after its last `sep` (all of `s` when it holds none):
/// what `s.split(sep).last()` gives.
pub open spec fn last_segment(s: Seq<char>, sep: char) -> Seq<char>
    decreases s.len(),
{
    if s.len() == 0 {
        s
    } else if s.last() == sep {
        Seq::empty()
    } else {
        last_segment(s.drop_last(), sep).push(s.last())
    }
}

/// The part of `s` after its last `sep`.
pub fn after_last(s: &str, sep: char) -> (r: String)
    ensures
        r@ == last_segment(s@, sep),
{
    let mut r = String::new();
    for x in it: s.chars()
        invariant
            it.seq() == s@,
            r@ == last_segment(s@.take(it.index() as int), sep),
    {
        proof {
            assert(s@.take(it.index() + 1).drop_last() =~= s@.take(it.index() as int));
        }
        if x == sep {
            r = String::new();
        } else {
            push_char(&mut r, x);
        }
    }
    proof {
        assert(s@.take(s@.len() as int) =~= s@);
    }
    r
}

/// `s` cut into lines of `width` characters joined by `'\n'`: a newline
/// stands before each character whose index is a positive multiple of `width`.
pub open spec fn wrap_text(s: Seq<char>, width: nat) -> Seq<char>
    decreases s.len(),
{
    if s.len() == 0 {
        s
    } else {
        let i = s.len() - 1;
        let head = wrap_text(s.drop_last(), width);
        if i > 0 && i % (width as int) == 0 {
            head.push('\n').push(s.last())
        } else {
            head.push(s.last())
        }
    }
}

proof fn lemma_mod_step(i: int, w: int)
    requires
        i >= 0,
        w > 0,
    ensures
        (i + 1) % w == if i % w + 1 == w { 0 } else { i % w + 1 },
{
    vstd::arithmetic::div_mod::lemma_fundamental_div_mod(i, w);
    vstd::arithmetic::div_mod::lemma_mod_pos_bound(i, w);
    let q = i / w;
    assert(w * q == q * w) by (nonlinear_arith);
    assert((q + 1) * w == q * w + w) by (nonlinear_arith);
    if i % w + 1 == w {
        vstd::arithmetic::div_mod::lemma_fundamental_div_mod_converse(i + 1, w, q + 1, 0);
    } else {
        vstd::arithmetic::div_mod::lemma_fundamental_div_mod_converse(i + 1, w, q, i % w + 1);
    }
}

/// Cuts `s` into chunks of `width` characters and joins them with `'\n'`.
pub fn wrap_chars(s: &str, width: usize) -> (r: String)
    requires
        width > 0,
    ensures
        r@ == wrap_text(s@, width as nat),
{
    let mut r = String::new();
    let mut col: usize = 0;
    let mut started = false;
    for x in it: s.chars()
        invariant
            width > 0,
            it.seq() == s@,
            r@ == wrap_text(s@.take(it.index() as int), width as nat),
            started == (it.index() > 0),
            col == (it.index() as int) % (width as int),
    {
        proof {
            assert(s@.take(it.index() + 1).drop_last() =~= s@.take(it.index() as int));
            lemma_mod_step(it.index() as int, width as int);
        }
        if started && col == 0 {
            push_char(&mut r, '\n');
        }
        push_char(&mut r, x);
        started = true;
        col = if col + 1 == width { 0 } else { col + 1 };
    }
    proof {
        assert(s@.take(s@.len() as int) =~= s@);
    }
    r
}

proof fn lemma_without_char_push(x: Seq<char>, c: char, d: char)
    ensures
        without_char(x.push(d), c) == if d == c { without_char(x, c) } else { without_char(x, c).push(d) },
{
    assert(x.push(d).drop_last() =~= x);
}

/// Wrapping loses no character: taking the line breaks out of a wrapped
/// text gives what taking them out of the text gives.
pub proof fn lemma_wrap_keeps_text(s: Seq<char>, width: nat)
    requires
        width > 0,
    ensures
        without_char(wrap_text(s, width), '\n') == without_char(s, '\n'),
    decreases s.len(),
{
    if s.len() > 0 {
        lemma_wrap_keeps_text(s.drop_last(), width);
        let head = wrap_text(s.drop_last(), width);
        lemma_without_char_push(s.drop_last(), '\n', s.last());
        assert(s.drop_last().push(s.last()) =~= s);
        let i = s.len() - 1;
        if i > 0 && i % (width as int) == 0 {
            lemma_without_char_push(head, '\n', '\n');
            lemma_without_char_push(head.push('\n'), '\n', s.last());
        } else {
            lemma_without_char_push(head, '\n', s.last());
        }
    }
}

/// The decimal digit `d` (below ten) as a character.
pub open spec fn digit_char(d: nat) -> char {
    (48 + d) as char
}

/// The decimal rendering of `n`, without leading zeros.
pub open spec fn decimal(n: nat) -> Seq<char>
    decreases n,
{
    if n < 10 {
        seq![digit_char(n)]
    } else {
        decimal(n / 10).push(digit_char(n % 10))
    }
}

/// Appends the decimal rendering of `n` to `s`.
pub fn push_decimal(s: &mut String, n: usize)
    ensures
        final(s)@ == old(s)@ + decimal(n as nat),
    decreases n,
{
    if n >= 10 {
        push_decimal(s, n / 10);
    }
    let d: u8 = (n % 10) as u8;
    let c: char = (48u8 + d) as char;
    push_char(s, c);
    proof {
        assert(c == digit_char((n % 10) as nat));
        if n >= 10 {
            assert(decimal(n as nat) == decimal((n / 10) as nat).push(digit_char((n % 10) as nat)));
        }
    }
}

/// The decimal rendering of `n` as a new string.
pub fn to_decimal(n: usize) -> (r: String)
    ensures
        r@ == decimal(n as nat),
{
    let mut r = String::new();
    push_decimal(&mut r, n);
    assert(r@ =~= decimal(n as nat));
    r
}

/// Two decimal digits of `n` (below one hundred), with a leading zero.
pub open spec fn two_digits(n: nat) -> Seq<char> {
    seq![digit_char(n / 10), digit_char(n % 10)]
}

/// Appends two decimal digits of `n` to `s`.
pub fn push_two_digits(s: &mut String, n: u32)
    requires
        n < 100,
    ensures
        final(s)@ == old(s)@ + two_digits(n as nat),
{
    let hi: u8 = (n / 10) as u8;
    let lo: u8 = (n % 10) as u8;
    push_char(s, (48u8 + hi) as char);
    push_char(s, (48u8 + lo) as char);
    assert(final(s)@ =~= old(s)@ + two_digits(n as nat));
}

} // verus!
