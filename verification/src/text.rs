//! Building blocks of argument text: decimal numerals and separated lists.

use vstd::prelude::*;

verus! {

/// The character that writes the digit `d`, for `d` below ten.
pub open spec fn digit_char(d: nat) -> char {
    if d == 0 {
        '0'
    } else if d == 1 {
        '1'
    } else if d == 2 {
        '2'
    } else if d == 3 {
        '3'
    } else if d == 4 {
        '4'
    } else if d == 5 {
        '5'
    } else if d == 6 {
        '6'
    } else if d == 7 {
        '7'
    } else if d == 8 {
        '8'
    } else {
        '9'
    }
}

/// The decimal numeral of `n`: most significant digit first, no sign, no
/// leading zero (zero itself is written `0`).
pub open spec fn decimal(n: nat) -> Seq<char>
    decreases n,
{
    if n < 10 {
        seq![digit_char(n)]
    } else {
        decimal(n / 10).push(digit_char(n % 10))
    }
}

/// Whether `c` is one of the ten decimal digits.
pub open spec fn is_digit(c: char) -> bool {
    '0' <= c <= '9'
}

/// The number that a decimal digit stands for.
pub open spec fn digit_value(c: char) -> nat {
    (c as nat - '0' as nat) as nat
}

/// The number that a string of decimal digits denotes.
pub open spec fn numeral_value(s: Seq<char>) -> nat
    decreases s.len(),
{
    if s.len() == 0 {
        0
    } else {
        numeral_value(s.drop_last()) * 10 + digit_value(s.last())
    }
}

/// A decimal numeral is never empty, holds digits only, and starts with `0`
/// only when it is the numeral of zero.
pub proof fn lemma_decimal_shape(n: nat)
    ensures
        decimal(n).len() >= 1,
        forall|i: int| 0 <= i < decimal(n).len() ==> is_digit(#[trigger] decimal(n)[i]),
        decimal(n)[0] == '0' <==> n == 0,
    decreases n,
{
    if n >= 10 {
        lemma_decimal_shape(n / 10);
    }
}

/// Reading a decimal numeral gives back the number it was written for.
pub proof fn lemma_decimal_value(n: nat)
    ensures
        numeral_value(decimal(n)) == n,
    decreases n,
{
    let s = decimal(n);
    if n >= 10 {
        lemma_decimal_value(n / 10);
        assert(s.drop_last() =~= decimal(n / 10));
        assert(digit_value(s.last()) == n % 10);
    } else {
        assert(s.drop_last() =~= Seq::<char>::empty());
        assert(numeral_value(s.drop_last()) == 0);
        assert(digit_value(s.last()) == n);
    }
}

/// Distinct numbers have distinct numerals.
pub proof fn lemma_decimal_injective(m: nat, n: nat)
    requires
        decimal(m) == decimal(n),
    ensures
        m == n,
{
    lemma_decimal_value(m);
    lemma_decimal_value(n);
}

/// The one-character text of a digit.
fn digit_str(d: u64) -> (s: &'static str)
    requires
        d < 10,
    ensures
        s@ == seq![digit_char(d as nat)],
{
    let s = if d == 0 {
        proof { reveal_strlit("0"); }
        "0"
    } else if d == 1 {
        proof { reveal_strlit("1"); }
        "1"
    } else if d == 2 {
        proof { reveal_strlit("2"); }
        "2"
    } else if d == 3 {
        proof { reveal_strlit("3"); }
        "3"
    } else if d == 4 {
        proof { reveal_strlit("4"); }
        "4"
    } else if d == 5 {
        proof { reveal_strlit("5"); }
        "5"
    } else if d == 6 {
        proof { reveal_strlit("6"); }
        "6"
    } else if d == 7 {
        proof { reveal_strlit("7"); }
        "7"
    } else if d == 8 {
        proof { reveal_strlit("8"); }
        "8"
    } else {
        proof { reveal_strlit("9"); }
        "9"
    };
    assert(s@ =~= seq![digit_char(d as nat)]);
    s
}

/// Writes `n` in decimal.
pub fn number(n: u64) -> (s: String)
    ensures
        s@ == decimal(n as nat),
    decreases n,
{
    if n < 10 {
        digit_str(n).to_owned()
    } else {
        let mut s = number(n / 10);
        s.append(digit_str(n % 10));
        s
    }
}

/// Whether `c` is a capital letter of the Latin alphabet.
pub open spec fn is_capital(c: char) -> bool {
    'A' <= c <= 'Z'
}

/// `c` as a small letter, if it is a capital; else `c` itself.
pub open spec fn small(c: char) -> char {
    if is_capital(c) {
        ((c as u8) + 32) as char
    } else {
        c
    }
}

/// `s` with each capital turned into its small letter.
pub open spec fn lowercase(s: Seq<char>) -> Seq<char> {
    Seq::new(s.len(), |i: int| small(s[i]))
}

/// Whether `s` is a word of small letters and digits only.
pub open spec fn is_keyword(s: Seq<char>) -> bool {
    &&& s.len() > 0
    &&& forall|i: int| 0 <= i < s.len() ==> 'a' <= #[trigger] s[i] <= 'z' || is_digit(s[i])
}

/// Adds the argument `arg` at the end of `args`.
pub(crate) fn push_arg(args: &mut Vec<String>, arg: String)
    ensures
        final(args).deep_view() == old(args).deep_view().push(arg@),
{
    args.push(arg);
    assert(args.deep_view() =~= old(args).deep_view().push(arg@));
}

/// Adds the arguments `more` at the end of `args`, in their order.
pub(crate) fn push_args(args: &mut Vec<String>, more: Vec<String>)
    ensures
        final(args).deep_view() == old(args).deep_view() + more.deep_view(),
{
    let mut more = more;
    let ghost added = more.deep_view();
    args.append(&mut more);
    assert(args.deep_view() =~= old(args).deep_view() + added);
}

/// The texts of `parts` in order, with `sep` between each two neighbours and
/// none before the first or after the last.
pub open spec fn joined(parts: Seq<Seq<char>>, sep: Seq<char>) -> Seq<char>
    decreases parts.len(),
{
    if parts.len() == 0 {
        Seq::empty()
    } else if parts.len() == 1 {
        parts[0]
    } else {
        joined(parts.drop_last(), sep) + sep + parts.last()
    }
}

/// A joined text begins as its first part begins and ends as its last part
/// ends, if those are not empty: no separator stands before or behind.
pub proof fn lemma_joined_ends(parts: Seq<Seq<char>>, sep: Seq<char>)
    requires
        parts.len() > 0,
        parts.first().len() > 0,
        parts.last().len() > 0,
    ensures
        joined(parts, sep).len() > 0,
        joined(parts, sep).first() == parts.first().first(),
        joined(parts, sep).last() == parts.last().last(),
{
    if parts.len() > 1 {
        lemma_joined_begins(parts.drop_last(), sep);
    }
}

/// A joined text begins as its first part begins, if that is not empty.
proof fn lemma_joined_begins(parts: Seq<Seq<char>>, sep: Seq<char>)
    requires
        parts.len() > 0,
        parts.first().len() > 0,
    ensures
        joined(parts, sep).len() > 0,
        joined(parts, sep).first() == parts.first().first(),
    decreases parts.len(),
{
    if parts.len() > 1 {
        lemma_joined_begins(parts.drop_last(), sep);
    }
}

/// Joins `parts` with `sep` between them.
pub fn join(parts: &Vec<String>, sep: &str) -> (text: String)
    ensures
        text@ == joined(parts.deep_view(), sep@),
{
    let mut text = String::new();
    let mut i: usize = 0;
    while i < parts.len()
        invariant
            i <= parts.len(),
            text@ == joined(parts.deep_view().take(i as int), sep@),
        decreases parts.len() - i,
    {
        let ghost done = parts.deep_view().take(i as int);
        let ghost next = parts.deep_view().take(i + 1);
        assert(next.drop_last() =~= done);
        assert(next.last() == parts[i as int]@);
        if i > 0 {
            text.append(sep);
        } else {
            assert(done =~= Seq::<Seq<char>>::empty());
            assert(text@ + parts[i as int]@ =~= parts[i as int]@);
        }
        text.append(parts[i].as_str());
        i += 1;
    }
    assert(parts.deep_view().take(i as int) =~= parts.deep_view());
    text
}

} // verus!
