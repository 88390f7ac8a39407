//! Names of the generated files.

use vstd::prelude::*;
use vstd::string::StringExecFns;

verus! {

/// Least number of digits a file's index is written with.
pub const INDEX_WIDTH: usize = 4;

/// The character of a single decimal digit.
pub open spec fn digit_char(d: nat) -> char {
    if d == 0 {
        '0'
    } else if d == 1 {
        '1'
    } else if d == 2 {
        '2'
    } else if d == 3 {
        '3'
    } else if d == 4 {
        '4'
    } else if d == 5 {
        '5'
    } else if d == 6 {
        '6'
    } else if d == 7 {
        '7'
    } else if d == 8 {
        '8'
    } else {
        '9'
    }
}

/// The decimal numeral of `n`, most significant digit first, without
/// leading zeros (a single `0` for zero).
pub open spec fn decimal_digits(n: nat) -> Seq<char>
    decreases n,
{
    if n < 10 {
        seq![digit_char(n)]
    } else {
        decimal_digits(n / 10).push(digit_char(n % 10))
    }
}

/// The decimal numeral of `n`, filled up with zeros on the left to at least
/// `width` characters. A numeral that is longer than `width` stays whole.
pub open spec fn zero_padded(n: nat, width: nat) -> Seq<char> {
    let digits = decimal_digits(n);
    if digits.len() >= width {
        digits
    } else {
        Seq::new((width - digits.len()) as nat, |i: int| '0') + digits
    }
}

/// The directory that every generated file is placed in, with its separator.
pub open spec fn directory_prefix() -> Seq<char> {
    seq!['d', 'a', 't', 'a', '/']
}

/// The extension of every generated file, with its dot.
pub open spec fn extension() -> Seq<char> {
    seq!['.', 'd', 'a', 't']
}

/// The path of the file with the given index: the fixed directory, the index
/// in at least four digits, and the fixed extension.
pub open spec fn file_name_of(index: nat) -> Seq<char> {
    directory_prefix() + zero_padded(index, INDEX_WIDTH as nat) + extension()
}

/// A numeral below ten has one digit, below a hundred two, below a thousand
/// three, and from there on at least four.
pub proof fn lemma_digit_count(n: nat)
    ensures
        n < 10 ==> decimal_digits(n).len() == 1,
        10 <= n < 100 ==> decimal_digits(n).len() == 2,
        100 <= n < 1000 ==> decimal_digits(n).len() == 3,
        1000 <= n ==> decimal_digits(n).len() >= 4,
{
    reveal_with_fuel(decimal_digits, 5);
}

fn digit_str(d: usize) -> (s: &'static str)
    requires
        d < 10,
    ensures
        s@ == seq![digit_char(d as nat)],
{
    proof {
        reveal_strlit("0");
        reveal_strlit("1");
        reveal_strlit("2");
        reveal_strlit("3");
        reveal_strlit("4");
        reveal_strlit("5");
        reveal_strlit("6");
        reveal_strlit("7");
        reveal_strlit("8");
        reveal_strlit("9");
    }
    let s = if d == 0 {
        "0"
    } else if d == 1 {
        "1"
    } else if d == 2 {
        "2"
    } else if d == 3 {
        "3"
    } else if d == 4 {
        "4"
    } else if d == 5 {
        "5"
    } else if d == 6 {
        "6"
    } else if d == 7 {
        "7"
    } else if d == 8 {
        "8"
    } else {
        "9"
    };
    assert(s@ =~= seq![digit_char(d as nat)]);
    s
}

fn push_decimal(text: &mut String, n: usize)
    ensures
        final(text)@ == old(text)@ + decimal_digits(n as nat),
    decreases n,
{
    if n >= 10 {
        push_decimal(text, n / 10);
    }
    text.append(digit_str(n % 10));
    assert(text@ =~= old(text)@ + decimal_digits(n as nat));
}

/// The path of the file that the task with this index writes to.
///
/// The directory is fixed: every file goes under `data`, whatever directory
/// a run was asked to create.
pub fn file_name(index: usize) -> (name: String)
    ensures
        name@ == file_name_of(index as nat),
{
    proof {
        reveal_strlit("data/");
        reveal_strlit(".dat");
        reveal_strlit("0");
        reveal_strlit("00");
        reveal_strlit("000");
        lemma_digit_count(index as nat);
    }
    let mut name = String::from_str("data/");
    if index < 10 {
        name.append("000");
    } else if index < 100 {
        name.append("00");
    } else if index < 1000 {
        name.append("0");
    }
    push_decimal(&mut name, index);
    name.append(".dat");
    assert(name@ =~= file_name_of(index as nat));
    name
}

/// Different indices give different paths, so no two tasks of a run write to
/// the same file.
pub proof fn lemma_file_names_distinct(a: nat, b: nat)
    requires
        a != b,
    ensures
        file_name_of(a) != file_name_of(b),
{
    if file_name_of(a) == file_name_of(b) {
        lemma_zero_padded_injective(a, b);
    }
}

proof fn lemma_zero_padded_injective(a: nat, b: nat)
    requires
        file_name_of(a) == file_name_of(b),
    ensures
        a == b,
{
    let w = INDEX_WIDTH as nat;
    let pa = zero_padded(a, w);
    let pb = zero_padded(b, w);
    let fa = file_name_of(a);
    let fb = file_name_of(b);
    assert(fa.len() == 9 + pa.len());
    assert(fb.len() == 9 + pb.len());
    assert(pa =~= fa.subrange(5, 5 + pa.len() as int));
    assert(pb =~= fb.subrange(5, 5 + pb.len() as int));
    assert(pa == pb);
    lemma_digit_count(a);
    lemma_digit_count(b);
    lemma_padded_value(a);
    lemma_padded_value(b);
}

/// The number that a numeral stands for, leading zeros allowed.
spec fn numeral_value(text: Seq<char>) -> nat
    decreases text.len(),
{
    if text.len() == 0 {
        0
    } else {
        numeral_value(text.drop_last()) * 10 + digit_value(text.last())
    }
}

spec fn digit_value(c: char) -> nat {
    if c == '1' {
        1
    } else if c == '2' {
        2
    } else if c == '3' {
        3
    } else if c == '4' {
        4
    } else if c == '5' {
        5
    } else if c == '6' {
        6
    } else if c == '7' {
        7
    } else if c == '8' {
        8
    } else if c == '9' {
        9
    } else {
        0
    }
}

proof fn lemma_digits_value(n: nat)
    ensures
        numeral_value(decimal_digits(n)) == n,
    decreases n,
{
    let d = decimal_digits(n);
    if n < 10 {
        assert(d.drop_last() =~= Seq::<char>::empty());
        assert(numeral_value(d.drop_last()) == 0);
        assert(d.last() == digit_char(n));
    } else {
        lemma_digits_value(n / 10);
        assert(d.drop_last() =~= decimal_digits(n / 10));
        assert(d.last() == digit_char(n % 10));
    }
}

proof fn lemma_zeros_value(k: nat, rest: Seq<char>)
    ensures
        numeral_value(Seq::new(k, |i: int| '0') + rest) == numeral_value(rest),
    decreases rest.len(), k,
{
    let zeros = Seq::new(k, |i: int| '0');
    let all = zeros + rest;
    if rest.len() > 0 {
        assert(all.drop_last() =~= zeros + rest.drop_last());
        assert(all.last() == rest.last());
        lemma_zeros_value(k, rest.drop_last());
    } else if k > 0 {
        let fewer = Seq::new((k - 1) as nat, |i: int| '0');
        assert(all.drop_last() =~= fewer + rest);
        assert(all.last() == '0');
        lemma_zeros_value((k - 1) as nat, rest);
    } else {
        assert(all =~= rest);
    }
}

proof fn lemma_padded_value(n: nat)
    ensures
        numeral_value(zero_padded(n, INDEX_WIDTH as nat)) == n,
{
    lemma_digits_value(n);
    let d = decimal_digits(n);
    if d.len() < INDEX_WIDTH as nat {
        lemma_zeros_value((INDEX_WIDTH as nat - d.len()) as nat, d);
    }
}

} // verus!
