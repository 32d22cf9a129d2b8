//! Canonical decimal notation for small integers.
//!
//! The preferences document and the service endpoint URLs both carry a TCP
//! port written in decimal. This module gives the canonical digit string of
//! a number as a mathematical definition, an executable printer that meets
//! it exactly, and an executable reader whose contract pins down both what
//! it accepts and what it rejects.

use vstd::prelude::*;

verus! {

/// The ten decimal digit characters.
pub open spec fn is_digit_char(c: char) -> bool {
    c == '0' || c == '1' || c == '2' || c == '3' || c == '4' || c == '5' || c == '6' || c == '7'
        || c == '8' || c == '9'
}

/// The digit character of a value below ten.
pub open spec fn digit_char(d: nat) -> char
    recommends
        d < 10,
{
    if d == 0 {
        '0'
    } else if d == 1 {
        '1'
    } else if d == 2 {
        '2'
    } else if d == 3 {
        '3'
    } else if d == 4 {
        '4'
    } else if d == 5 {
        '5'
    } else if d == 6 {
        '6'
    } else if d == 7 {
        '7'
    } else if d == 8 {
        '8'
    } else {
        '9'
    }
}

/// The value of a digit character.
pub open spec fn digit_val(c: char) -> nat
    recommends
        is_digit_char(c),
{
    if c == '0' {
        0
    } else if c == '1' {
        1
    } else if c == '2' {
        2
    } else if c == '3' {
        3
    } else if c == '4' {
        4
    } else if c == '5' {
        5
    } else if c == '6' {
        6
    } else if c == '7' {
        7
    } else if c == '8' {
        8
    } else {
        9
    }
}

/// The canonical decimal digit string of `n`: no sign, no leading zero
/// (except for `n == 0`, written as the single digit `0`).
pub open spec fn dec_digits(n: nat) -> Seq<char>
    decreases n,
{
    if n < 10 {
        seq![digit_char(n)]
    } else {
        dec_digits(n / 10) + seq![digit_char(n % 10)]
    }
}

/// The numeric value of a digit string, most significant digit first.
pub open spec fn digits_val(s: Seq<char>) -> nat
    decreases s.len(),
{
    if s.len() == 0 {
        0
    } else {
        digits_val(s.drop_last()) * 10 + digit_val(s.last())
    }
}

/// Every character of `s` is a decimal digit.
pub open spec fn all_digits(s: Seq<char>) -> bool {
    forall|i: int| 0 <= i < s.len() ==> is_digit_char(#[trigger] s[i])
}

/// The canonical digit string of `v` sits in `s` at position `start`,
/// followed by the end of `s` or by a non-digit: the maximal digit run
/// starting at `start` spells exactly `v`.
pub open spec fn digits_run_at(s: Seq<char>, start: int, v: nat) -> bool {
    &&& 0 <= start
    &&& start + dec_digits(v).len() <= s.len()
    &&& s.subrange(start, start + dec_digits(v).len() as int) == dec_digits(v)
    &&& (start + dec_digits(v).len() == s.len() || !is_digit_char(
        s[start + dec_digits(v).len() as int],
    ))
}

/// The canonical digit string of any number is non-empty, consists of
/// digits, begins with a non-zero digit for a non-zero number, and reads
/// back to that number.
pub proof fn lemma_dec_digits_basic(n: nat)
    ensures
        dec_digits(n).len() >= 1,
        all_digits(dec_digits(n)),
        n >= 1 ==> dec_digits(n)[0] != '0',
        digits_val(dec_digits(n)) == n,
    decreases n,
{
    if n < 10 {
        assert(dec_digits(n) == seq![digit_char(n)]);
        lemma_digits_val_singleton(digit_char(n));
    } else {
        lemma_dec_digits_basic(n / 10);
        let d = dec_digits(n / 10) + seq![digit_char(n % 10)];
        assert(d.drop_last() == dec_digits(n / 10));
        assert(d.last() == digit_char(n % 10));
        assert(digits_val(d) == (n / 10) * 10 + n % 10);
        assert((n / 10) * 10 + n % 10 == n) by (nonlinear_arith);
        assert(d[0] == dec_digits(n / 10)[0]);
    }
}

/// The value of a one-character digit string is the value of its digit.
pub proof fn lemma_digits_val_singleton(c: char)
    ensures
        digits_val(seq![c]) == digit_val(c),
{
    let s = seq![c];
    assert(s.drop_last() =~= Seq::<char>::empty());
    assert(digits_val(Seq::<char>::empty()) == 0);
    assert(s.last() == c);
}

/// Every character under the canonical run of `v` at `start` is a digit.
proof fn lemma_run_all_digits(s: Seq<char>, start: int, v: nat)
    requires
        0 <= start,
        start + dec_digits(v).len() <= s.len(),
        s.subrange(start, start + dec_digits(v).len() as int) == dec_digits(v),
    ensures
        forall|j: int| start <= j < start + dec_digits(v).len() ==> is_digit_char(#[trigger] s[j]),
{
    lemma_dec_digits_basic(v);
    assert forall|j: int| start <= j < start + dec_digits(v).len() implies is_digit_char(s[j]) by {
        assert(s[j] == s.subrange(start, start + dec_digits(v).len() as int)[j - start]);
    }
}

/// A non-empty digit string without a leading zero is the canonical
/// notation of its own value.
pub proof fn lemma_canonical_digits(s: Seq<char>)
    requires
        s.len() >= 1,
        all_digits(s),
        s.len() == 1 || s[0] != '0',
    ensures
        s == dec_digits(digits_val(s)),
    decreases s.len(),
{
    let v = digits_val(s);
    if s.len() == 1 {
        assert(s =~= seq![s[0]]);
        lemma_digits_val_singleton(s[0]);
        assert(dec_digits(v) == seq![digit_char(v)]);
        assert(digit_char(digit_val(s[0])) == s[0]);
        assert(s =~= seq![s[0]]);
    } else {
        let p = s.drop_last();
        assert(all_digits(p));
        assert(p[0] == s[0]);
        lemma_canonical_digits(p);
        let vp = digits_val(p);
        lemma_leading_digit_value(p);
        assert(vp >= 1);
        assert(v == vp * 10 + digit_val(s.last()));
        assert(v >= 10 && v / 10 == vp && v % 10 == digit_val(s.last())) by (nonlinear_arith)
            requires
                vp >= 1,
                digit_val(s.last()) < 10,
                v == vp * 10 + digit_val(s.last()),
        ;
        assert(dec_digits(v) == dec_digits(vp) + seq![digit_char(v % 10)]);
        assert(digit_char(digit_val(s.last())) == s.last());
        assert(s =~= p + seq![s.last()]);
    }
}

/// A non-empty digit string with a non-zero first digit has a non-zero
/// value.
pub proof fn lemma_leading_digit_value(s: Seq<char>)
    requires
        s.len() >= 1,
        all_digits(s),
        s[0] != '0',
    ensures
        digits_val(s) >= 1,
    decreases s.len(),
{
    if s.len() == 1 {
        assert(s =~= seq![s[0]]);
        lemma_digits_val_singleton(s[0]);
    } else {
        let p = s.drop_last();
        assert(p[0] == s[0]);
        lemma_leading_digit_value(p);
        assert(digits_val(s) == digits_val(p) * 10 + digit_val(s.last()));
        assert(digits_val(p) * 10 >= 10) by (nonlinear_arith)
            requires
                digits_val(p) >= 1,
        ;
    }
}

/// Dropping characters from the right never increases the value of a
/// digit string.
pub proof fn lemma_digits_val_prefix_le(s: Seq<char>, i: int)
    requires
        0 <= i <= s.len(),
    ensures
        digits_val(s.take(i)) <= digits_val(s),
    decreases s.len() - i,
{
    if i == s.len() {
        assert(s.take(i) =~= s);
    } else {
        lemma_digits_val_prefix_le(s, i + 1);
        let t = s.take(i + 1);
        assert(t.drop_last() =~= s.take(i));
        assert(digits_val(t) == digits_val(s.take(i)) * 10 + digit_val(t.last()));
        assert(digits_val(s.take(i)) <= digits_val(s.take(i)) * 10) by (nonlinear_arith);
    }
}

/// Two maximal digit runs that begin at the same position of the same
/// string cover the same characters.
pub proof fn lemma_maximal_run_unique(s: Seq<char>, start: int, e1: int, e2: int)
    requires
        0 <= start <= e1 <= s.len(),
        start <= e2 <= s.len(),
        forall|i: int| start <= i < e1 ==> is_digit_char(#[trigger] s[i]),
        forall|i: int| start <= i < e2 ==> is_digit_char(#[trigger] s[i]),
        e1 == s.len() || !is_digit_char(s[e1]),
        e2 == s.len() || !is_digit_char(s[e2]),
    ensures
        e1 == e2,
{
    if e1 < e2 {
        assert(is_digit_char(s[e1]));
    }
    if e2 < e1 {
        assert(is_digit_char(s[e2]));
    }
}

/// Only one number has its canonical run at a given position.
pub proof fn lemma_digits_run_at_unique(s: Seq<char>, start: int, v1: nat, v2: nat)
    requires
        digits_run_at(s, start, v1),
        digits_run_at(s, start, v2),
    ensures
        v1 == v2,
{
    lemma_dec_digits_basic(v1);
    lemma_dec_digits_basic(v2);
    lemma_run_all_digits(s, start, v1);
    lemma_run_all_digits(s, start, v2);
    let l1 = dec_digits(v1).len() as int;
    let l2 = dec_digits(v2).len() as int;
    lemma_maximal_run_unique(s, start, start + l1, start + l2);
    assert(dec_digits(v1) == s.subrange(start, start + l1));
    assert(dec_digits(v2) == s.subrange(start, start + l2));
}

/// The digit character of a value below ten, executable form.
fn digit_str(d: u16) -> (r: &'static str)
    requires
        d < 10,
    ensures
        r@ == seq![digit_char(d as nat)],
{
    proof {
        reveal_strlit("0");
        reveal_strlit("1");
        reveal_strlit("2");
        reveal_strlit("3");
        reveal_strlit("4");
        reveal_strlit("5");
        reveal_strlit("6");
        reveal_strlit("7");
        reveal_strlit("8");
        reveal_strlit("9");
    }
    match d {
        0 => "0",
        1 => "1",
        2 => "2",
        3 => "3",
        4 => "4",
        5 => "5",
        6 => "6",
        7 => "7",
        8 => "8",
        _ => "9",
    }
}

/// Prints `n` in canonical decimal notation.
pub fn u16_to_decimal(n: u16) -> (r: String)
    ensures
        r@ == dec_digits(n as nat),
    decreases n,
{
    if n < 10 {
        let s: String = digit_str(n).to_owned();
        s
    } else {
        let mut s = u16_to_decimal(n / 10);
        s.append(digit_str(n % 10));
        s
    }
}

/// Reads a decimal number of at most five digits from `s` at position
/// `start`. Accepts exactly the canonical notations of `0` through
/// `65535`: at least one digit, no leading zero, value in range, and the
/// run of digits ends at a non-digit or at the end of the string.
pub fn parse_u16(s: &str, start: usize) -> (r: Option<(u16, usize)>)
    requires
        start <= s@.len(),
    ensures
        r matches Some(p) ==> digits_run_at(s@, start as int, p.0 as nat) && p.1 == start
            + dec_digits(p.0 as nat).len(),
        forall|v: u16|
            digits_run_at(s@, start as int, v as nat) ==> r == Some(
                (v, (start + dec_digits(v as nat).len()) as usize),
            ),
{
    let n = s.unicode_len();
    let mut i: usize = start;
    let mut acc: u32 = 0;
    while i < n
        invariant
            start <= i <= n == s@.len(),
            acc == digits_val(s@.subrange(start as int, i as int)),
            acc <= 65535,
            forall|j: int| start <= j < i ==> is_digit_char(#[trigger] s@[j]),
        ensures
            start <= i <= n == s@.len(),
            i == n || !is_digit_char(s@[i as int]),
            acc == digits_val(s@.subrange(start as int, i as int)),
            acc <= 65535,
            forall|j: int| start <= j < i ==> is_digit_char(#[trigger] s@[j]),
        decreases n - i,
    {
        let c = s.get_char(i);
        let d: u32 = match digit_char_value(c) {
            Some(d) => d,
            None => { break },
        };
        proof {
            let run = s@.subrange(start as int, i + 1);
            assert(run.drop_last() =~= s@.subrange(start as int, i as int));
            assert(run.last() == s@[i as int]);
        }
        acc = acc * 10 + d;
        i = i + 1;
        if acc > 65535 {
            proof {
                lemma_no_run_when_prefix_large(s@, start as int, i as int, acc as nat);
            }
            return None;
        }
    }
    if i == start {
        proof {
            assert forall|v: u16| !digits_run_at(s@, start as int, v as nat) by {
                lemma_dec_digits_basic(v as nat);
                if digits_run_at(s@, start as int, v as nat) {
                    assert(s@[start as int] == dec_digits(v as nat)[0]);
                }
            }
        }
        return None;
    }
    if i > start + 1 && s.get_char(start) == '0' {
        proof {
            let run = s@.subrange(start as int, i as int);
            assert forall|v: u16| !digits_run_at(s@, start as int, v as nat) by {
                lemma_dec_digits_basic(v as nat);
                if digits_run_at(s@, start as int, v as nat) {
                    let l = dec_digits(v as nat).len() as int;
                    lemma_run_all_digits(s@, start as int, v as nat);
                    lemma_maximal_run_unique(s@, start as int, start + l, i as int);
                    assert(dec_digits(v as nat)[0] == s@.subrange(start as int, start + l)[0]);
                    if v >= 1 {
                        assert(dec_digits(v as nat)[0] != '0');
                    } else {
                        assert(dec_digits(0)[0] == digit_char(0));
                        assert(dec_digits(0).len() == 1);
                    }
                }
            }
        }
        return None;
    }
    proof {
        let run = s@.subrange(start as int, i as int);
        assert(all_digits(run));
        assert(run[0] == s@[start as int]);
        lemma_canonical_digits(run);
        assert forall|v: u16| digits_run_at(s@, start as int, v as nat) implies (acc as nat == v
            as nat && i == start + dec_digits(v as nat).len()) by {
            lemma_dec_digits_basic(v as nat);
            let l = dec_digits(v as nat).len() as int;
            lemma_run_all_digits(s@, start as int, v as nat);
            lemma_maximal_run_unique(s@, start as int, start + l, i as int);
            assert(s@.subrange(start as int, i as int) == dec_digits(v as nat));
        }
        assert(digits_run_at(s@, start as int, acc as nat)) by {
            assert(dec_digits(digits_val(run)) == run);
            assert(s@.subrange(start as int, start as int + run.len() as int) =~= run);
        }
    }
    Some((acc as u16, i))
}

/// Recognizes a digit character and gives its value.
fn digit_char_value(c: char) -> (r: Option<u32>)
    ensures
        r is Some <==> is_digit_char(c),
        r matches Some(d) ==> d == digit_val(c) && d < 10,
{
    match c {
        '0' => Some(0),
        '1' => Some(1),
        '2' => Some(2),
        '3' => Some(3),
        '4' => Some(4),
        '5' => Some(5),
        '6' => Some(6),
        '7' => Some(7),
        '8' => Some(8),
        '9' => Some(9),
        _ => None,
    }
}

/// When an all-digit prefix of the run at `start` already exceeds the
/// largest accepted value, no accepted number has its canonical run
/// there.
proof fn lemma_no_run_when_prefix_large(s: Seq<char>, start: int, i: int, acc: nat)
    requires
        0 <= start < i <= s.len(),
        forall|j: int| start <= j < i ==> is_digit_char(#[trigger] s[j]),
        acc == digits_val(s.subrange(start, i)),
        acc > 65535,
    ensures
        forall|v: u16| !digits_run_at(s, start, v as nat),
{
    assert forall|v: u16| !digits_run_at(s, start, v as nat) by {
        lemma_dec_digits_basic(v as nat);
        if digits_run_at(s, start, v as nat) {
            let d = dec_digits(v as nat);
            let l = d.len() as int;
            if i > start + l {
                assert(is_digit_char(s[start + l]));
            } else {
                let run = s.subrange(start, start + l);
                assert(run == d);
                assert(s.subrange(start, i) =~= run.take(i - start));
                lemma_digits_val_prefix_le(run, i - start);
                assert(digits_val(run) == v as nat);
            }
        }
    }
}

} // verus!
