//! The `MM:SS` face of a timer: whole minutes and seconds, each written in
//! decimal and padded with a zero to at least two digits.
use vstd::prelude::*;

verus! {

/// The decimal digit that stands for `d`, for `d < 10`.
pub open spec fn digit_char(d: nat) -> char {
    if d == 0 {
        '0'
    } else if d == 1 {
        '1'
    } else if d == 2 {
        '2'
    } else if d == 3 {
        '3'
    } else if d == 4 {
        '4'
    } else if d == 5 {
        '5'
    } else if d == 6 {
        '6'
    } else if d == 7 {
        '7'
    } else if d == 8 {
        '8'
    } else {
        '9'
    }
}

/// The value of a decimal digit (zero for any other character).
pub open spec fn digit_value(c: char) -> nat {
    if c == '1' {
        1
    } else if c == '2' {
        2
    } else if c == '3' {
        3
    } else if c == '4' {
        4
    } else if c == '5' {
        5
    } else if c == '6' {
        6
    } else if c == '7' {
        7
    } else if c == '8' {
        8
    } else if c == '9' {
        9
    } else {
        0
    }
}

/// `n` written in decimal, without leading zeros.
pub open spec fn decimal(n: nat) -> Seq<char>
    decreases n,
{
    if n < 10 {
        seq![digit_char(n)]
    } else {
        decimal(n / 10).push(digit_char(n % 10))
    }
}

/// `n` written in decimal and padded with zeros to at least two digits.
pub open spec fn padded(n: nat) -> Seq<char> {
    if n < 10 {
        seq!['0'].add(decimal(n))
    } else {
        decimal(n)
    }
}

/// The face of a timer with `total` seconds left: minutes, a colon, seconds.
pub open spec fn clock_face(total: nat) -> Seq<char> {
    padded(total / 60).add(seq![':']).add(padded(total % 60))
}

/// The number that a string of decimal digits stands for.
pub open spec fn digits_value(s: Seq<char>) -> nat
    decreases s.len(),
{
    if s.len() == 0 {
        0
    } else {
        digits_value(s.drop_last()) * 10 + digit_value(s.last())
    }
}

/// Reads a face back: the digits before the last three characters are the
/// minutes, the last two the seconds.
pub open spec fn read_face(face: Seq<char>) -> (nat, nat) {
    let k = face.len() - 3;
    (digits_value(face.take(k)), digits_value(face.skip(k + 1)))
}

/// A digit read back gives the number it stands for.
pub proof fn lemma_digit_value(d: nat)
    requires
        d < 10,
    ensures
        digit_value(digit_char(d)) == d,
{
}

/// Decimal digits read back give the number they were written from.
pub proof fn lemma_decimal_value(n: nat)
    ensures
        digits_value(decimal(n)) == n,
        decimal(n).len() >= 1,
        n >= 10 ==> decimal(n).len() >= 2,
        n < 100 ==> decimal(n).len() <= 2,
    decreases n,
{
    if n >= 10 {
        lemma_decimal_value(n / 10);
        lemma_digit_value(n % 10);
        let d = decimal(n);
        assert(d.drop_last() =~= decimal(n / 10));
        assert(d.last() == digit_char(n % 10));
        assert(digits_value(d) == digits_value(d.drop_last()) * 10 + digit_value(d.last()));
        assert(n == (n / 10) * 10 + n % 10);
    } else {
        lemma_digit_value(n);
        reveal_with_fuel(digits_value, 2);
        assert(decimal(n).drop_last() =~= Seq::<char>::empty());
    }
}

/// A padded number read back gives the number; below a hundred it takes two
/// characters.
pub proof fn lemma_padded_value(n: nat)
    ensures
        digits_value(padded(n)) == n,
        n < 100 ==> padded(n).len() == 2,
{
    lemma_decimal_value(n);
    if n < 10 {
        lemma_digit_value(n);
        assert(padded(n).drop_last() =~= seq!['0']);
        assert(seq!['0'].drop_last() =~= Seq::<char>::empty());
        reveal_with_fuel(digits_value, 2);
        assert(seq!['0'].last() == '0');
        assert(digits_value(seq!['0']) == 0);
        assert(padded(n).last() == digit_char(n));
    }
}

/// A face read back gives the minutes and seconds it was written from.
pub proof fn lemma_face_round_trip(minutes: nat, seconds: nat)
    requires
        seconds < 60,
    ensures
        read_face(clock_face(minutes * 60 + seconds)) == (minutes, seconds),
{
    let total = minutes * 60 + seconds;
    assert(total / 60 == minutes && total % 60 == seconds) by (nonlinear_arith)
        requires
            total == minutes * 60 + seconds,
            seconds < 60,
    ;
    lemma_padded_value(minutes);
    lemma_padded_value(seconds);
    let face = clock_face(total);
    let k = padded(minutes).len() as int;
    assert(face.len() - 3 == k);
    assert(face.take(k) =~= padded(minutes));
    assert(face.skip(k + 1) =~= padded(seconds));
}

/// Whole minutes and the seconds left over in `total_seconds` seconds.
pub fn get_min_sec_from_duration(total_seconds: u64) -> (r: (u64, u64))
    ensures
        r.0 == total_seconds / 60,
        r.1 == total_seconds % 60,
{
    let minutes = total_seconds / 60;
    let seconds = total_seconds % 60;
    (minutes, seconds)
}

/// The one-character string of the digit `d`.
fn digit_str(d: u64) -> (r: &'static str)
    requires
        d < 10,
    ensures
        r@ == seq![digit_char(d as nat)],
{
    proof {
        reveal_strlit("0");
        reveal_strlit("1");
        reveal_strlit("2");
        reveal_strlit("3");
        reveal_strlit("4");
        reveal_strlit("5");
        reveal_strlit("6");
        reveal_strlit("7");
        reveal_strlit("8");
        reveal_strlit("9");
    }
    match d {
        0 => "0",
        1 => "1",
        2 => "2",
        3 => "3",
        4 => "4",
        5 => "5",
        6 => "6",
        7 => "7",
        8 => "8",
        _ => "9",
    }
}

/// Appends `n` in decimal to `s`.
fn push_decimal(s: &mut String, n: u64)
    ensures
        final(s)@ == old(s)@ + decimal(n as nat),
    decreases n,
{
    if n >= 10 {
        push_decimal(s, n / 10);
    }
    s.append(digit_str(n % 10));
    assert(final(s)@ =~= old(s)@ + decimal(n as nat));
}

/// Appends `n` in decimal, padded with zeros to two digits, to `s`.
fn push_padded(s: &mut String, n: u64)
    ensures
        final(s)@ == old(s)@ + padded(n as nat),
{
    if n < 10 {
        s.append(digit_str(0));
    }
    push_decimal(s, n);
    assert(final(s)@ =~= old(s)@ + padded(n as nat));
}

/// The `MM:SS` face of `total_seconds` seconds.
pub fn format_min_sec(total_seconds: u64) -> (r: String)
    ensures
        r@ == clock_face(total_seconds as nat),
{
    let (minutes, seconds) = get_min_sec_from_duration(total_seconds);
    let mut s = String::new();
    push_padded(&mut s, minutes);
    proof {
        reveal_strlit(":");
    }
    s.append(":");
    push_padded(&mut s, seconds);
    assert(s@ =~= clock_face(total_seconds as nat));
    s
}

} // verus!
