//! Unsigned integers in decimal notation.
use vstd::prelude::*;
use vstd::string::*;

verus! {

/// The decimal digits of `n`, most significant first, each as its value.
/// Zero has the one digit zero; no other number starts with a zero.
pub open spec fn digits(n: nat) -> Seq<u8>
    decreases n,
{
    if n < 10 {
        seq![n as u8]
    } else {
        digits(n / 10).push((n % 10) as u8)
    }
}

/// The ASCII code of a digit.
pub open spec fn digit_byte(d: u8) -> u8 {
    (48 + d) as u8
}

/// The character of a digit.
pub open spec fn digit_char(d: u8) -> char {
    if d == 0 {
        '0'
    } else if d == 1 {
        '1'
    } else if d == 2 {
        '2'
    } else if d == 3 {
        '3'
    } else if d == 4 {
        '4'
    } else if d == 5 {
        '5'
    } else if d == 6 {
        '6'
    } else if d == 7 {
        '7'
    } else if d == 8 {
        '8'
    } else {
        '9'
    }
}

/// `n` in decimal notation, as ASCII bytes.
pub open spec fn decimal_bytes(n: nat) -> Seq<u8> {
    digits(n).map_values(|d: u8| digit_byte(d))
}

/// `n` in decimal notation, as characters.
pub open spec fn decimal_chars(n: nat) -> Seq<char> {
    digits(n).map_values(|d: u8| digit_char(d))
}

/// Every digit is below ten, and there is at least one.
pub proof fn lemma_digits_range(n: nat)
    ensures
        digits(n).len() >= 1,
        forall|i: int| 0 <= i < digits(n).len() ==> #[trigger] digits(n)[i] < 10,
    decreases n,
{
    if n >= 10 {
        lemma_digits_range(n / 10);
    }
}

/// The digits of `n`, most significant first.
pub fn digits_of(n: u64) -> (out: Vec<u8>)
    ensures
        out@ == digits(n as nat),
{
    let mut low_first: Vec<u8> = Vec::new();
    let mut rest: u64 = n;
    while rest >= 10
        invariant
            digits(n as nat) == digits(rest as nat) + low_first@.reverse(),
        decreases rest,
    {
        let ghost before = low_first@;
        let ghost whole = rest;
        let d: u8 = (rest % 10) as u8;
        low_first.push(d);
        rest = rest / 10;
        assert(low_first@.reverse() =~= seq![d] + before.reverse());
        assert(digits(whole as nat) =~= digits(rest as nat) + seq![d]);
        assert(digits(n as nat) =~= digits(rest as nat) + low_first@.reverse());
    }
    let mut out: Vec<u8> = Vec::new();
    out.push(rest as u8);
    let mut i: usize = low_first.len();
    while i > 0
        invariant
            i <= low_first.len(),
            rest < 10,
            out@ == seq![rest as u8] + low_first@.reverse().subrange(0, low_first.len() - i),
        decreases i,
    {
        i = i - 1;
        out.push(low_first[i]);
        assert(out@ =~= seq![rest as u8] + low_first@.reverse().subrange(
            0,
            low_first.len() - i,
        ));
    }
    assert(low_first@.reverse().subrange(0, low_first.len() as int) =~= low_first@.reverse());
    out
}

/// `n` in decimal notation, as ASCII bytes.
pub fn decimal_bytes_of(n: u64) -> (out: Vec<u8>)
    ensures
        out@ == decimal_bytes(n as nat),
{
    let ds = digits_of(n);
    proof {
        lemma_digits_range(n as nat);
    }
    let mut out: Vec<u8> = Vec::new();
    let mut i: usize = 0;
    while i < ds.len()
        invariant
            i <= ds.len(),
            ds@ == digits(n as nat),
            forall|k: int| 0 <= k < ds.len() ==> #[trigger] ds@[k] < 10,
            out@ == ds@.subrange(0, i as int).map_values(|d: u8| digit_byte(d)),
        decreases ds.len() - i,
    {
        out.push(48 + ds[i]);
        i = i + 1;
        assert(out@ =~= ds@.subrange(0, i as int).map_values(|d: u8| digit_byte(d)));
    }
    assert(ds@.subrange(0, ds.len() as int) =~= ds@);
    out
}

/// The text of one digit.
fn digit_text(d: u8) -> (s: &'static str)
    requires
        d < 10,
    ensures
        s@ == seq![digit_char(d)],
{
    proof {
        reveal_strlit("0");
        reveal_strlit("1");
        reveal_strlit("2");
        reveal_strlit("3");
        reveal_strlit("4");
        reveal_strlit("5");
        reveal_strlit("6");
        reveal_strlit("7");
        reveal_strlit("8");
        reveal_strlit("9");
    }
    let s = if d == 0 {
        "0"
    } else if d == 1 {
        "1"
    } else if d == 2 {
        "2"
    } else if d == 3 {
        "3"
    } else if d == 4 {
        "4"
    } else if d == 5 {
        "5"
    } else if d == 6 {
        "6"
    } else if d == 7 {
        "7"
    } else if d == 8 {
        "8"
    } else {
        "9"
    };
    assert(s@ =~= seq![digit_char(d)]);
    s
}

/// Appends `n` in decimal notation to `text`.
pub fn append_decimal(text: String, n: u64) -> (out: String)
    ensures
        out@ == text@ + decimal_chars(n as nat),
{
    let ds = digits_of(n);
    proof {
        lemma_digits_range(n as nat);
    }
    let ghost start = text@;
    let mut out = text;
    let mut i: usize = 0;
    while i < ds.len()
        invariant
            i <= ds.len(),
            ds@ == digits(n as nat),
            forall|k: int| 0 <= k < ds.len() ==> #[trigger] ds@[k] < 10,
            out@ == start + ds@.subrange(0, i as int).map_values(|d: u8| digit_char(d)),
        decreases ds.len() - i,
    {
        out = out.concat(digit_text(ds[i]));
        i = i + 1;
        assert(out@ =~= start + ds@.subrange(0, i as int).map_values(|d: u8| digit_char(d)));
    }
    assert(ds@.subrange(0, ds.len() as int) =~= ds@);
    out
}

} // verus!
