//! Generation of the sequence `1, 2, ..., limit` and the lines that print it.

use vstd::prelude::*;

verus! {

/// The character of a decimal digit `d < 10`.
pub open spec fn digit_char(d: nat) -> char {
    ((48 + d) as u32) as char
}

/// The decimal notation of `n`, most significant digit first, without
/// leading zeros (zero is written `0`).
pub open spec fn decimal(n: nat) -> Seq<char>
    decreases n,
{
    if n < 10 {
        seq![digit_char(n)]
    } else {
        decimal(n / 10).push(digit_char(n % 10))
    }
}

/// Returns the sequence `1, 2, ..., limit`; it is empty when `limit` is 0.
pub fn generate_sequence(limit: u8) -> (numbers: Vec<u8>)
    ensures
        numbers@.len() == limit,
        forall|i: int| 0 <= i < numbers@.len() ==> numbers@[i] == i + 1,
{
    let mut numbers: Vec<u8> = Vec::new();
    let mut n: u8 = 0;
    while n < limit
        invariant
            n <= limit,
            numbers@.len() == n,
            forall|i: int| 0 <= i < numbers@.len() ==> numbers@[i] == i + 1,
        decreases limit - n,
    {
        n = n + 1;
        numbers.push(n);
    }
    numbers
}

/// The one-character text of the decimal digit `d`.
fn digit_text(d: u8) -> (text: &'static str)
    requires
        d < 10,
    ensures
        text@ == seq![digit_char(d as nat)],
{
    match d {
        0 => {
            proof { reveal_strlit("0"); }
            "0"
        },
        1 => {
            proof { reveal_strlit("1"); }
            "1"
        },
        2 => {
            proof { reveal_strlit("2"); }
            "2"
        },
        3 => {
            proof { reveal_strlit("3"); }
            "3"
        },
        4 => {
            proof { reveal_strlit("4"); }
            "4"
        },
        5 => {
            proof { reveal_strlit("5"); }
            "5"
        },
        6 => {
            proof { reveal_strlit("6"); }
            "6"
        },
        7 => {
            proof { reveal_strlit("7"); }
            "7"
        },
        8 => {
            proof { reveal_strlit("8"); }
            "8"
        },
        _ => {
            proof { reveal_strlit("9"); }
            "9"
        },
    }
}

/// Returns the decimal notation of `n`.
pub fn decimal_text(n: u8) -> (text: String)
    ensures
        text@ == decimal(n as nat),
{
    let mut text = String::new();
    if n >= 100 {
        text.append(digit_text(n / 100));
        text.append(digit_text(n / 10 % 10));
    } else if n >= 10 {
        text.append(digit_text(n / 10));
    }
    text.append(digit_text(n % 10));
    proof {
        let m = n as nat;
        if m >= 100 {
            assert(m / 10 / 10 == m / 100);
            assert(decimal(m / 100) == seq![digit_char(m / 100)]);
            assert(decimal(m / 10) == decimal(m / 100).push(digit_char(m / 10 % 10)));
            assert(decimal(m) == decimal(m / 10).push(digit_char(m % 10)));
        } else if m >= 10 {
            assert(decimal(m / 10) == seq![digit_char(m / 10)]);
            assert(decimal(m) == decimal(m / 10).push(digit_char(m % 10)));
        }
        assert(text@ =~= decimal(m));
    }
    text
}

/// Returns the lines that printing `numbers` writes: one per element, in
/// order, each the element's decimal notation (without the line break).
pub fn output_sequence(numbers: &[u8]) -> (lines: Vec<String>)
    ensures
        lines@.len() == numbers@.len(),
        forall|i: int| 0 <= i < lines@.len() ==> lines@[i]@ == decimal(numbers@[i] as nat),
{
    let mut lines: Vec<String> = Vec::new();
    let mut k: usize = 0;
    while k < numbers.len()
        invariant
            k <= numbers@.len(),
            lines@.len() == k,
            forall|i: int| 0 <= i < k ==> lines@[i]@ == decimal(numbers@[i] as nat),
        decreases numbers@.len() - k,
    {
        lines.push(decimal_text(numbers[k]));
        k = k + 1;
    }
    lines
}

/// Returns the lines that printing the sequence `1, 2, ..., limit` writes:
/// the `i`-th line is the decimal notation of `i + 1`, and there are exactly
/// `limit` of them.
pub fn print(limit: u8) -> (lines: Vec<String>)
    ensures
        lines@.len() == limit,
        forall|i: int| 0 <= i < lines@.len() ==> lines@[i]@ == decimal((i + 1) as nat),
{
    let numbers = generate_sequence(limit);
    output_sequence(numbers.as_slice())
}

} // verus!
