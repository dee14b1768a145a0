//! Small operations on strings, stated over their characters.

use vstd::prelude::*;
use vstd::std_specs::iter::IteratorSpec;
use vstd::utf8::*;
use vstd::string::*;

verus! {

/// Whether `prefix` is an initial part of `s`.
pub open spec fn spec_has_prefix(s: Seq<char>, prefix: Seq<char>) -> bool {
    prefix.len() <= s.len() && s.subrange(0, prefix.len() as int) == prefix
}

/// The characters of `s`, in order.
pub fn chars_of(s: &str) -> (v: Vec<char>)
    ensures
        v@ == s@,
{
    let mut v: Vec<char> = Vec::new();
    for c in it: s.chars()
        invariant
            it.seq() == s@,
            v@ == it.seq().take(it.index() as int),
    {
        v.push(c);
    }
    v
}

/// Whether two strings hold the same characters.
pub fn str_equal(a: &str, b: &str) -> (r: bool)
    ensures
        r == (a@ == b@),
{
    let x = a.as_bytes();
    let y = b.as_bytes();
    proof {
        encode_utf8_decode_utf8(a@);
        encode_utf8_decode_utf8(b@);
    }
    if x.len() != y.len() {
        return false;
    }
    let mut i: usize = 0;
    while i < x.len()
        invariant
            i <= x.len(),
            x.len() == y.len(),
            x@ == a.spec_bytes(),
            y@ == b.spec_bytes(),
            forall|j: int| 0 <= j < i ==> x@[j] == y@[j],
        decreases x.len() - i,
    {
        if x[i] != y[i] {
            return false;
        }
        i += 1;
    }
    assert(x@ =~= y@);
    true
}

/// Whether `s` begins with `prefix`.  The characters of `s` are read only
/// as far as `prefix` reaches.
pub fn has_prefix(s: &str, prefix: &str) -> (r: bool)
    ensures
        r == spec_has_prefix(s@, prefix@),
{
    let mut text = s.chars();
    let mut head = prefix.chars();
    let ghost mut k: int = 0;
    proof {
        assert(s@.skip(0) =~= s@);
        assert(prefix@.skip(0) =~= prefix@);
    }
    loop
        invariant
            0 <= k <= s@.len(),
            k <= prefix@.len(),
            text.remaining() == s@.skip(k),
            head.remaining() == prefix@.skip(k),
            text.obeys_prophetic_iter_laws(),
            head.obeys_prophetic_iter_laws(),
            forall|j: int| 0 <= j < k ==> s@[j] == prefix@[j],
        decreases prefix@.len() - k,
    {
        let wanted = match head.next() {
            Some(c) => c,
            None => {
                assert(s@.subrange(0, prefix@.len() as int) =~= prefix@);
                return true;
            },
        };
        match text.next() {
            Some(c) => {
                if c != wanted {
                    proof {
                        if prefix@.len() <= s@.len() {
                            assert(s@.subrange(0, prefix@.len() as int)[k] != prefix@[k]);
                        }
                    }
                    return false;
                }
            },
            None => {
                return false;
            },
        }
        proof {
            assert(s@.skip(k).drop_first() =~= s@.skip(k + 1));
            assert(prefix@.skip(k).drop_first() =~= prefix@.skip(k + 1));
            k = k + 1;
        }
    }
}

/// The character that writes a digit.
pub open spec fn spec_digit(d: int) -> char {
    if d == 0 {
        '0'
    } else if d == 1 {
        '1'
    } else if d == 2 {
        '2'
    } else if d == 3 {
        '3'
    } else if d == 4 {
        '4'
    } else if d == 5 {
        '5'
    } else if d == 6 {
        '6'
    } else if d == 7 {
        '7'
    } else if d == 8 {
        '8'
    } else {
        '9'
    }
}

/// The decimal digits of a natural number, the most significant first,
/// without leading zeros.
pub open spec fn spec_digits(n: nat) -> Seq<char>
    decreases n,
{
    if n < 10 {
        seq![spec_digit(n as int)]
    } else {
        spec_digits(n / 10).push(spec_digit((n % 10) as int))
    }
}

/// An integer written in decimal, with `-` before a negative one.
pub open spec fn spec_decimal(n: int) -> Seq<char> {
    if n < 0 {
        seq!['-'] + spec_digits((-n) as nat)
    } else {
        spec_digits(n as nat)
    }
}

fn digit_text(d: u8) -> (text: &'static str)
    requires
        d < 10,
    ensures
        text@ == seq![spec_digit(d as int)],
{
    proof {
        reveal_strlit("0");
        reveal_strlit("1");
        reveal_strlit("2");
        reveal_strlit("3");
        reveal_strlit("4");
        reveal_strlit("5");
        reveal_strlit("6");
        reveal_strlit("7");
        reveal_strlit("8");
        reveal_strlit("9");
    }
    let text = match d {
        0 => "0",
        1 => "1",
        2 => "2",
        3 => "3",
        4 => "4",
        5 => "5",
        6 => "6",
        7 => "7",
        8 => "8",
        _ => "9",
    };
    assert(text@ =~= seq![spec_digit(d as int)]);
    text
}

/// Writes an integer in decimal.
pub fn decimal(n: i64) -> (text: String)
    ensures
        text@ == spec_decimal(n as int),
{
    let magnitude: u64 = if n < 0 {
        ((-(n + 1)) as u64) + 1
    } else {
        n as u64
    };
    let mut digits: Vec<u8> = Vec::new();
    digits.push((magnitude % 10) as u8);
    let mut rest: u64 = magnitude / 10;
    let ghost mut tail: Seq<char> = seq![spec_digit((magnitude % 10) as int)];
    while rest > 0
        invariant
            tail.len() == digits.len(),
            digits.len() > 0,
            forall|k: int| 0 <= k < digits.len() ==> digits@[k] < 10,
            forall|k: int|
                0 <= k < tail.len() ==> tail[k] == spec_digit(digits@[digits.len() - 1 - k] as int),
            spec_digits(magnitude as nat) == if rest > 0 {
                spec_digits(rest as nat) + tail
            } else {
                tail
            },
        decreases rest,
    {
        proof {
            let d = spec_digit((rest % 10) as int);
            if rest / 10 > 0 {
                assert(spec_digits((rest / 10) as nat).push(d) + tail =~= spec_digits(
                    (rest / 10) as nat,
                ) + (seq![d] + tail));
            } else {
                assert(seq![d] + tail =~= spec_digits(rest as nat) + tail);
            }
            tail = seq![d] + tail;
        }
        digits.push((rest % 10) as u8);
        rest = rest / 10;
    }
    let mut text = String::new();
    if n < 0 {
        proof {
            reveal_strlit("-");
        }
        text.append("-");
    }
    let ghost sign = text@;
    assert(sign =~= if n < 0 {
        seq!['-']
    } else {
        Seq::<char>::empty()
    });
    let mut i: usize = digits.len();
    while i > 0
        invariant
            i <= digits.len(),
            tail.len() == digits.len(),
            forall|k: int| 0 <= k < digits.len() ==> digits@[k] < 10,
            forall|k: int|
                0 <= k < tail.len() ==> tail[k] == spec_digit(digits@[digits.len() - 1 - k] as int),
            text@ == sign + tail.subrange(0, digits.len() - i),
        decreases i,
    {
        i -= 1;
        text.append(digit_text(digits[i]));
        assert(text@ =~= sign + tail.subrange(0, digits.len() - i));
    }
    assert(tail.subrange(0, digits.len() as int) =~= tail);
    text
}

} // verus!
