//! Functions over string slices and owned strings.
use vstd::prelude::*;
use vstd::string::{StrSliceExecFns, StringExecFns, StringSliceAdditionalSpecFns};
use vstd::utf8::{encode_utf8, encode_utf8_valid_utf8, is_char_boundary_iff_not_is_continuation_byte};

verus! {

/// The longer of two slices by byte length; `y` when they are equally long.
pub fn longest<'a>(x: &'a str, y: &'a str) -> (r: &'a str)
    ensures
        r@ == (if x.len() > y.len() {
            x@
        } else {
            y@
        }),
{
    if x.len() > y.len() {
        x
    } else {
        y
    }
}

/// `s` up to, not including, its first space; all of `s` if it has none.
pub fn first_word(s: &str) -> (r: &str)
    ensures
        r.spec_bytes().len() <= s.spec_bytes().len(),
        r.spec_bytes() == s.spec_bytes().subrange(0, r.spec_bytes().len() as int),
        forall|j: int| 0 <= j < r.spec_bytes().len() ==> s.spec_bytes()[j] != 0x20u8,
        r.spec_bytes().len() < s.spec_bytes().len() ==> s.spec_bytes()[r.spec_bytes().len() as int]
            == 0x20u8,
{
    let bytes = s.as_bytes();
    let mut i: usize = 0;
    while i < bytes.len()
        invariant
            bytes@ == s.spec_bytes(),
            0 <= i <= bytes@.len(),
            forall|j: int| 0 <= j < i ==> bytes@[j] != 0x20u8,
        decreases bytes@.len() - i,
    {
        if bytes[i] == 0x20u8 {
            proof {
                encode_utf8_valid_utf8(s@);
                is_char_boundary_iff_not_is_continuation_byte(s.spec_bytes(), i as int);
            }
            let (head, _rest) = s.split_at(i);
            return head;
        }
        i = i + 1;
    }
    proof {
        assert(s.spec_bytes() == s.spec_bytes().subrange(0, s.spec_bytes().len() as int));
    }
    s
}

/// The number of bytes in `s`.
pub fn calculate_length(s: &String) -> (n: usize)
    ensures
        n == encode_utf8(s@).len() as usize,
{
    s.as_str().len()
}

/// Appends `, world` to `s`.
pub fn append_world(s: &mut String)
    ensures
        final(s)@ == old(s)@ + ", world"@,
{
    s.append(", world");
}

/// The first character of `hello`, and its character at position 1000,
/// which it does not have.
pub fn char_from_string() -> (r: (char, Option<char>))
    ensures
        r == ('h', None::<char>),
{
    let greeting = "hello";
    proof {
        reveal_strlit("hello");
    }
    let first = greeting.get_char(0);
    let far = if 1000 < greeting.unicode_len() {
        Some(greeting.get_char(1000))
    } else {
        None
    };
    (first, far)
}

/// The decimal digit for `d`, for `d` in `0..=9`.
pub open spec fn digit_char(d: int) -> char {
    "0123456789"@[d]
}

/// What `match_example` says of a value.
pub open spec fn describe(val: Option<i32>) -> Seq<char> {
    match val {
        Some(x) => if 0 <= x <= 9 {
            "Digit: "@.push(digit_char(x as int))
        } else if x < 0 {
            "Negative"@
        } else {
            "Large number"@
        },
        None => "Nothing"@,
    }
}

/// Names the kind of value: a single digit (and which), a negative
/// number, a larger number, or nothing.
pub fn match_example(val: &Option<i32>) -> (r: String)
    ensures
        r@ == describe(*val),
{
    match val {
        Some(x) => {
            if 0 <= *x && *x <= 9 {
                let digits = "0123456789";
                proof {
                    reveal_strlit("0123456789");
                }
                let d = *x as usize;
                let mut s = String::from_str("Digit: ");
                s.append(digits.substring_char(d, d + 1));
                proof {
                    assert(digits@.subrange(d as int, d + 1) =~= seq![digit_char(d as int)]);
                }
                s
            } else if *x < 0 {
                String::from_str("Negative")
            } else {
                String::from_str("Large number")
            }
        },
        None => String::from_str("Nothing"),
    }
}

} // verus!
