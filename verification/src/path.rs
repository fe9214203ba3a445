//! Field paths: the dotted, bracket-indexed strings that locate a field
//! inside a possibly nested or repeated request structure.
//!
//! All composite validators build their error locations through this one
//! module, so the formatting (`parent.field`, `base[index]`) is identical
//! everywhere.

use vstd::prelude::*;

verus! {

/// The view of an optional parent path.
pub open spec fn spec_opt_path(parent: Option<&str>) -> Option<Seq<char>> {
    match parent {
        Option::Some(p) => Option::Some(p@),
        Option::None => Option::None,
    }
}

/// The path of a field under an optional parent path: `parent.field`, or
/// `field` alone at the top level.
pub open spec fn spec_field_path(field: Seq<char>, parent: Option<Seq<char>>) -> Seq<char> {
    match parent {
        Option::Some(p) => p + seq!['.'] + field,
        Option::None => field,
    }
}

/// The character for one decimal digit.
pub open spec fn spec_digit_char(d: nat) -> char {
    if d == 0 {
        '0'
    } else if d == 1 {
        '1'
    } else if d == 2 {
        '2'
    } else if d == 3 {
        '3'
    } else if d == 4 {
        '4'
    } else if d == 5 {
        '5'
    } else if d == 6 {
        '6'
    } else if d == 7 {
        '7'
    } else if d == 8 {
        '8'
    } else {
        '9'
    }
}

/// The decimal digits of `n`, most significant first, with no leading zeros.
pub open spec fn spec_decimal(n: nat) -> Seq<char>
    decreases n,
{
    if n < 10 {
        seq![spec_digit_char(n)]
    } else {
        spec_decimal(n / 10) + seq![spec_digit_char(n % 10)]
    }
}

/// The path of one element of a repeated field: `base[index]`.
pub open spec fn spec_indexed_path(base: Seq<char>, index: nat) -> Seq<char> {
    base + seq!['['] + spec_decimal(index) + seq![']']
}

/// Joins a field's own name onto its parent path, if any.
pub fn field_name(field: &str, parent: Option<&str>) -> (r: String)
    ensures
        r@ == spec_field_path(field@, spec_opt_path(parent)),
{
    match parent {
        Option::Some(p) => {
            let mut r = String::from_str(p);
            r.append(".");
            r.append(field);
            proof {
                reveal_strlit(".");
                assert(r@ =~= spec_field_path(field@, spec_opt_path(parent)));
            }
            r
        },
        Option::None => String::from_str(field),
    }
}

/// One decimal digit as a string slice.
fn digit_str(d: usize) -> (r: &'static str)
    requires
        d < 10,
    ensures
        r@ == seq![spec_digit_char(d as nat)],
{
    proof {
        reveal_strlit("0");
        reveal_strlit("1");
        reveal_strlit("2");
        reveal_strlit("3");
        reveal_strlit("4");
        reveal_strlit("5");
        reveal_strlit("6");
        reveal_strlit("7");
        reveal_strlit("8");
        reveal_strlit("9");
    }
    let r: &'static str = if d == 0 {
        "0"
    } else if d == 1 {
        "1"
    } else if d == 2 {
        "2"
    } else if d == 3 {
        "3"
    } else if d == 4 {
        "4"
    } else if d == 5 {
        "5"
    } else if d == 6 {
        "6"
    } else if d == 7 {
        "7"
    } else if d == 8 {
        "8"
    } else {
        "9"
    };
    proof {
        assert(r@ =~= seq![spec_digit_char(d as nat)]);
    }
    r
}

/// Renders an index in decimal.
pub fn index_to_string(n: usize) -> (r: String)
    ensures
        r@ == spec_decimal(n as nat),
    decreases n,
{
    let d: usize = n % 10;
    if n < 10 {
        String::from_str(digit_str(d))
    } else {
        proof {
            vstd::arithmetic::div_mod::lemma_div_decreases(n as int, 10);
        }
        let mut r = index_to_string(n / 10);
        r.append(digit_str(d));
        r
    }
}

/// The path of the element at `index` inside the repeated field at `base`.
pub fn indexed_field_name(base: &str, index: usize) -> (r: String)
    ensures
        r@ == spec_indexed_path(base@, index as nat),
{
    let mut r = String::from_str(base);
    r.append("[");
    let digits = index_to_string(index);
    r.append(digits.as_str());
    r.append("]");
    proof {
        reveal_strlit("[");
        reveal_strlit("]");
        assert(r@ =~= spec_indexed_path(base@, index as nat));
    }
    r
}

} // verus!
