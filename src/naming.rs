use vstd::prelude::*;
use vstd::string::*;

use crate::model::SystemType;

verus! {

/// The character of a decimal digit `d < 10`.
pub open spec fn digit_char(d: nat) -> char {
    if d == 0 {
        '0'
    } else if d == 1 {
        '1'
    } else if d == 2 {
        '2'
    } else if d == 3 {
        '3'
    } else if d == 4 {
        '4'
    } else if d == 5 {
        '5'
    } else if d == 6 {
        '6'
    } else if d == 7 {
        '7'
    } else if d == 8 {
        '8'
    } else {
        '9'
    }
}

/// The decimal digits of `n`, most significant first, without leading zeros.
pub open spec fn decimal(n: nat) -> Seq<char>
    decreases n,
{
    if n < 10 {
        seq![digit_char(n)]
    } else {
        decimal(n / 10).push(digit_char(n % 10))
    }
}

/// `s` with zeros in front until it is at least `width` characters long.
pub open spec fn pad_zeros(s: Seq<char>, width: nat) -> Seq<char> {
    if s.len() >= width {
        s
    } else {
        Seq::new((width - s.len()) as nat, |_i: int| '0') + s
    }
}

/// The name of the system at zero-based position `index` of a catalog:
/// `S` and the one-based position, zero-padded to at least four digits.
pub open spec fn system_name_of(index: nat) -> Seq<char> {
    seq!['S'] + pad_zeros(decimal(index + 1), 4)
}

/// The names of the stars of a system named `name`, in order.
pub open spec fn star_names_of(name: Seq<char>, t: SystemType) -> Seq<Seq<char>> {
    match t {
        SystemType::Solo => seq![name],
        SystemType::Binary => seq![name.push('a'), name.push('b')],
        SystemType::Trinary => seq![name.push('a'), name.push('b'), name.push('c')],
    }
}

fn digit_str(d: u64) -> (r: &'static str)
    requires
        d < 10,
    ensures
        r@ == seq![digit_char(d as nat)],
{
    proof {
        reveal_strlit("0");
        reveal_strlit("1");
        reveal_strlit("2");
        reveal_strlit("3");
        reveal_strlit("4");
        reveal_strlit("5");
        reveal_strlit("6");
        reveal_strlit("7");
        reveal_strlit("8");
        reveal_strlit("9");
    }
    if d == 0 {
        "0"
    } else if d == 1 {
        "1"
    } else if d == 2 {
        "2"
    } else if d == 3 {
        "3"
    } else if d == 4 {
        "4"
    } else if d == 5 {
        "5"
    } else if d == 6 {
        "6"
    } else if d == 7 {
        "7"
    } else if d == 8 {
        "8"
    } else {
        "9"
    }
}

/// Appends the decimal digits of `n` to `s`.
fn append_decimal(s: &mut String, n: u64)
    ensures
        final(s)@ == old(s)@ + decimal(n as nat),
    decreases n,
{
    if n < 10 {
        s.append(digit_str(n));
    } else {
        append_decimal(s, n / 10);
        s.append(digit_str(n % 10));
        proof {
            assert(decimal(n as nat) == decimal((n / 10) as nat).push(digit_char((n % 10) as nat)));
        }
    }
    assert(final(s)@ =~= old(s)@ + decimal(n as nat));
}

/// The number of decimal digits of `n`.
fn decimal_len(n: u64) -> (r: u64)
    ensures
        r == decimal(n as nat).len(),
        r <= n as nat + 1,
    decreases n,
{
    if n < 10 {
        1
    } else {
        let k = decimal_len(n / 10);
        k + 1
    }
}

/// Format: S0001, S0002, ..., S9999, S10000, ...
pub fn generate_system_name(index: usize) -> (r: String)
    requires
        index < usize::MAX,
    ensures
        r@ == system_name_of(index as nat),
{
    let n: u64 = (index as u64) + 1;
    let len = decimal_len(n);
    let mut s = String::from_str("S");
    proof {
        reveal_strlit("S");
    }
    let mut i: u64 = len;
    while i < 4
        invariant
            len <= i <= 4 || (len > 4 && i == len),
            s@ == seq!['S'] + Seq::new((i - len) as nat, |_j: int| '0'),
        decreases 4 - i,
    {
        proof {
            reveal_strlit("0");
        }
        s.append("0");
        i = i + 1;
        assert(s@ =~= seq!['S'] + Seq::new((i - len) as nat, |_j: int| '0'));
    }
    append_decimal(&mut s, n);
    assert(s@ =~= system_name_of(index as nat));
    s
}

/// Solo: S0001; binary: S0001a, S0001b; trinary: S0001a, S0001b, S0001c.
pub fn generate_star_names(system_name: &str, system_type: &SystemType) -> (r: Vec<String>)
    ensures
        r.len() == star_names_of(system_name@, *system_type).len(),
        forall|k: int|
            0 <= k < r.len() ==> (#[trigger] r[k])@ == star_names_of(system_name@, *system_type)[k],
{
    proof {
        reveal_strlit("a");
        reveal_strlit("b");
        reveal_strlit("c");
    }
    let mut r: Vec<String> = Vec::new();
    match system_type {
        SystemType::Solo => {
            r.push(String::from_str(system_name));
        },
        SystemType::Binary => {
            r.push(String::from_str(system_name).concat("a"));
            r.push(String::from_str(system_name).concat("b"));
        },
        SystemType::Trinary => {
            r.push(String::from_str(system_name).concat("a"));
            r.push(String::from_str(system_name).concat("b"));
            r.push(String::from_str(system_name).concat("c"));
        },
    }
    assert(system_name@ + "a"@ =~= system_name@.push('a'));
    assert(system_name@ + "b"@ =~= system_name@.push('b'));
    assert(system_name@ + "c"@ =~= system_name@.push('c'));
    r
}

} // verus!
