//! Lower-case hexadecimal rendering of numbers, for traces and messages.
use vstd::prelude::*;
use vstd::string::StringExecFns;

verus! {

/// The lower-case hex digit of `d` (`d < 16`).
pub open spec fn hex_char(d: nat) -> char {
    if d < 10 {
        (d + '0' as nat) as char
    } else {
        (d - 10 + 'a' as nat) as char
    }
}

/// The last `width` hex digits of `v`, zero-padded (`{:0width$x}` for a value
/// that fits).
pub open spec fn hex_padded(v: nat, width: nat) -> Seq<char>
    decreases width,
{
    if width == 0 {
        Seq::empty()
    } else {
        hex_padded(v / 16, (width - 1) as nat).push(hex_char(v % 16))
    }
}

/// The hex digits of `v` without leading zeros (`{:x}`).
pub open spec fn hex_min(v: nat) -> Seq<char>
    decreases v,
{
    if v < 16 {
        seq![hex_char(v)]
    } else {
        hex_min(v / 16).push(hex_char(v % 16))
    }
}

fn hex_digit(d: u16) -> (r: &'static str)
    requires
        d < 16,
    ensures
        r@ == seq![hex_char(d as nat)],
{
    proof {
        reveal_strlit("0");
        reveal_strlit("1");
        reveal_strlit("2");
        reveal_strlit("3");
        reveal_strlit("4");
        reveal_strlit("5");
        reveal_strlit("6");
        reveal_strlit("7");
        reveal_strlit("8");
        reveal_strlit("9");
        reveal_strlit("a");
        reveal_strlit("b");
        reveal_strlit("c");
        reveal_strlit("d");
        reveal_strlit("e");
        reveal_strlit("f");
    }
    match d {
        0 => "0",
        1 => "1",
        2 => "2",
        3 => "3",
        4 => "4",
        5 => "5",
        6 => "6",
        7 => "7",
        8 => "8",
        9 => "9",
        10 => "a",
        11 => "b",
        12 => "c",
        13 => "d",
        14 => "e",
        _ => "f",
    }
}

/// `v` as `width` zero-padded hex digits.
pub fn hex_padded_string(v: u16, width: usize) -> (r: String)
    ensures
        r@ == hex_padded(v as nat, width as nat),
    decreases width,
{
    if width == 0 {
        proof {
            reveal_strlit("");
        }
        String::from_str("")
    } else {
        let mut s = hex_padded_string(v / 16, width - 1);
        s.append(hex_digit(v % 16));
        s
    }
}

/// `v` as hex digits without leading zeros.
pub fn hex_min_string(v: u16) -> (r: String)
    ensures
        r@ == hex_min(v as nat),
    decreases v,
{
    if v < 16 {
        String::from_str(hex_digit(v))
    } else {
        let mut s = hex_min_string(v / 16);
        s.append(hex_digit(v % 16));
        s
    }
}

} // verus!
