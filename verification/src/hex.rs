//! Function selectors: the first four bytes of a contract call's input
//! payload, rendered as eight lowercase hex characters, and the integer key
//! under which a selector table stores them.

use vstd::prelude::*;
use vstd::string::StrSliceExecFns;
use vstd::string::StringExecFns;

verus! {

/// The lowercase hex character for one value below sixteen.
pub open spec fn hex_digit_char(d: u8) -> char
    recommends
        d < 16,
{
    if d == 0 {
        '0'
    } else if d == 1 {
        '1'
    } else if d == 2 {
        '2'
    } else if d == 3 {
        '3'
    } else if d == 4 {
        '4'
    } else if d == 5 {
        '5'
    } else if d == 6 {
        '6'
    } else if d == 7 {
        '7'
    } else if d == 8 {
        '8'
    } else if d == 9 {
        '9'
    } else if d == 10 {
        'a'
    } else if d == 11 {
        'b'
    } else if d == 12 {
        'c'
    } else if d == 13 {
        'd'
    } else if d == 14 {
        'e'
    } else {
        'f'
    }
}

/// The two lowercase hex characters of one byte, high nibble first.
pub open spec fn byte_hex_chars(b: u8) -> Seq<char> {
    seq![hex_digit_char(b / 16), hex_digit_char(b % 16)]
}

/// The selector of a payload: its first four bytes as eight lowercase hex
/// characters.
pub open spec fn selector_hex_chars(input: Seq<u8>) -> Seq<char>
    recommends
        input.len() >= 4,
{
    byte_hex_chars(input[0]) + byte_hex_chars(input[1]) + byte_hex_chars(input[2])
        + byte_hex_chars(input[3])
}

/// The integer key of a payload's selector: its first four bytes read as one
/// big-endian 32-bit value.
pub open spec fn selector_key(input: Seq<u8>) -> u32
    recommends
        input.len() >= 4,
{
    (input[0] as int * 0x1000000 + input[1] as int * 0x10000 + input[2] as int * 0x100
        + input[3] as int) as u32
}

/// Whether a character is a lowercase hex digit.
pub open spec fn is_hex_lower(c: char) -> bool {
    (48 <= c as u32 && c as u32 <= 57) || (97 <= c as u32 && c as u32 <= 102)
}

/// The value of a lowercase hex digit.
pub open spec fn hex_char_val(c: char) -> u32
    recommends
        is_hex_lower(c),
{
    if 48 <= c as u32 && c as u32 <= 57 {
        (c as u32 - 48) as u32
    } else {
        (c as u32 - 87) as u32
    }
}

/// The integer key written by a string of exactly eight lowercase hex
/// characters, or nothing if the string is of another shape.
pub open spec fn parse_hex8(s: Seq<char>) -> Option<u32> {
    if s.len() == 8 && (forall|i: int| 0 <= i < 8 ==> is_hex_lower(s[i])) {
        Some(
            (hex_char_val(s[0]) as int * 0x10000000 + hex_char_val(s[1]) as int * 0x1000000
                + hex_char_val(s[2]) as int * 0x100000 + hex_char_val(s[3]) as int * 0x10000
                + hex_char_val(s[4]) as int * 0x1000 + hex_char_val(s[5]) as int * 0x100
                + hex_char_val(s[6]) as int * 0x10 + hex_char_val(s[7]) as int) as u32,
        )
    } else {
        None
    }
}

/// The one-character string for one value below sixteen.
fn hex_digit_str(d: u8) -> (r: &'static str)
    requires
        d < 16,
    ensures
        r@.len() == 1,
        r@[0] == hex_digit_char(d),
{
    proof {
        reveal_strlit("0");
        reveal_strlit("1");
        reveal_strlit("2");
        reveal_strlit("3");
        reveal_strlit("4");
        reveal_strlit("5");
        reveal_strlit("6");
        reveal_strlit("7");
        reveal_strlit("8");
        reveal_strlit("9");
        reveal_strlit("a");
        reveal_strlit("b");
        reveal_strlit("c");
        reveal_strlit("d");
        reveal_strlit("e");
        reveal_strlit("f");
    }
    if d == 0 {
        "0"
    } else if d == 1 {
        "1"
    } else if d == 2 {
        "2"
    } else if d == 3 {
        "3"
    } else if d == 4 {
        "4"
    } else if d == 5 {
        "5"
    } else if d == 6 {
        "6"
    } else if d == 7 {
        "7"
    } else if d == 8 {
        "8"
    } else if d == 9 {
        "9"
    } else if d == 10 {
        "a"
    } else if d == 11 {
        "b"
    } else if d == 12 {
        "c"
    } else if d == 13 {
        "d"
    } else if d == 14 {
        "e"
    } else {
        "f"
    }
}

/// Renders the selector of a payload of at least four bytes as eight
/// lowercase hex characters.
pub fn selector_hex_string(input: &Vec<u8>) -> (r: String)
    requires
        input@.len() >= 4,
    ensures
        r@ == selector_hex_chars(input@),
{
    let mut s = String::new();
    s.append(hex_digit_str(input[0] / 16));
    s.append(hex_digit_str(input[0] % 16));
    s.append(hex_digit_str(input[1] / 16));
    s.append(hex_digit_str(input[1] % 16));
    s.append(hex_digit_str(input[2] / 16));
    s.append(hex_digit_str(input[2] % 16));
    s.append(hex_digit_str(input[3] / 16));
    s.append(hex_digit_str(input[3] % 16));
    proof {
        assert(s@ =~= selector_hex_chars(input@));
    }
    s
}

/// Reads the selector key of a payload of at least four bytes.
pub fn selector_key_of(input: &Vec<u8>) -> (r: u32)
    requires
        input@.len() >= 4,
    ensures
        r == selector_key(input@),
{
    (input[0] as u32) * 0x1000000 + (input[1] as u32) * 0x10000 + (input[2] as u32) * 0x100 + (
    input[3] as u32)
}

/// The value of one lowercase hex digit character, or nothing for any other
/// character.
fn hex_char_val_exec(c: char) -> (r: Option<u32>)
    ensures
        r is Some <==> is_hex_lower(c),
        is_hex_lower(c) ==> r == Some(hex_char_val(c)),
        r matches Some(d) ==> d < 16,
{
    let u = c as u32;
    if 48 <= u && u <= 57 {
        Some(u - 48)
    } else if 97 <= u && u <= 102 {
        Some(u - 87)
    } else {
        None
    }
}

/// Parses a selector written as exactly eight lowercase hex characters into
/// its integer key; any other string parses to nothing.
pub fn parse_selector(s: &str) -> (r: Option<u32>)
    ensures
        r == parse_hex8(s@),
{
    if s.unicode_len() != 8 {
        return None;
    }
    let d0 = match hex_char_val_exec(s.get_char(0)) {
        Some(d) => d,
        None => {
            return None;
        },
    };
    let d1 = match hex_char_val_exec(s.get_char(1)) {
        Some(d) => d,
        None => {
            return None;
        },
    };
    let d2 = match hex_char_val_exec(s.get_char(2)) {
        Some(d) => d,
        None => {
            return None;
        },
    };
    let d3 = match hex_char_val_exec(s.get_char(3)) {
        Some(d) => d,
        None => {
            return None;
        },
    };
    let d4 = match hex_char_val_exec(s.get_char(4)) {
        Some(d) => d,
        None => {
            return None;
        },
    };
    let d5 = match hex_char_val_exec(s.get_char(5)) {
        Some(d) => d,
        None => {
            return None;
        },
    };
    let d6 = match hex_char_val_exec(s.get_char(6)) {
        Some(d) => d,
        None => {
            return None;
        },
    };
    let d7 = match hex_char_val_exec(s.get_char(7)) {
        Some(d) => d,
        None => {
            return None;
        },
    };
    proof {
        assert(forall|i: int| 0 <= i < 8 ==> is_hex_lower(s@[i]));
    }
    Some(
        d0 * 0x10000000 + d1 * 0x1000000 + d2 * 0x100000 + d3 * 0x10000 + d4 * 0x1000 + d5 * 0x100
            + d6 * 0x10 + d7,
    )
}

/// The hex digit characters carry exactly the value they were rendered from.
proof fn lemma_hex_digit_val(d: u8)
    requires
        d < 16,
    ensures
        is_hex_lower(hex_digit_char(d)),
        hex_char_val(hex_digit_char(d)) == d,
{
}

/// Law: rendering a payload's selector as hex and parsing it back yields the
/// payload's selector key, so a table keyed by parsed hex selectors is probed
/// under exactly the key a payload's first four bytes produce.
pub proof fn lemma_selector_round_trip(input: Seq<u8>)
    requires
        input.len() >= 4,
    ensures
        parse_hex8(selector_hex_chars(input)) == Some(selector_key(input)),
{
    let s = selector_hex_chars(input);
    assert(s.len() == 8);
    lemma_hex_digit_val(input[0] / 16);
    lemma_hex_digit_val(input[0] % 16);
    lemma_hex_digit_val(input[1] / 16);
    lemma_hex_digit_val(input[1] % 16);
    lemma_hex_digit_val(input[2] / 16);
    lemma_hex_digit_val(input[2] % 16);
    lemma_hex_digit_val(input[3] / 16);
    lemma_hex_digit_val(input[3] % 16);
    assert(s[0] == hex_digit_char(input[0] / 16));
    assert(s[1] == hex_digit_char(input[0] % 16));
    assert(s[2] == hex_digit_char(input[1] / 16));
    assert(s[3] == hex_digit_char(input[1] % 16));
    assert(s[4] == hex_digit_char(input[2] / 16));
    assert(s[5] == hex_digit_char(input[2] % 16));
    assert(s[6] == hex_digit_char(input[3] / 16));
    assert(s[7] == hex_digit_char(input[3] % 16));
    assert(forall|i: int| 0 <= i < 8 ==> is_hex_lower(s[i]));
    assert(input[0] == (input[0] / 16) as int * 16 + (input[0] % 16) as int);
    assert(input[1] == (input[1] / 16) as int * 16 + (input[1] % 16) as int);
    assert(input[2] == (input[2] / 16) as int * 16 + (input[2] % 16) as int);
    assert(input[3] == (input[3] / 16) as int * 16 + (input[3] % 16) as int);
}

} // verus!
