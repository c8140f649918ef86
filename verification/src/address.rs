use vstd::prelude::*;

verus! {

/// A hardware address is 48 bits wide; it is carried in the low bits of a
/// `u64`.
pub open spec fn addr_valid(addr: u64) -> bool {
    addr < 0x1_0000_0000_0000
}

/// The upper-case character standing for one hexadecimal digit.
pub open spec fn hex_char(d: u64) -> char {
    if d == 0 {
        '0'
    } else if d == 1 {
        '1'
    } else if d == 2 {
        '2'
    } else if d == 3 {
        '3'
    } else if d == 4 {
        '4'
    } else if d == 5 {
        '5'
    } else if d == 6 {
        '6'
    } else if d == 7 {
        '7'
    } else if d == 8 {
        '8'
    } else if d == 9 {
        '9'
    } else if d == 10 {
        'A'
    } else if d == 11 {
        'B'
    } else if d == 12 {
        'C'
    } else if d == 13 {
        'D'
    } else if d == 14 {
        'E'
    } else {
        'F'
    }
}

/// The value of one hexadecimal digit character, upper or lower case; 255
/// for any other character.
pub open spec fn hex_val(c: char) -> u64 {
    match c {
        '0' => 0,
        '1' => 1,
        '2' => 2,
        '3' => 3,
        '4' => 4,
        '5' => 5,
        '6' => 6,
        '7' => 7,
        '8' => 8,
        '9' => 9,
        'A' => 10,
        'B' => 11,
        'C' => 12,
        'D' => 13,
        'E' => 14,
        'F' => 15,
        'a' => 10,
        'b' => 11,
        'c' => 12,
        'd' => 13,
        'e' => 14,
        'f' => 15,
        _ => 255,
    }
}

pub open spec fn is_hex_char(c: char) -> bool {
    hex_val(c) < 16
}

/// The text of an address: six bytes as two upper-case hexadecimal digits
/// each, most significant byte first, separated by colons.
pub open spec fn addr_chars(addr: u64) -> Seq<char> {
    let b0 = (addr >> 40) & 0xFF;
    let b1 = (addr >> 32) & 0xFF;
    let b2 = (addr >> 24) & 0xFF;
    let b3 = (addr >> 16) & 0xFF;
    let b4 = (addr >> 8) & 0xFF;
    let b5 = addr & 0xFF;
    seq![
        hex_char(b0 / 16),
        hex_char(b0 % 16),
        ':',
        hex_char(b1 / 16),
        hex_char(b1 % 16),
        ':',
        hex_char(b2 / 16),
        hex_char(b2 % 16),
        ':',
        hex_char(b3 / 16),
        hex_char(b3 % 16),
        ':',
        hex_char(b4 / 16),
        hex_char(b4 % 16),
        ':',
        hex_char(b5 / 16),
        hex_char(b5 % 16),
    ]
}

/// Whether a character sequence is well-formed address text: seventeen
/// characters, colons between the byte positions, hexadecimal digits (either
/// case) everywhere else.
pub open spec fn addr_text_ok(s: Seq<char>) -> bool {
    &&& s.len() == 17
    &&& s[2] == ':' && s[5] == ':' && s[8] == ':' && s[11] == ':' && s[14] == ':'
    &&& is_hex_char(s[0]) && is_hex_char(s[1])
    &&& is_hex_char(s[3]) && is_hex_char(s[4])
    &&& is_hex_char(s[6]) && is_hex_char(s[7])
    &&& is_hex_char(s[9]) && is_hex_char(s[10])
    &&& is_hex_char(s[12]) && is_hex_char(s[13])
    &&& is_hex_char(s[15]) && is_hex_char(s[16])
}

/// The byte encoded at positions `3*i` and `3*i + 1` of address text.
pub open spec fn addr_text_byte(s: Seq<char>, i: int) -> u64 {
    (hex_val(s[3 * i]) * 16 + hex_val(s[3 * i + 1])) as u64
}

/// The address encoded by well-formed address text.
pub open spec fn addr_text_val(s: Seq<char>) -> u64 {
    (addr_text_byte(s, 0) * 0x100_0000_0000 + addr_text_byte(s, 1) * 0x1_0000_0000
        + addr_text_byte(s, 2) * 0x100_0000 + addr_text_byte(s, 3) * 0x1_0000 + addr_text_byte(
        s,
        4,
    ) * 0x100 + addr_text_byte(s, 5)) as u64
}

/// What parsing address text yields: the encoded address for well-formed
/// text, nothing otherwise.
pub open spec fn parse_addr_spec(s: Seq<char>) -> Option<u64> {
    if addr_text_ok(s) {
        Some(addr_text_val(s))
    } else {
        None
    }
}

/// The one-character string for a hexadecimal digit, upper case.
fn hex_digit_str(d: u64) -> (r: &'static str)
    requires
        d < 16,
    ensures
        r@ == seq![hex_char(d)],
{
    proof {
        reveal_strlit("0");
        reveal_strlit("1");
        reveal_strlit("2");
        reveal_strlit("3");
        reveal_strlit("4");
        reveal_strlit("5");
        reveal_strlit("6");
        reveal_strlit("7");
        reveal_strlit("8");
        reveal_strlit("9");
        reveal_strlit("A");
        reveal_strlit("B");
        reveal_strlit("C");
        reveal_strlit("D");
        reveal_strlit("E");
        reveal_strlit("F");
    }
    if d == 0 {
        "0"
    } else if d == 1 {
        "1"
    } else if d == 2 {
        "2"
    } else if d == 3 {
        "3"
    } else if d == 4 {
        "4"
    } else if d == 5 {
        "5"
    } else if d == 6 {
        "6"
    } else if d == 7 {
        "7"
    } else if d == 8 {
        "8"
    } else if d == 9 {
        "9"
    } else if d == 10 {
        "A"
    } else if d == 11 {
        "B"
    } else if d == 12 {
        "C"
    } else if d == 13 {
        "D"
    } else if d == 14 {
        "E"
    } else {
        "F"
    }
}

/// Appends the two hexadecimal digits of one byte.
fn push_byte_hex(s: &mut String, b: u64)
    requires
        b < 256,
    ensures
        final(s)@ == old(s)@ + seq![hex_char(b / 16), hex_char(b % 16)],
{
    s.append(hex_digit_str(b / 16));
    s.append(hex_digit_str(b % 16));
    assert(final(s)@ =~= old(s)@ + seq![hex_char(b / 16), hex_char(b % 16)]);
}

/// Renders an address as text, the way the observer and the logs see it.
pub fn addr_string(addr: u64) -> (r: String)
    ensures
        r@ == addr_chars(addr),
{
    let b0 = (addr >> 40) & 0xFF;
    let b1 = (addr >> 32) & 0xFF;
    let b2 = (addr >> 24) & 0xFF;
    let b3 = (addr >> 16) & 0xFF;
    let b4 = (addr >> 8) & 0xFF;
    let b5 = addr & 0xFF;
    proof {
        assert((addr >> 40) & 0xFF < 256 && (addr >> 32) & 0xFF < 256 && (addr >> 24) & 0xFF < 256
            && (addr >> 16) & 0xFF < 256 && (addr >> 8) & 0xFF < 256 && addr & 0xFF < 256)
            by (bit_vector);
        reveal_strlit(":");
    }
    let mut s = String::new();
    push_byte_hex(&mut s, b0);
    s.append(":");
    push_byte_hex(&mut s, b1);
    s.append(":");
    push_byte_hex(&mut s, b2);
    s.append(":");
    push_byte_hex(&mut s, b3);
    s.append(":");
    push_byte_hex(&mut s, b4);
    s.append(":");
    push_byte_hex(&mut s, b5);
    assert(s@ =~= addr_chars(addr));
    s
}

/// The value of one hexadecimal digit character; 255 for any other
/// character.
fn hex_value(c: char) -> (r: u64)
    ensures
        r == hex_val(c),
{
    match c {
        '0' => 0,
        '1' => 1,
        '2' => 2,
        '3' => 3,
        '4' => 4,
        '5' => 5,
        '6' => 6,
        '7' => 7,
        '8' => 8,
        '9' => 9,
        'A' => 10,
        'B' => 11,
        'C' => 12,
        'D' => 13,
        'E' => 14,
        'F' => 15,
        'a' => 10,
        'b' => 11,
        'c' => 12,
        'd' => 13,
        'e' => 14,
        'f' => 15,
        _ => 255,
    }
}

/// Parses address text. Yields the address exactly when the text is
/// seventeen characters of colon-separated hexadecimal byte pairs; yields
/// nothing on any other input.
pub fn parse_address(s: &str) -> (r: Option<u64>)
    ensures
        r == parse_addr_spec(s@),
{
    let n = s.unicode_len();
    if n != 17 {
        return None;
    }
    if !(s.get_char(2) == ':' && s.get_char(5) == ':' && s.get_char(8) == ':' && s.get_char(11)
        == ':' && s.get_char(14) == ':') {
        return None;
    }
    let h0 = hex_value(s.get_char(0));
    let h1 = hex_value(s.get_char(1));
    let h2 = hex_value(s.get_char(3));
    let h3 = hex_value(s.get_char(4));
    let h4 = hex_value(s.get_char(6));
    let h5 = hex_value(s.get_char(7));
    let h6 = hex_value(s.get_char(9));
    let h7 = hex_value(s.get_char(10));
    let h8 = hex_value(s.get_char(12));
    let h9 = hex_value(s.get_char(13));
    let h10 = hex_value(s.get_char(15));
    let h11 = hex_value(s.get_char(16));
    if h0 > 15 || h1 > 15 || h2 > 15 || h3 > 15 || h4 > 15 || h5 > 15 || h6 > 15 || h7 > 15 || h8
        > 15 || h9 > 15 || h10 > 15 || h11 > 15 {
        return None;
    }
    let b0 = h0 * 16 + h1;
    let b1 = h2 * 16 + h3;
    let b2 = h4 * 16 + h5;
    let b3 = h6 * 16 + h7;
    let b4 = h8 * 16 + h9;
    let b5 = h10 * 16 + h11;
    let addr = b0 * 0x100_0000_0000 + b1 * 0x1_0000_0000 + b2 * 0x100_0000 + b3 * 0x1_0000 + b4
        * 0x100 + b5;
    Some(addr)
}

/// Formatting an address and parsing the text back yields the address
/// again, for every address that fits in 48 bits.
pub proof fn lemma_addr_string_round_trip(addr: u64)
    requires
        addr_valid(addr),
    ensures
        parse_addr_spec(addr_chars(addr)) == Some(addr),
{
    let b0 = (addr >> 40) & 0xFF;
    let b1 = (addr >> 32) & 0xFF;
    let b2 = (addr >> 24) & 0xFF;
    let b3 = (addr >> 16) & 0xFF;
    let b4 = (addr >> 8) & 0xFF;
    let b5 = addr & 0xFF;
    assert(b0 < 256 && b1 < 256 && b2 < 256 && b3 < 256 && b4 < 256 && b5 < 256) by (bit_vector)
        requires
            b0 == (addr >> 40) & 0xFF,
            b1 == (addr >> 32) & 0xFF,
            b2 == (addr >> 24) & 0xFF,
            b3 == (addr >> 16) & 0xFF,
            b4 == (addr >> 8) & 0xFF,
            b5 == addr & 0xFF,
    ;
    let s = addr_chars(addr);
    assert forall|d: u64| d < 16 implies hex_val(hex_char(d)) == d by {
    }
    assert(addr_text_ok(s));
    assert(addr_text_byte(s, 0) == b0 && addr_text_byte(s, 1) == b1 && addr_text_byte(s, 2) == b2
        && addr_text_byte(s, 3) == b3 && addr_text_byte(s, 4) == b4 && addr_text_byte(s, 5) == b5);
    assert(b0 * 0x100_0000_0000 + b1 * 0x1_0000_0000 + b2 * 0x100_0000 + b3 * 0x1_0000 + b4 * 0x100
        + b5 == addr) by (bit_vector)
        requires
            b0 == (addr >> 40) & 0xFF,
            b1 == (addr >> 32) & 0xFF,
            b2 == (addr >> 24) & 0xFF,
            b3 == (addr >> 16) & 0xFF,
            b4 == (addr >> 8) & 0xFF,
            b5 == addr & 0xFF,
            addr < 0x1_0000_0000_0000,
    ;
}

/// The name the observer sees for a device: the advertised name where one
/// exists, the address text otherwise.
pub open spec fn display_name_spec(name: Option<Seq<char>>, addr: u64) -> Seq<char> {
    match name {
        Some(n) => n,
        None => addr_chars(addr),
    }
}

/// Resolves a device's display name, falling back to the address text when
/// the device advertises no name.
pub fn display_name(name: Option<String>, addr: u64) -> (r: String)
    ensures
        r@ == display_name_spec(name.deep_view(), addr),
{
    match name {
        Some(n) => n,
        None => addr_string(addr),
    }
}

} // verus!
