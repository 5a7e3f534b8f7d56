use vstd::prelude::*;

verus! {

/// A 6-byte hardware address naming a physical device on the radio link.
#[derive(Clone, Copy, Debug, PartialEq, Eq)]
pub struct MacAddress {
    pub octets: [u8; 6],
}

/// A printer target as the user names it: either a literal hardware
/// address or a human-readable device name.
#[derive(Debug)]
pub enum PrinterAddr {
    MacAddress(MacAddress),
    Name(String),
}

/// Whether `c` is an ASCII hexadecimal digit.
pub open spec fn is_hex(c: char) -> bool {
    ||| '0' as u32 <= c as u32 && c as u32 <= '9' as u32
    ||| 'A' as u32 <= c as u32 && c as u32 <= 'F' as u32
    ||| 'a' as u32 <= c as u32 && c as u32 <= 'f' as u32
}

/// The numeric value of a hexadecimal digit (0 when `c` is no such digit).
pub open spec fn hex_val(c: char) -> u8 {
    if '0' as u32 <= c as u32 && c as u32 <= '9' as u32 {
        (c as u32 - '0' as u32) as u8
    } else if 'A' as u32 <= c as u32 && c as u32 <= 'F' as u32 {
        (c as u32 - 'A' as u32 + 10) as u8
    } else if 'a' as u32 <= c as u32 && c as u32 <= 'f' as u32 {
        (c as u32 - 'a' as u32 + 10) as u8
    } else {
        0
    }
}

/// The byte written as the two hexadecimal digits `hi`, `lo`.
pub open spec fn hex_pair(hi: char, lo: char) -> u8 {
    (hex_val(hi) * 16 + hex_val(lo)) as u8
}

/// Whether all twelve characters of `h` are hexadecimal digits.
pub open spec fn all_hex12(h: Seq<char>) -> bool {
    &&& is_hex(h[0]) && is_hex(h[1]) && is_hex(h[2]) && is_hex(h[3])
    &&& is_hex(h[4]) && is_hex(h[5]) && is_hex(h[6]) && is_hex(h[7])
    &&& is_hex(h[8]) && is_hex(h[9]) && is_hex(h[10]) && is_hex(h[11])
}

/// The six bytes written as twelve hexadecimal digits.
pub open spec fn octets_of_hex(h: Seq<char>) -> Seq<u8> {
    seq![
        hex_pair(h[0], h[1]),
        hex_pair(h[2], h[3]),
        hex_pair(h[4], h[5]),
        hex_pair(h[6], h[7]),
        hex_pair(h[8], h[9]),
        hex_pair(h[10], h[11]),
    ]
}

/// Twelve digits with no separators, e.g. `AABBCCDDEEFF`.
pub open spec fn mac_plain(s: Seq<char>) -> bool {
    s.len() == 12 && all_hex12(s)
}

/// Twelve digits after a `0x` prefix, e.g. `0xAABBCCDDEEFF`.
pub open spec fn mac_prefixed(s: Seq<char>) -> bool {
    s.len() == 14 && s[0] == '0' && s[1] == 'x' && all_hex12(s.subrange(2, 14))
}

/// The twelve digits of the two-digit-group form, in order.
pub open spec fn separated_hex(s: Seq<char>) -> Seq<char> {
    seq![s[0], s[1], s[3], s[4], s[6], s[7], s[9], s[10], s[12], s[13], s[15], s[16]]
}

/// Six two-digit groups joined by a single separator, `:` or `-`,
/// e.g. `AA:BB:CC:DD:EE:FF`.
pub open spec fn mac_separated(s: Seq<char>) -> bool {
    &&& s.len() == 17
    &&& (s[2] == ':' || s[2] == '-')
    &&& s[5] == s[2] && s[8] == s[2] && s[11] == s[2] && s[14] == s[2]
    &&& all_hex12(separated_hex(s))
}

/// The twelve digits of the dotted form, in order.
pub open spec fn dotted_hex(s: Seq<char>) -> Seq<char> {
    seq![s[0], s[1], s[2], s[3], s[5], s[6], s[7], s[8], s[10], s[11], s[12], s[13]]
}

/// Three four-digit groups joined by dots, e.g. `AABB.CCDD.EEFF`.
pub open spec fn mac_dotted(s: Seq<char>) -> bool {
    &&& s.len() == 14
    &&& !(s[0] == '0' && s[1] == 'x')
    &&& s[4] == '.' && s[9] == '.'
    &&& all_hex12(dotted_hex(s))
}

/// Whether `s` is written in one of the four accepted hardware-address
/// notations.
pub open spec fn mac_syntax(s: Seq<char>) -> bool {
    mac_plain(s) || mac_prefixed(s) || mac_separated(s) || mac_dotted(s)
}

/// The six bytes a hardware-address text denotes.
pub open spec fn mac_value(s: Seq<char>) -> Seq<u8> {
    if mac_plain(s) {
        octets_of_hex(s)
    } else if mac_prefixed(s) {
        octets_of_hex(s.subrange(2, 14))
    } else if mac_separated(s) {
        octets_of_hex(separated_hex(s))
    } else {
        octets_of_hex(dotted_hex(s))
    }
}

/// The numeric value of one hexadecimal digit, or `None` when `c` is no
/// such digit.
fn hex_digit(c: char) -> (r: Option<u8>)
    ensures
        r is Some <==> is_hex(c),
        r matches Some(v) ==> v == hex_val(c) && v <= 15,
{
    let v = c as u32;
    if 48 <= v && v <= 57 {
        Some((v - 48) as u8)
    } else if 65 <= v && v <= 70 {
        Some((v - 55) as u8)
    } else if 97 <= v && v <= 102 {
        Some((v - 87) as u8)
    } else {
        None
    }
}

/// Reads six bytes from twelve digit characters; `None` when one of them
/// is not a hexadecimal digit.
fn mac_from_hex_chars(
    c0: char, c1: char, c2: char, c3: char, c4: char, c5: char,
    c6: char, c7: char, c8: char, c9: char, c10: char, c11: char,
) -> (r: Option<MacAddress>)
    ensures
        r is Some <==> all_hex12(seq![c0, c1, c2, c3, c4, c5, c6, c7, c8, c9, c10, c11]),
        r matches Some(m) ==> m.octets@
            == octets_of_hex(seq![c0, c1, c2, c3, c4, c5, c6, c7, c8, c9, c10, c11]),
{
    let v0 = hex_digit(c0);
    let v1 = hex_digit(c1);
    let v2 = hex_digit(c2);
    let v3 = hex_digit(c3);
    let v4 = hex_digit(c4);
    let v5 = hex_digit(c5);
    let v6 = hex_digit(c6);
    let v7 = hex_digit(c7);
    let v8 = hex_digit(c8);
    let v9 = hex_digit(c9);
    let v10 = hex_digit(c10);
    let v11 = hex_digit(c11);
    if v0.is_some() && v1.is_some() && v2.is_some() && v3.is_some() && v4.is_some()
        && v5.is_some() && v6.is_some() && v7.is_some() && v8.is_some() && v9.is_some()
        && v10.is_some() && v11.is_some() {
        let m = MacAddress {
            octets: [
                v0.unwrap() * 16 + v1.unwrap(),
                v2.unwrap() * 16 + v3.unwrap(),
                v4.unwrap() * 16 + v5.unwrap(),
                v6.unwrap() * 16 + v7.unwrap(),
                v8.unwrap() * 16 + v9.unwrap(),
                v10.unwrap() * 16 + v11.unwrap(),
            ],
        };
        proof {
            assert(m.octets@ =~= octets_of_hex(
                seq![c0, c1, c2, c3, c4, c5, c6, c7, c8, c9, c10, c11],
            ));
        }
        Some(m)
    } else {
        None
    }
}

impl PrinterAddr {
    /// Reads a printer target from raw text: the hardware address it
    /// denotes when the text is in hardware-address syntax, the text as a
    /// device name otherwise. Total: every text yields a target.
    pub fn parse(text: String) -> (r: PrinterAddr)
        ensures
            mac_syntax(text@) ==> (r matches PrinterAddr::MacAddress(m) && m.octets@
                == mac_value(text@)),
            !mac_syntax(text@) ==> (r matches PrinterAddr::Name(n) && n@ == text@),
    {
        let s = text.as_str();
        let len = s.unicode_len();
        if len == 12 {
            let parsed = mac_from_hex_chars(
                s.get_char(0), s.get_char(1), s.get_char(2), s.get_char(3), s.get_char(4),
                s.get_char(5), s.get_char(6), s.get_char(7), s.get_char(8), s.get_char(9),
                s.get_char(10), s.get_char(11),
            );
            proof {
                assert(seq![
                    text@[0], text@[1], text@[2], text@[3], text@[4], text@[5],
                    text@[6], text@[7], text@[8], text@[9], text@[10], text@[11],
                ] =~= text@);
            }
            match parsed {
                Some(m) => PrinterAddr::MacAddress(m),
                None => PrinterAddr::Name(text),
            }
        } else if len == 14 {
            let c0 = s.get_char(0);
            let c1 = s.get_char(1);
            if c0 == '0' && c1 == 'x' {
                let parsed = mac_from_hex_chars(
                    s.get_char(2), s.get_char(3), s.get_char(4), s.get_char(5), s.get_char(6),
                    s.get_char(7), s.get_char(8), s.get_char(9), s.get_char(10), s.get_char(11),
                    s.get_char(12), s.get_char(13),
                );
                proof {
                    assert(seq![
                        text@[2], text@[3], text@[4], text@[5], text@[6], text@[7],
                        text@[8], text@[9], text@[10], text@[11], text@[12], text@[13],
                    ] =~= text@.subrange(2, 14));
                }
                match parsed {
                    Some(m) => PrinterAddr::MacAddress(m),
                    None => PrinterAddr::Name(text),
                }
            } else if s.get_char(4) == '.' && s.get_char(9) == '.' {
                let parsed = mac_from_hex_chars(
                    s.get_char(0), s.get_char(1), s.get_char(2), s.get_char(3), s.get_char(5),
                    s.get_char(6), s.get_char(7), s.get_char(8), s.get_char(10), s.get_char(11),
                    s.get_char(12), s.get_char(13),
                );
                proof {
                    assert(seq![
                        text@[0], text@[1], text@[2], text@[3], text@[5], text@[6],
                        text@[7], text@[8], text@[10], text@[11], text@[12], text@[13],
                    ] =~= dotted_hex(text@));
                }
                match parsed {
                    Some(m) => PrinterAddr::MacAddress(m),
                    None => PrinterAddr::Name(text),
                }
            } else {
                PrinterAddr::Name(text)
            }
        } else if len == 17 {
            let sep = s.get_char(2);
            if (sep == ':' || sep == '-') && s.get_char(5) == sep && s.get_char(8) == sep
                && s.get_char(11) == sep && s.get_char(14) == sep {
                let parsed = mac_from_hex_chars(
                    s.get_char(0), s.get_char(1), s.get_char(3), s.get_char(4), s.get_char(6),
                    s.get_char(7), s.get_char(9), s.get_char(10), s.get_char(12), s.get_char(13),
                    s.get_char(15), s.get_char(16),
                );
                proof {
                    assert(seq![
                        text@[0], text@[1], text@[3], text@[4], text@[6], text@[7],
                        text@[9], text@[10], text@[12], text@[13], text@[15], text@[16],
                    ] =~= separated_hex(text@));
                }
                match parsed {
                    Some(m) => PrinterAddr::MacAddress(m),
                    None => PrinterAddr::Name(text),
                }
            } else {
                PrinterAddr::Name(text)
            }
        } else {
            PrinterAddr::Name(text)
        }
    }
}

} // verus!
