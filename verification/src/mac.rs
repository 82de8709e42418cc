//! MAC addresses: the stable, adapter-independent identity of a sensor.
//!
//! A MAC address is six bytes. Its human-readable form is the usual
//! colon-separated lower-case hex (`a4:c1:38:00:11:22`); the same text form
//! parses back, with upper-case hex digits accepted too. The telemetry node
//! identifier of a sensor is the same hex with the colons removed.

use vstd::prelude::*;
use vstd::std_specs::iter::IteratorSpec;
use vstd::string::StringExecFns;

use crate::errors::ConfigError;

verus! {

/// The 6-byte hardware address of a sensor.
#[derive(Clone, Copy, Debug, PartialEq, Eq, Hash, Structural)]
pub struct MacAddress {
    pub octet0: u8,
    pub octet1: u8,
    pub octet2: u8,
    pub octet3: u8,
    pub octet4: u8,
    pub octet5: u8,
}

impl MacAddress {
    /// The six octets, most significant first.
    pub open spec fn octets(self) -> Seq<u8> {
        seq![self.octet0, self.octet1, self.octet2, self.octet3, self.octet4, self.octet5]
    }

    pub fn from_octets(octets: [u8; 6]) -> (r: MacAddress)
        ensures
            r.octets() =~= octets@,
    {
        MacAddress {
            octet0: octets[0],
            octet1: octets[1],
            octet2: octets[2],
            octet3: octets[3],
            octet4: octets[4],
            octet5: octets[5],
        }
    }
}

/// The lower-case hex digit for a value below 16.
pub open spec fn nibble_char(n: u8) -> char
    recommends
        n < 16,
{
    if n == 0 {
        '0'
    } else if n == 1 {
        '1'
    } else if n == 2 {
        '2'
    } else if n == 3 {
        '3'
    } else if n == 4 {
        '4'
    } else if n == 5 {
        '5'
    } else if n == 6 {
        '6'
    } else if n == 7 {
        '7'
    } else if n == 8 {
        '8'
    } else if n == 9 {
        '9'
    } else if n == 10 {
        'a'
    } else if n == 11 {
        'b'
    } else if n == 12 {
        'c'
    } else if n == 13 {
        'd'
    } else if n == 14 {
        'e'
    } else {
        'f'
    }
}

/// The two lower-case hex digits of a byte.
pub open spec fn octet_chars(b: u8) -> Seq<char> {
    seq![nibble_char(b / 16), nibble_char(b % 16)]
}

/// The colon-separated text form of a MAC address.
pub open spec fn spec_mac_text(m: MacAddress) -> Seq<char> {
    octet_chars(m.octet0) + seq![':'] + octet_chars(m.octet1) + seq![':'] + octet_chars(m.octet2)
        + seq![':'] + octet_chars(m.octet3) + seq![':'] + octet_chars(m.octet4) + seq![':']
        + octet_chars(m.octet5)
}

/// The text form of a MAC address with the colons removed, as used for
/// telemetry node identifiers.
pub open spec fn spec_mac_hex(m: MacAddress) -> Seq<char> {
    octet_chars(m.octet0) + octet_chars(m.octet1) + octet_chars(m.octet2) + octet_chars(m.octet3)
        + octet_chars(m.octet4) + octet_chars(m.octet5)
}

pub(crate) fn nibble_str(n: u8) -> (r: &'static str)
    requires
        n < 16,
    ensures
        r@ == seq![nibble_char(n)],
{
    match n {
        0 => {
            proof {
                reveal_strlit("0");
                assert("0"@ =~= seq![nibble_char(0)]);
            }
            "0"
        },
        1 => {
            proof {
                reveal_strlit("1");
                assert("1"@ =~= seq![nibble_char(1)]);
            }
            "1"
        },
        2 => {
            proof {
                reveal_strlit("2");
                assert("2"@ =~= seq![nibble_char(2)]);
            }
            "2"
        },
        3 => {
            proof {
                reveal_strlit("3");
                assert("3"@ =~= seq![nibble_char(3)]);
            }
            "3"
        },
        4 => {
            proof {
                reveal_strlit("4");
                assert("4"@ =~= seq![nibble_char(4)]);
            }
            "4"
        },
        5 => {
            proof {
                reveal_strlit("5");
                assert("5"@ =~= seq![nibble_char(5)]);
            }
            "5"
        },
        6 => {
            proof {
                reveal_strlit("6");
                assert("6"@ =~= seq![nibble_char(6)]);
            }
            "6"
        },
        7 => {
            proof {
                reveal_strlit("7");
                assert("7"@ =~= seq![nibble_char(7)]);
            }
            "7"
        },
        8 => {
            proof {
                reveal_strlit("8");
                assert("8"@ =~= seq![nibble_char(8)]);
            }
            "8"
        },
        9 => {
            proof {
                reveal_strlit("9");
                assert("9"@ =~= seq![nibble_char(9)]);
            }
            "9"
        },
        10 => {
            proof {
                reveal_strlit("a");
                assert("a"@ =~= seq![nibble_char(10)]);
            }
            "a"
        },
        11 => {
            proof {
                reveal_strlit("b");
                assert("b"@ =~= seq![nibble_char(11)]);
            }
            "b"
        },
        12 => {
            proof {
                reveal_strlit("c");
                assert("c"@ =~= seq![nibble_char(12)]);
            }
            "c"
        },
        13 => {
            proof {
                reveal_strlit("d");
                assert("d"@ =~= seq![nibble_char(13)]);
            }
            "d"
        },
        14 => {
            proof {
                reveal_strlit("e");
                assert("e"@ =~= seq![nibble_char(14)]);
            }
            "e"
        },
        _ => {
            proof {
                reveal_strlit("f");
                assert("f"@ =~= seq![nibble_char(15)]);
            }
            "f"
        },
    }
}

/// Appends the two hex digits of one octet.
fn push_octet(s: &mut String, b: u8)
    ensures
        final(s)@ == old(s)@ + octet_chars(b),
{
    s.append(nibble_str(b / 16));
    s.append(nibble_str(b % 16));
    proof {
        assert(final(s)@ =~= old(s)@ + octet_chars(b));
    }
}

fn push_colon(s: &mut String)
    ensures
        final(s)@ == old(s)@ + seq![':'],
{
    proof {
        reveal_strlit(":");
        assert(":"@ =~= seq![':']);
    }
    s.append(":");
}

impl MacAddress {
    /// The colon-separated lower-case hex form, for operator-facing output
    /// and the configuration file.
    pub fn to_text(&self) -> (r: String)
        ensures
            r@ == spec_mac_text(*self),
    {
        let mut s = String::new();
        push_octet(&mut s, self.octet0);
        push_colon(&mut s);
        push_octet(&mut s, self.octet1);
        push_colon(&mut s);
        push_octet(&mut s, self.octet2);
        push_colon(&mut s);
        push_octet(&mut s, self.octet3);
        push_colon(&mut s);
        push_octet(&mut s, self.octet4);
        push_colon(&mut s);
        push_octet(&mut s, self.octet5);
        proof {
            assert(s@ =~= spec_mac_text(*self));
        }
        s
    }

    /// The hex form with the colons removed, as used for telemetry node
    /// identifiers.
    pub fn to_hex(&self) -> (r: String)
        ensures
            r@ == spec_mac_hex(*self),
    {
        let mut s = String::new();
        push_octet(&mut s, self.octet0);
        push_octet(&mut s, self.octet1);
        push_octet(&mut s, self.octet2);
        push_octet(&mut s, self.octet3);
        push_octet(&mut s, self.octet4);
        push_octet(&mut s, self.octet5);
        proof {
            assert(s@ =~= spec_mac_hex(*self));
        }
        s
    }
}

/// Collect the characters of a piece of text into a vector.
pub fn str_chars(s: &str) -> (v: Vec<char>)
    ensures
        v@ == s@,
{
    broadcast use vstd::string::axiom_spec_iter, vstd::string::next_postcondition;

    let mut chars = s.chars();
    let mut v: Vec<char> = Vec::new();
    loop
        invariant
            v@ + chars.remaining() == s@,
            chars.decrease() is Some,
        ensures
            v@ == s@,
        decreases chars.decrease()->0,
    {
        match chars.next() {
            Some(c) => {
                v.push(c);
                proof {
                    assert(v@ + chars.remaining() =~= s@);
                }
            },
            None => {
                proof {
                    assert(v@ =~= s@);
                }
                break ;
            },
        }
    }
    v
}

/// The value of a hex-digit character of either case, if it is one.
pub open spec fn spec_hex_val(c: char) -> Option<u8> {
    if 48 <= c as u32 <= 57 {
        Some((c as u32 - 48) as u8)
    } else if 97 <= c as u32 <= 102 {
        Some((c as u32 - 87) as u8)
    } else if 65 <= c as u32 <= 70 {
        Some((c as u32 - 55) as u8)
    } else {
        None
    }
}

fn hex_val(c: char) -> (r: Option<u8>)
    ensures
        r == spec_hex_val(c),
        r matches Some(v) ==> v < 16,
{
    let x = c as u32;
    if 48 <= x && x <= 57 {
        Some((x - 48) as u8)
    } else if 97 <= x && x <= 102 {
        Some((x - 87) as u8)
    } else if 65 <= x && x <= 70 {
        Some((x - 55) as u8)
    } else {
        None
    }
}

/// Whether a piece of text spells a MAC address: six hex pairs of either
/// case separated by colons.
pub open spec fn spec_mac_text_valid(s: Seq<char>) -> bool {
    &&& s.len() == 17
    &&& s[2] == ':' && s[5] == ':' && s[8] == ':' && s[11] == ':' && s[14] == ':'
    &&& spec_hex_val(s[0]) is Some && spec_hex_val(s[1]) is Some
    &&& spec_hex_val(s[3]) is Some && spec_hex_val(s[4]) is Some
    &&& spec_hex_val(s[6]) is Some && spec_hex_val(s[7]) is Some
    &&& spec_hex_val(s[9]) is Some && spec_hex_val(s[10]) is Some
    &&& spec_hex_val(s[12]) is Some && spec_hex_val(s[13]) is Some
    &&& spec_hex_val(s[15]) is Some && spec_hex_val(s[16]) is Some
}

/// The octet spelled by two hex-digit characters.
pub open spec fn spec_octet_of(hi: char, lo: char) -> u8
    recommends
        spec_hex_val(hi) is Some,
        spec_hex_val(lo) is Some,
{
    (spec_hex_val(hi).unwrap() * 16 + spec_hex_val(lo).unwrap()) as u8
}

/// The MAC address spelled by a piece of text, if any.
pub open spec fn spec_parse_mac(s: Seq<char>) -> Option<MacAddress> {
    if spec_mac_text_valid(s) {
        Some(
            MacAddress {
                octet0: spec_octet_of(s[0], s[1]),
                octet1: spec_octet_of(s[3], s[4]),
                octet2: spec_octet_of(s[6], s[7]),
                octet3: spec_octet_of(s[9], s[10]),
                octet4: spec_octet_of(s[12], s[13]),
                octet5: spec_octet_of(s[15], s[16]),
            },
        )
    } else {
        None
    }
}

fn parse_octet(hi: char, lo: char) -> (r: Option<u8>)
    ensures
        r is Some <==> spec_hex_val(hi) is Some && spec_hex_val(lo) is Some,
        spec_hex_val(hi) is Some && spec_hex_val(lo) is Some ==> r == Some(spec_octet_of(hi, lo)),
{
    match (hex_val(hi), hex_val(lo)) {
        (Some(h), Some(l)) => Some(h * 16 + l),
        _ => None,
    }
}

/// Parse a MAC address from a slice of characters. Succeeds exactly on six
/// colon-separated hex pairs of either case, and returns the address they
/// spell.
pub fn parse_mac_chars(cs: &[char]) -> (r: Result<MacAddress, ConfigError>)
    ensures
        r is Ok <==> spec_parse_mac(cs@) is Some,
        r matches Ok(m) ==> spec_parse_mac(cs@) == Some(m),
        r is Err ==> r == Err::<MacAddress, ConfigError>(ConfigError::InvalidMacAddress),
{
    if cs.len() != 17 {
        return Err(ConfigError::InvalidMacAddress);
    }
    if !(cs[2] == ':' && cs[5] == ':' && cs[8] == ':' && cs[11] == ':' && cs[14] == ':') {
        return Err(ConfigError::InvalidMacAddress);
    }
    let o0 = parse_octet(cs[0], cs[1]);
    let o1 = parse_octet(cs[3], cs[4]);
    let o2 = parse_octet(cs[6], cs[7]);
    let o3 = parse_octet(cs[9], cs[10]);
    let o4 = parse_octet(cs[12], cs[13]);
    let o5 = parse_octet(cs[15], cs[16]);
    match (o0, o1, o2, o3, o4, o5) {
        (Some(octet0), Some(octet1), Some(octet2), Some(octet3), Some(octet4), Some(octet5)) => {
            Ok(MacAddress { octet0, octet1, octet2, octet3, octet4, octet5 })
        },
        _ => Err(ConfigError::InvalidMacAddress),
    }
}

impl MacAddress {
    /// Parse the text form of a MAC address.
    pub fn parse(s: &str) -> (r: Result<MacAddress, ConfigError>)
        ensures
            r is Ok <==> spec_parse_mac(s@) is Some,
            r matches Ok(m) ==> spec_parse_mac(s@) == Some(m),
            r is Err ==> r == Err::<MacAddress, ConfigError>(ConfigError::InvalidMacAddress),
    {
        let cs = str_chars(s);
        parse_mac_chars(cs.as_slice())
    }
}

/// MAC address text round trip: the colon-separated text form of any
/// address parses back to exactly that address.
pub proof fn lemma_mac_text_round_trip(m: MacAddress)
    ensures
        spec_parse_mac(spec_mac_text(m)) == Some(m),
{
    let s = spec_mac_text(m);
    assert(s =~= seq![
        nibble_char(m.octet0 / 16),
        nibble_char(m.octet0 % 16),
        ':',
        nibble_char(m.octet1 / 16),
        nibble_char(m.octet1 % 16),
        ':',
        nibble_char(m.octet2 / 16),
        nibble_char(m.octet2 % 16),
        ':',
        nibble_char(m.octet3 / 16),
        nibble_char(m.octet3 % 16),
        ':',
        nibble_char(m.octet4 / 16),
        nibble_char(m.octet4 % 16),
        ':',
        nibble_char(m.octet5 / 16),
        nibble_char(m.octet5 % 16),
    ]);
    lemma_nibble_char_hex_val(m.octet0 / 16);
    lemma_nibble_char_hex_val(m.octet0 % 16);
    lemma_nibble_char_hex_val(m.octet1 / 16);
    lemma_nibble_char_hex_val(m.octet1 % 16);
    lemma_nibble_char_hex_val(m.octet2 / 16);
    lemma_nibble_char_hex_val(m.octet2 % 16);
    lemma_nibble_char_hex_val(m.octet3 / 16);
    lemma_nibble_char_hex_val(m.octet3 % 16);
    lemma_nibble_char_hex_val(m.octet4 / 16);
    lemma_nibble_char_hex_val(m.octet4 % 16);
    lemma_nibble_char_hex_val(m.octet5 / 16);
    lemma_nibble_char_hex_val(m.octet5 % 16);
}

/// Reading a nibble's hex digit back gives the nibble.
proof fn lemma_nibble_char_hex_val(n: u8)
    requires
        n < 16,
    ensures
        spec_hex_val(nibble_char(n)) == Some(n),
{
}

} // verus!
