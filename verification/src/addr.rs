//! Listen addresses: a (host, port) pair, validated at startup. The host
//! must be an IPv4 address in dotted-quad form; the port is any 16-bit
//! number (zero asks the system for a free port when binding).

use vstd::prelude::*;
use vstd::utf8::encode_utf8;

verus! {

/// True of the ASCII bytes `'0'` through `'9'`.
pub open spec fn is_ascii_digit(b: u8) -> bool {
    0x30 <= b <= 0x39
}

/// How many consecutive digit bytes stand in `s` from position `i` on.
pub open spec fn num_digits_at(s: Seq<u8>, i: int) -> int
    decreases s.len() - i,
{
    if i < s.len() && is_ascii_digit(s[i]) {
        1 + num_digits_at(s, i + 1)
    } else {
        0
    }
}

/// The decimal value of the `n` digit bytes of `s` starting at `i`.
pub open spec fn digits_value(s: Seq<u8>, i: int, n: int) -> int
    decreases n,
{
    if n <= 0 {
        0
    } else {
        digits_value(s, i, n - 1) * 10 + (s[i + n - 1] - 0x30)
    }
}

/// Reads one address octet of `s` at position `i`: one to three digits,
/// no leading zero, value at most 255. Yields the value and the position
/// after the digits, or nothing when no octet stands there.
pub open spec fn spec_parse_octet(s: Seq<u8>, i: int) -> Option<(int, int)> {
    let n = num_digits_at(s, i);
    if 1 <= n <= 3 && !(n > 1 && s[i] == 0x30) && digits_value(s, i, n) <= 255 {
        Some((digits_value(s, i, n), i + n))
    } else {
        None
    }
}

/// Reads a whole dotted-quad IPv4 address: four octets separated by dots,
/// spanning all of `s`.
pub open spec fn spec_parse_ipv4(s: Seq<u8>) -> Option<(u8, u8, u8, u8)> {
    match spec_parse_octet(s, 0) {
        Option::None => Option::None,
        Option::Some((a, i1)) => if i1 < s.len() && s[i1] == 0x2e {
            match spec_parse_octet(s, i1 + 1) {
                Option::None => Option::None,
                Option::Some((b, i2)) => if i2 < s.len() && s[i2] == 0x2e {
                    match spec_parse_octet(s, i2 + 1) {
                        Option::None => Option::None,
                        Option::Some((c, i3)) => if i3 < s.len() && s[i3] == 0x2e {
                            match spec_parse_octet(s, i3 + 1) {
                                Option::None => Option::None,
                                Option::Some((d, i4)) => if i4 == s.len() {
                                    Option::Some((a as u8, b as u8, c as u8, d as u8))
                                } else {
                                    Option::None
                                },
                            }
                        } else {
                            Option::None
                        },
                    }
                } else {
                    Option::None
                },
            }
        } else {
            Option::None
        },
    }
}

fn count_digits(bytes: &[u8], i: usize) -> (n: usize)
    requires
        i <= bytes.len(),
    ensures
        n == num_digits_at(bytes@, i as int),
        i + n <= bytes.len(),
    decreases bytes.len() - i,
{
    if i < bytes.len() && 0x30 <= bytes[i] && bytes[i] <= 0x39 {
        let rest = count_digits(bytes, i + 1);
        1 + rest
    } else {
        0
    }
}

fn parse_octet(bytes: &[u8], i: usize) -> (r: Option<(u8, usize)>)
    requires
        i <= bytes.len(),
    ensures
        match r {
            Option::Some(p) => spec_parse_octet(bytes@, i as int) == Option::Some(
                (p.0 as int, p.1 as int),
            ) && p.1 <= bytes.len(),
            Option::None => spec_parse_octet(bytes@, i as int) is None,
        },
{
    let ghost s = bytes@;
    let n = count_digits(bytes, i);
    if n < 1 || n > 3 {
        return None;
    }
    proof {
        assert(is_ascii_digit(s[i as int]));
        if n >= 2 {
            assert(num_digits_at(s, i + 1) == n - 1);
            assert(is_ascii_digit(s[i + 1]));
        }
        if n == 3 {
            assert(num_digits_at(s, i + 2) == n - 2);
            assert(is_ascii_digit(s[i + 2]));
        }
    }
    if bytes[i] == 0x30 && n > 1 {
        return None;
    }
    let mut value: u16 = (bytes[i] - 0x30) as u16;
    assert(digits_value(s, i as int, 0) == 0);
    assert(value == digits_value(s, i as int, 1));
    if n >= 2 {
        value = value * 10 + (bytes[i + 1] - 0x30) as u16;
        assert(value == digits_value(s, i as int, 2));
    }
    if n == 3 {
        value = value * 10 + (bytes[i + 2] - 0x30) as u16;
        assert(value == digits_value(s, i as int, 3));
    }
    assert(value == digits_value(s, i as int, n as int));
    if value > 255 {
        return None;
    }
    Some(((value as u8), i + n))
}

/// A bound (host, port) pair: four address octets and a port, immutable
/// once made.
#[derive(Clone, Copy, Debug)]
pub struct ListenAddress {
    pub octets: [u8; 4],
    pub port: u16,
}

impl ListenAddress {
    /// Validates a host text and pairs it with a port: succeeds exactly on
    /// dotted-quad IPv4 hosts, and then carries their four octets.
    pub fn parse(host: &str, port: u16) -> (r: Option<ListenAddress>)
        ensures
            match r {
                Option::Some(addr) => spec_parse_ipv4(encode_utf8(host@)) == Option::Some(
                    (
                        addr.octets[0],
                        addr.octets[1],
                        addr.octets[2],
                        addr.octets[3],
                    ),
                ) && addr.port == port,
                Option::None => spec_parse_ipv4(encode_utf8(host@)) is None,
            },
    {
        let bytes = host.as_bytes();
        match Self::parse_quad(bytes) {
            Option::Some(octets) => Option::Some(ListenAddress { octets, port }),
            Option::None => Option::None,
        }
    }

    fn parse_quad(bytes: &[u8]) -> (r: Option<[u8; 4]>)
        ensures
            match r {
                Option::Some(octets) => spec_parse_ipv4(bytes@) == Option::Some(
                    (octets[0], octets[1], octets[2], octets[3]),
                ),
                Option::None => spec_parse_ipv4(bytes@) is None,
            },
    {
        let r1 = parse_octet(bytes, 0);
        match r1 {
            Option::None => Option::None,
            Option::Some((a, i1)) => {
                if i1 < bytes.len() && bytes[i1] == 0x2e {
                    match parse_octet(bytes, i1 + 1) {
                        Option::None => Option::None,
                        Option::Some((b, i2)) => {
                            if i2 < bytes.len() && bytes[i2] == 0x2e {
                                match parse_octet(bytes, i2 + 1) {
                                    Option::None => Option::None,
                                    Option::Some((c, i3)) => {
                                        if i3 < bytes.len() && bytes[i3] == 0x2e {
                                            match parse_octet(bytes, i3 + 1) {
                                                Option::None => Option::None,
                                                Option::Some((d, i4)) => {
                                                    if i4 == bytes.len() {
                                                        Option::Some([a, b, c, d])
                                                    } else {
                                                        Option::None
                                                    }
                                                },
                                            }
                                        } else {
                                            Option::None
                                        }
                                    },
                                }
                            } else {
                                Option::None
                            }
                        },
                    }
                } else {
                    Option::None
                }
            },
        }
    }
}

} // verus!
