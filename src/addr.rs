use vstd::endian::{endianness, Endian};
use vstd::prelude::*;
use vstd::string::*;

verus! {

/// Number of characters in the canonical text form `XX:XX:XX:XX:XX:XX`.
pub const ADDR_TEXT_LEN: usize = 17;

/// A 6-byte Bluetooth device address, held in display (network) byte order.
#[derive(Clone, Copy, Eq, PartialOrd, Ord, Debug, Hash)]
pub struct BtAddr(pub [u8; 6]);

impl PartialEq for BtAddr {
    fn eq(&self, o: &BtAddr) -> (r: bool)
        ensures
            r == (self.0@ == o.0@),
    {
        let r = self.0[0] == o.0[0] && self.0[1] == o.0[1] && self.0[2] == o.0[2] && self.0[3]
            == o.0[3] && self.0[4] == o.0[4] && self.0[5] == o.0[5];
        proof {
            if r {
                assert(self.0@ =~= o.0@);
            }
        }
        r
    }
}

impl vstd::std_specs::cmp::PartialEqSpecImpl for BtAddr {
    open spec fn obeys_eq_spec() -> bool {
        true
    }

    open spec fn eq_spec(&self, o: &BtAddr) -> bool {
        self.0@ == o.0@
    }
}

/// Upper-case hexadecimal digit for a value below 16.
pub open spec fn hex_digit(d: int) -> char {
    if d < 10 {
        (d + 48) as char
    } else {
        (d + 55) as char
    }
}

/// Value of a hexadecimal digit of either case, or -1 for any other character.
pub open spec fn hex_value(c: char) -> int {
    if '0' <= c && c <= '9' {
        c as int - 48
    } else if 'a' <= c && c <= 'f' {
        c as int - 87
    } else if 'A' <= c && c <= 'F' {
        c as int - 55
    } else {
        -1
    }
}

/// Character `k` of the canonical text of the bytes `b`.
pub open spec fn text_char(b: Seq<u8>, k: int) -> char {
    if k % 3 == 2 {
        ':'
    } else if k % 3 == 0 {
        hex_digit(b[k / 3] as int / 16)
    } else {
        hex_digit(b[k / 3] as int % 16)
    }
}

/// The canonical text of six bytes: upper-case, zero-padded hex pairs joined by ':'.
pub open spec fn format_text(b: Seq<u8>) -> Seq<char> {
    Seq::new(17, |k: int| text_char(b, k))
}

/// Group `i` of `s` is two hex digits, followed by ':' unless it is the last group.
pub open spec fn group_ok(s: Seq<char>, i: int) -> bool {
    hex_value(s[3 * i]) >= 0 && hex_value(s[3 * i + 1]) >= 0 && (i < 5 ==> s[3 * i + 2] == ':')
}

/// `s` is six colon-separated groups of exactly two hex digits.
pub open spec fn text_well_formed(s: Seq<char>) -> bool {
    s.len() == 17 && forall|i: int| 0 <= i < 6 ==> #[trigger] group_ok(s, i)
}

/// The byte that group `i` of `s` spells.
pub open spec fn group_value(s: Seq<char>, i: int) -> u8 {
    (16 * hex_value(s[3 * i]) + hex_value(s[3 * i + 1])) as u8
}

/// The bytes that the text `s` spells, or `None` where `s` is not an address.
pub open spec fn parse_text(s: Seq<char>) -> Option<Seq<u8>> {
    if text_well_formed(s) {
        Some(Seq::new(6, |i: int| group_value(s, i)))
    } else {
        None
    }
}

/// The address bytes in the order that lower protocol layers hold them: reversed
/// on a little-endian host, unchanged on a big-endian one.
pub open spec fn wire_order(b: Seq<u8>, little_endian: bool) -> Seq<u8> {
    if little_endian {
        b.reverse()
    } else {
        b
    }
}

/// Whether the executing hardware is little-endian.
pub open spec fn host_little_endian() -> bool {
    endianness() == Endian::Little
}

/// Relies on u16::to_ne_bytes: the memory representation of 1 in the
/// host's byte order.
#[verifier::external_body]
fn native_bytes_of_one() -> (r: [u8; 2])
    ensures
        host_little_endian() ==> r@ == seq![1u8, 0u8],
        !host_little_endian() ==> r@ == seq![0u8, 1u8],
{
    1u16.to_ne_bytes()
}

/// Whether this host stores integers least significant byte first.
pub fn host_is_little_endian() -> (r: bool)
    ensures
        r == host_little_endian(),
{
    let b = native_bytes_of_one();
    b[0] == 1
}

/// The text of one hexadecimal digit.
pub(crate) fn hex_str(d: u8) -> (r: &'static str)
    requires
        d < 16,
    ensures
        r@ == seq![hex_digit(d as int)],
{
    match d {
        0 => {
            proof { reveal_strlit("0"); }
            "0"
        },
        1 => {
            proof { reveal_strlit("1"); }
            "1"
        },
        2 => {
            proof { reveal_strlit("2"); }
            "2"
        },
        3 => {
            proof { reveal_strlit("3"); }
            "3"
        },
        4 => {
            proof { reveal_strlit("4"); }
            "4"
        },
        5 => {
            proof { reveal_strlit("5"); }
            "5"
        },
        6 => {
            proof { reveal_strlit("6"); }
            "6"
        },
        7 => {
            proof { reveal_strlit("7"); }
            "7"
        },
        8 => {
            proof { reveal_strlit("8"); }
            "8"
        },
        9 => {
            proof { reveal_strlit("9"); }
            "9"
        },
        10 => {
            proof { reveal_strlit("A"); }
            "A"
        },
        11 => {
            proof { reveal_strlit("B"); }
            "B"
        },
        12 => {
            proof { reveal_strlit("C"); }
            "C"
        },
        13 => {
            proof { reveal_strlit("D"); }
            "D"
        },
        14 => {
            proof { reveal_strlit("E"); }
            "E"
        },
        _ => {
            proof { reveal_strlit("F"); }
            "F"
        },
    }
}

/// The value of a hexadecimal digit of either case.
fn hex_digit_value(c: char) -> (r: Option<u8>)
    ensures
        match r {
            Some(v) => hex_value(c) >= 0 && v as int == hex_value(c),
            None => hex_value(c) < 0,
        },
{
    if '0' <= c && c <= '9' {
        Some((c as u32 - 48) as u8)
    } else if 'a' <= c && c <= 'f' {
        Some((c as u32 - 87) as u8)
    } else if 'A' <= c && c <= 'F' {
        Some((c as u32 - 55) as u8)
    } else {
        None
    }
}

impl BtAddr {
    /// The address `00:00:00:00:00:00`, used as a placeholder.
    pub fn any() -> (r: BtAddr)
        ensures
            r.0@ == seq![0u8, 0u8, 0u8, 0u8, 0u8, 0u8],
    {
        BtAddr([0, 0, 0, 0, 0, 0])
    }

    /// The address with its bytes in the given host byte order's wire form.
    pub fn to_byteorder(self, little_endian: bool) -> (r: BtAddr)
        ensures
            r.0@ == wire_order(self.0@, little_endian),
    {
        if little_endian {
            let b = self.0;
            let r = BtAddr([b[5], b[4], b[3], b[2], b[1], b[0]]);
            assert(r.0@ =~= self.0@.reverse());
            r
        } else {
            self
        }
    }

    /// Converts between display byte order and the order that the host's
    /// protocol structures hold; the conversion is its own inverse.
    pub fn convert_host_byteorder(self) -> (r: BtAddr)
        ensures
            r.0@ == wire_order(self.0@, host_little_endian()),
    {
        let le = host_is_little_endian();
        self.to_byteorder(le)
    }

    /// The canonical text `XX:XX:XX:XX:XX:XX`, upper-case hex.
    pub fn to_string(&self) -> (r: String)
        ensures
            r@ == format_text(self.0@),
    {
        let mut s = String::new();
        let mut k: usize = 0;
        while k < ADDR_TEXT_LEN
            invariant
                k <= 17,
                s@ =~= format_text(self.0@).subrange(0, k as int),
            decreases 17 - k,
        {
            if k % 3 == 2 {
                proof { reveal_strlit(":"); }
                s.append(":");
            } else if k % 3 == 0 {
                s.append(hex_str(self.0[k / 3] / 16));
            } else {
                s.append(hex_str(self.0[k / 3] % 16));
            }
            k = k + 1;
            assert(s@ =~= format_text(self.0@).subrange(0, k as int));
        }
        s
    }

    /// Reads an address from six colon-separated groups of two hex digits,
    /// in either case. Any other text is refused.
    pub fn from_str(s: &str) -> (r: Result<BtAddr, ()>)
        ensures
            match r {
                Ok(a) => parse_text(s@) == Some(a.0@),
                Err(_) => parse_text(s@).is_none(),
            },
    {
        let n = s.unicode_len();
        if n != ADDR_TEXT_LEN {
            return Err(());
        }
        let mut bytes: [u8; 6] = [0, 0, 0, 0, 0, 0];
        let mut i: usize = 0;
        while i < 6
            invariant
                i <= 6,
                s@.len() == 17,
                forall|j: int| 0 <= j < i ==> #[trigger] group_ok(s@, j),
                forall|j: int| 0 <= j < i ==> bytes@[j] == #[trigger] group_value(s@, j),
            decreases 6 - i,
        {
            let high = hex_digit_value(s.get_char(3 * i));
            let low = hex_digit_value(s.get_char(3 * i + 1));
            if i < 5 {
                let sep = s.get_char(3 * i + 2);
                if sep != ':' {
                    assert(!group_ok(s@, i as int));
                    return Err(());
                }
            }
            match (high, low) {
                (Some(h), Some(l)) => {
                    bytes[i] = h * 16 + l;
                    assert(group_ok(s@, i as int));
                },
                _ => {
                    assert(!group_ok(s@, i as int));
                    return Err(());
                },
            }
            i = i + 1;
        }
        let a = BtAddr(bytes);
        assert(a.0@ =~= Seq::new(6, |j: int| group_value(s@, j)));
        Ok(a)
    }
}

impl std::str::FromStr for BtAddr {
    type Err = ();

    fn from_str(s: &str) -> Result<BtAddr, ()> {
        BtAddr::from_str(s)
    }
}

/// Reading back the canonical text of any address gives the same bytes.
pub proof fn lemma_parse_format(a: BtAddr)
    ensures
        parse_text(format_text(a.0@)) == Some(a.0@),
{
    let b = a.0@;
    let t = format_text(b);
    assert forall|i: int| 0 <= i < 6 implies #[trigger] group_ok(t, i) && group_value(t, i)
        == b[i] by {
        assert((3 * i) % 3 == 0 && (3 * i) / 3 == i);
        assert((3 * i + 1) % 3 == 1 && (3 * i + 1) / 3 == i);
        assert((3 * i + 2) % 3 == 2);
        let hi = b[i] / 16;
        let lo = b[i] % 16;
        assert(hex_value(hex_digit(hi as int)) == hi);
        assert(hex_value(hex_digit(lo as int)) == lo);
    }
    assert(Seq::new(6, |i: int| group_value(t, i)) =~= b);
}

/// Every accepted text has 17 characters with ':' at positions 2, 5, 8, 11
/// and 14 and nowhere else: six ':'-separated groups of exactly two
/// characters. A text with another number of groups, or a group of another
/// length, is refused.
pub proof fn lemma_accepted_text_shape(s: Seq<char>)
    requires
        parse_text(s) is Some,
    ensures
        s.len() == 17,
        forall|k: int| 0 <= k < 17 ==> (s[k] == ':' <==> k % 3 == 2),
{
    assert forall|k: int| 0 <= k < 17 implies (s[k] == ':' <==> k % 3 == 2) by {
        let i = k / 3;
        assert(0 <= i < 6);
        assert(group_ok(s, i));
        assert(k == 3 * i + k % 3);
    }
}

/// Formatting, reading back and formatting again gives the first text.
pub proof fn lemma_format_round_trip(a: BtAddr)
    ensures
        parse_text(format_text(a.0@)) is Some,
        format_text(parse_text(format_text(a.0@))->Some_0) == format_text(a.0@),
{
    lemma_parse_format(a);
}

/// Converting to wire order and back, in either direction, gives the address back.
pub proof fn lemma_wire_order_involution(b: Seq<u8>, little_endian: bool)
    ensures
        wire_order(wire_order(b, little_endian), little_endian) == b,
{
    if little_endian {
        assert(b.reverse().reverse() =~= b);
    }
}

} // verus!
