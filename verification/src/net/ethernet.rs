//! Ethernet II frames and MAC addresses.
use vstd::prelude::*;
use vstd::string::StrSliceExecFns;
use vstd::string::StringExecFns;
use crate::text::{parse_unsigned, spec_parse_unsigned, spec_digit, spec_digits_value};
use crate::render::{push_hex_byte, spec_hex_byte, spec_hex_digit};

verus! {

/// 48-bit MAC address.
#[derive(Copy, Clone, Debug)]
pub struct MacAddress(pub [u8; 6]);

impl PartialEq for MacAddress {
    fn eq(&self, other: &Self) -> (r: bool) {
        let r = self.0[0] == other.0[0] && self.0[1] == other.0[1] && self.0[2] == other.0[2]
            && self.0[3] == other.0[3] && self.0[4] == other.0[4] && self.0[5] == other.0[5];
        proof {
            if r {
                assert(self.0@ =~= other.0@);
            } else {
                assert(self.0@ != other.0@) by {
                    if self.0@ == other.0@ {
                        assert(self.0@[0] == other.0@[0] && self.0@[5] == other.0@[5]);
                        assert(self.0@[1] == other.0@[1] && self.0@[2] == other.0@[2]);
                        assert(self.0@[3] == other.0@[3] && self.0@[4] == other.0@[4]);
                    }
                }
            }
        }
        r
    }
}

impl Eq for MacAddress {}

impl vstd::std_specs::cmp::PartialEqSpecImpl for MacAddress {
    open spec fn obeys_eq_spec() -> bool {
        true
    }

    open spec fn eq_spec(&self, other: &Self) -> bool {
        self.0@ == other.0@
    }
}

/// IPv4 EtherType.
pub const ETHERTYPE_IPV4: u16 = 0x0800;

/// ARP EtherType.
pub const ETHERTYPE_ARP: u16 = 0x0806;

/// IPv6 EtherType.
pub const ETHERTYPE_IPV6: u16 = 0x86DD;

/// The two bytes of a 16-bit value in network (big-endian) order.
pub open spec fn be16_bytes(v: u16) -> Seq<u8> {
    seq![(v / 256) as u8, (v % 256) as u8]
}

/// The 16-bit value whose big-endian encoding is `hi, lo`.
pub open spec fn be16_value(hi: u8, lo: u8) -> u16 {
    (hi as int * 256 + lo as int) as u16
}

/// Computes `hi * 256 + lo`, the value of the big-endian pair `hi, lo`.
pub fn u16_from_be(hi: u8, lo: u8) -> (v: u16)
    ensures
        v == be16_value(hi, lo),
        v as int == hi as int * 256 + lo as int,
{
    (hi as u16) * 256 + (lo as u16)
}

/// Splits `v` into its big-endian byte pair.
pub fn u16_to_be(v: u16) -> (b: [u8; 2])
    ensures
        b@ == be16_bytes(v),
{
    [(v / 256) as u8, (v % 256) as u8]
}

/// Decoding the big-endian encoding of a value gives the value back.
pub proof fn lemma_be16_roundtrip(v: u16)
    ensures
        be16_value(be16_bytes(v)[0], be16_bytes(v)[1]) == v,
{
}

impl MacAddress {
    /// True when every byte is 0xFF.
    pub open spec fn spec_is_broadcast(&self) -> bool {
        forall|i: int| 0 <= i < 6 ==> #[trigger] self.0[i] == 0xFFu8
    }

    /// True when the group bit (bit 0 of the first byte) is set.
    pub open spec fn spec_is_multicast(&self) -> bool {
        self.0[0] % 2 == 1
    }

    /// Create a MAC address from six bytes.
    pub fn new(bytes: [u8; 6]) -> (m: Self)
        ensures
            m.0 == bytes,
    {
        MacAddress(bytes)
    }

    /// The broadcast address FF:FF:FF:FF:FF:FF.
    pub fn broadcast() -> (m: Self)
        ensures
            m.0@ == seq![0xFFu8, 0xFFu8, 0xFFu8, 0xFFu8, 0xFFu8, 0xFFu8],
            m.spec_is_broadcast(),
    {
        MacAddress([0xFF; 6])
    }

    /// The all-zero address 00:00:00:00:00:00.
    pub fn zero() -> (m: Self)
        ensures
            m.0@ == seq![0u8, 0u8, 0u8, 0u8, 0u8, 0u8],
    {
        MacAddress([0x00; 6])
    }

    /// Whether this is the broadcast address.
    pub fn is_broadcast(&self) -> (b: bool)
        ensures
            b == self.spec_is_broadcast(),
    {
        self.0[0] == 0xFF && self.0[1] == 0xFF && self.0[2] == 0xFF && self.0[3] == 0xFF
            && self.0[4] == 0xFF && self.0[5] == 0xFF
    }

    /// Whether this is a multicast address (group bit set).
    pub fn is_multicast(&self) -> (b: bool)
        ensures
            b == self.spec_is_multicast(),
    {
        let b0 = self.0[0];
        assert((b0 & 0x01u8) != 0 <==> b0 % 2 == 1) by (bit_vector);
        (b0 & 0x01) != 0
    }

    /// Whether this is a unicast address (group bit clear).
    pub fn is_unicast(&self) -> (b: bool)
        ensures
            b == !self.spec_is_multicast(),
    {
        !self.is_multicast()
    }

    /// The six bytes of this address.
    pub fn as_bytes(&self) -> (b: &[u8; 6])
        ensures
            *b == self.0,
    {
        &self.0
    }
}

/// The text form of a MAC address: six pairs of upper-case hexadecimal
/// digits separated by colons, `XX:XX:XX:XX:XX:XX`.
pub open spec fn spec_mac_text(b: Seq<u8>) -> Seq<char> {
    spec_hex_byte(b[0]) + seq![':'] + spec_hex_byte(b[1]) + seq![':'] + spec_hex_byte(b[2])
        + seq![':'] + spec_hex_byte(b[3]) + seq![':'] + spec_hex_byte(b[4]) + seq![':']
        + spec_hex_byte(b[5])
}

/// The pieces of `s` between occurrences of `sep`, as `str::split` gives
/// them (always at least one, possibly empty, piece).
pub open spec fn spec_split(s: Seq<char>, sep: char) -> Seq<Seq<char>>
    decreases s.len(),
{
    if s.len() == 0 {
        seq![Seq::empty()]
    } else {
        let parts = spec_split(s.drop_last(), sep);
        if s.last() == sep {
            parts.push(Seq::empty())
        } else {
            parts.update(parts.len() - 1, parts.last().push(s.last()))
        }
    }
}

/// The bytes of a MAC address written as six colon-separated hexadecimal
/// numbers, each at most 0xFF; `None` for any other text.
pub open spec fn spec_parse_mac(s: Seq<char>) -> Option<Seq<u8>> {
    let parts = spec_split(s, ':');
    if parts.len() == 6 && forall|k: int| 0 <= k < 6 ==> #[trigger] spec_parse_unsigned(parts[k], 16, 255) is Some {
        Some(Seq::new(6, |k: int| spec_parse_unsigned(parts[k], 16, 255)->Some_0 as u8))
    } else {
        None
    }
}

/// Splitting never gives an empty list of pieces.
pub proof fn lemma_split_nonempty(s: Seq<char>, sep: char)
    ensures
        spec_split(s, sep).len() >= 1,
    decreases s.len(),
{
    if s.len() > 0 {
        lemma_split_nonempty(s.drop_last(), sep);
    }
}

/// A text without the separator is one piece.
proof fn lemma_split_without_sep(s: Seq<char>, sep: char)
    requires
        forall|i: int| 0 <= i < s.len() ==> s[i] != sep,
    ensures
        spec_split(s, sep) == seq![s],
    decreases s.len(),
{
    if s.len() > 0 {
        lemma_split_without_sep(s.drop_last(), sep);
        assert(s.drop_last().push(s.last()) =~= s);
    } else {
        assert(s =~= Seq::<char>::empty());
    }
}

/// Splitting `a`, a separator and `b` gives the pieces of `a` followed by
/// those of `b`.
proof fn lemma_split_concat(a: Seq<char>, b: Seq<char>, sep: char)
    ensures
        spec_split(a + seq![sep] + b, sep) == spec_split(a, sep) + spec_split(b, sep),
    decreases b.len(),
{
    let ab = a + seq![sep] + b;
    lemma_split_nonempty(a, sep);
    if b.len() == 0 {
        assert(ab =~= a.push(sep));
        assert(ab.drop_last() =~= a);
        assert(spec_split(a, sep).push(Seq::empty()) =~= spec_split(a, sep) + spec_split(b, sep));
    } else {
        let b1 = b.drop_last();
        lemma_split_concat(a, b1, sep);
        lemma_split_nonempty(b1, sep);
        assert(ab.drop_last() =~= a + seq![sep] + b1);
        assert(ab.last() == b.last());
        let pa = spec_split(a, sep);
        let pb1 = spec_split(b1, sep);
        if b.last() == sep {
            assert((pa + pb1).push(Seq::empty()) =~= pa + pb1.push(Seq::empty()));
        } else {
            let whole = pa + pb1;
            assert(whole.update(whole.len() - 1, whole.last().push(b.last()))
                =~= pa + pb1.update(pb1.len() - 1, pb1.last().push(b.last())));
        }
    }
}

/// Each hexadecimal digit reads back as its value.
proof fn lemma_hex_digit_value(n: int)
    requires
        0 <= n < 16,
    ensures
        spec_digit(spec_hex_digit(n), 16) == Some(n as u32),
        spec_hex_digit(n) != ':',
        spec_hex_digit(n) != '+',
{
    if n == 0 {} else if n == 1 {} else if n == 2 {} else if n == 3 {} else if n == 4 {}
    else if n == 5 {} else if n == 6 {} else if n == 7 {} else if n == 8 {} else if n == 9 {}
    else if n == 10 {} else if n == 11 {} else if n == 12 {} else if n == 13 {} else if n == 14 {}
    else {}
}

/// Two hexadecimal digits read back as the byte they were written from.
proof fn lemma_hex_byte_value(b: u8)
    ensures
        spec_parse_unsigned(spec_hex_byte(b), 16, 255) == Some(b as int),
        forall|i: int| 0 <= i < 2 ==> spec_hex_byte(b)[i] != ':',
{
    let h = spec_hex_byte(b);
    lemma_hex_digit_value(b as int / 16);
    lemma_hex_digit_value(b as int % 16);
    assert(h.drop_last() =~= seq![spec_hex_digit(b as int / 16)]);
    assert(h.drop_last().drop_last() =~= Seq::<char>::empty());
    assert(spec_digits_value(h.drop_last().drop_last(), 16) == Some(0int));
    assert(h.drop_last().last() == spec_hex_digit(b as int / 16));
    assert(spec_digits_value(h.drop_last(), 16) == Some(b as int / 16));
    assert(spec_digits_value(h, 16) == Some(b as int));
}

/// Writing a MAC address as text and reading it back gives the same bytes.
pub proof fn lemma_mac_text_roundtrip(b: Seq<u8>)
    requires
        b.len() == 6,
    ensures
        spec_parse_mac(spec_mac_text(b)) == Some(b),
{
    let h0 = spec_hex_byte(b[0]);
    let h1 = spec_hex_byte(b[1]);
    let h2 = spec_hex_byte(b[2]);
    let h3 = spec_hex_byte(b[3]);
    let h4 = spec_hex_byte(b[4]);
    let h5 = spec_hex_byte(b[5]);
    lemma_hex_byte_value(b[0]);
    lemma_hex_byte_value(b[1]);
    lemma_hex_byte_value(b[2]);
    lemma_hex_byte_value(b[3]);
    lemma_hex_byte_value(b[4]);
    lemma_hex_byte_value(b[5]);
    lemma_split_without_sep(h0, ':');
    lemma_split_without_sep(h1, ':');
    lemma_split_without_sep(h2, ':');
    lemma_split_without_sep(h3, ':');
    lemma_split_without_sep(h4, ':');
    lemma_split_without_sep(h5, ':');
    let t1 = h0 + seq![':'] + h1;
    let t2 = t1 + seq![':'] + h2;
    let t3 = t2 + seq![':'] + h3;
    let t4 = t3 + seq![':'] + h4;
    let t5 = t4 + seq![':'] + h5;
    lemma_split_concat(h0, h1, ':');
    lemma_split_concat(t1, h2, ':');
    lemma_split_concat(t2, h3, ':');
    lemma_split_concat(t3, h4, ':');
    lemma_split_concat(t4, h5, ':');
    assert(t5 == spec_mac_text(b));
    let parts = spec_split(t5, ':');
    assert(parts =~= seq![h0, h1, h2, h3, h4, h5]);
    assert(forall|k: int| 0 <= k < 6 ==> #[trigger] spec_parse_unsigned(parts[k], 16, 255) == Some(b[k] as int));
    assert(Seq::new(6, |k: int| spec_parse_unsigned(parts[k], 16, 255)->Some_0 as u8) =~= b);
}

impl MacAddress {
    /// The text form `XX:XX:XX:XX:XX:XX` in upper-case hexadecimal.
    pub fn to_string(&self) -> (r: String)
        ensures
            r@ == spec_mac_text(self.0@),
    {
        proof {
            reveal_strlit(":");
        }
        let mut out = String::new();
        push_hex_byte(&mut out, self.0[0]);
        out.append(":");
        push_hex_byte(&mut out, self.0[1]);
        out.append(":");
        push_hex_byte(&mut out, self.0[2]);
        out.append(":");
        push_hex_byte(&mut out, self.0[3]);
        out.append(":");
        push_hex_byte(&mut out, self.0[4]);
        out.append(":");
        push_hex_byte(&mut out, self.0[5]);
        out
    }

    /// Read a MAC address written as six colon-separated hexadecimal
    /// numbers (`B8:27:EB:12:34:56`; either case, each at most 0xFF).
    pub fn parse_str(s: &str) -> (r: Result<Self, ()>)
        ensures
            match spec_parse_mac(s@) {
                Some(b) => r matches Ok(m) && m.0@ == b,
                None => r is Err,
            },
    {
        let n = s.unicode_len();
        let mut parts: Vec<&str> = Vec::new();
        let mut start: usize = 0;
        let mut i: usize = 0;
        proof {
            assert(s@.take(0) =~= Seq::<char>::empty());
            assert(parts@.map_values(|p: &str| p@).push(s@.subrange(0, 0)) =~= seq![Seq::<char>::empty()]);
        }
        while i < n
            invariant
                n == s@.len(),
                start <= i <= n,
                spec_split(s@.take(i as int), ':')
                    == parts@.map_values(|p: &str| p@).push(s@.subrange(start as int, i as int)),
            decreases n - i,
        {
            let c = s.get_char(i);
            let ghost before = parts@.map_values(|p: &str| p@);
            proof {
                assert(s@.take(i + 1).drop_last() =~= s@.take(i as int));
                assert(s@.take(i + 1).last() == c);
            }
            if c == ':' {
                let part = s.substring_char(start, i);
                parts.push(part);
                proof {
                    assert(parts@.map_values(|p: &str| p@) =~= before.push(s@.subrange(start as int, i as int)));
                    assert(s@.subrange(i + 1, i + 1) =~= Seq::<char>::empty());
                }
                start = i + 1;
            } else {
                proof {
                    let old_parts = before.push(s@.subrange(start as int, i as int));
                    assert(s@.subrange(start as int, i as int).push(c) =~= s@.subrange(start as int, i + 1));
                    assert(old_parts.update(old_parts.len() - 1, old_parts.last().push(c))
                        =~= before.push(s@.subrange(start as int, i + 1)));
                }
            }
            i = i + 1;
        }
        let last = s.substring_char(start, n);
        parts.push(last);
        proof {
            assert(s@.take(n as int) =~= s@);
            assert(parts@.map_values(|p: &str| p@) =~= spec_split(s@, ':'));
        }
        if parts.len() != 6 {
            return Err(());
        }
        let ghost pieces = spec_split(s@, ':');
        let mut values: Vec<u8> = Vec::new();
        let mut k: usize = 0;
        while k < 6
            invariant
                k <= 6,
                parts.len() == 6,
                pieces == parts@.map_values(|p: &str| p@),
                pieces == spec_split(s@, ':'),
                values.len() == k,
                forall|j: int| 0 <= j < k ==> #[trigger] spec_parse_unsigned(pieces[j], 16, 255) == Some(values@[j] as int),
            decreases 6 - k,
        {
            match parse_unsigned(parts[k], 16, 255) {
                Some(v) => {
                    values.push(v as u8);
                },
                None => {
                    proof {
                        assert(pieces[k as int] == parts@[k as int]@);
                        assert(spec_parse_unsigned(pieces[k as int], 16, 255) is None);
                    }
                    return Err(());
                },
            }
            k = k + 1;
        }
        let m = MacAddress([values[0], values[1], values[2], values[3], values[4], values[5]]);
        proof {
            assert(m.0@ =~= Seq::new(6, |j: int| spec_parse_unsigned(pieces[j], 16, 255)->Some_0 as u8));
        }
        Ok(m)
    }
}

impl core::str::FromStr for MacAddress {
    type Err = ();

    /// Parse `XX:XX:XX:XX:XX:XX` text, as `parse_str` does.
    fn from_str(s: &str) -> (r: Result<Self, ()>)
        ensures
            match spec_parse_mac(s@) {
                Some(b) => r matches Ok(m) && m.0@ == b,
                None => r is Err,
            },
    {
        MacAddress::parse_str(s)
    }
}

/// Ethernet header length: destination (6), source (6), EtherType (2).
pub const HEADER_SIZE: usize = 14;

/// The serialized form of a frame: destination, source, big-endian
/// EtherType, payload.
pub open spec fn spec_frame_bytes(dest: Seq<u8>, src: Seq<u8>, ethertype: u16, payload: Seq<u8>) -> Seq<u8> {
    dest + src + be16_bytes(ethertype) + payload
}

/// What parsing `buf` yields: `None` when it is shorter than a header,
/// else the destination, source, EtherType and payload.
pub open spec fn spec_parse_frame(buf: Seq<u8>) -> Option<(Seq<u8>, Seq<u8>, u16, Seq<u8>)> {
    if buf.len() < 14 {
        None
    } else {
        Some((buf.subrange(0, 6), buf.subrange(6, 12), be16_value(buf[12], buf[13]), buf.subrange(14, buf.len() as int)))
    }
}

/// Ethernet II frame borrowing its payload.
pub struct EthernetFrame<'a> {
    pub dest_mac: MacAddress,
    pub src_mac: MacAddress,
    pub ethertype: u16,
    pub payload: &'a [u8],
}

/// Copies six bytes starting at `start` into an array.
fn mac_at(buffer: &[u8], start: usize) -> (m: MacAddress)
    requires
        start + 6 <= buffer@.len(),
    ensures
        m.0@ == buffer@.subrange(start as int, start + 6),
{
    let m = MacAddress([buffer[start], buffer[start + 1], buffer[start + 2], buffer[start + 3], buffer[start + 4], buffer[start + 5]]);
    assert(m.0@ =~= buffer@.subrange(start as int, start + 6));
    m
}

impl<'a> EthernetFrame<'a> {
    /// Minimum frame size without CRC.
    pub const MIN_FRAME_SIZE: usize = 60;

    /// Maximum frame size without CRC.
    pub const MAX_FRAME_SIZE: usize = 1514;

    /// Header size.
    pub const HEADER_SIZE: usize = 14;

    /// Minimum payload size.
    pub const MIN_PAYLOAD_SIZE: usize = 46;

    /// Maximum payload size (MTU).
    pub const MAX_PAYLOAD_SIZE: usize = 1500;

    /// The frame as the tuple that `spec_parse_frame` produces.
    pub open spec fn spec_fields(&self) -> (Seq<u8>, Seq<u8>, u16, Seq<u8>) {
        (self.dest_mac.0@, self.src_mac.0@, self.ethertype, self.payload@)
    }

    /// Create a frame from its parts.
    pub fn new(dest_mac: MacAddress, src_mac: MacAddress, ethertype: u16, payload: &'a [u8]) -> (f: Self)
        ensures
            f.dest_mac == dest_mac,
            f.src_mac == src_mac,
            f.ethertype == ethertype,
            f.payload@ == payload@,
    {
        EthernetFrame { dest_mac, src_mac, ethertype, payload }
    }

    /// Parse a frame from raw bytes; `None` when shorter than a header.
    pub fn parse(buffer: &'a [u8]) -> (r: Option<Self>)
        ensures
            match r {
                Some(f) => spec_parse_frame(buffer@) == Some(f.spec_fields()),
                None => spec_parse_frame(buffer@) is None,
            },
    {
        if buffer.len() < HEADER_SIZE {
            return None;
        }
        let dest_mac = mac_at(buffer, 0);
        let src_mac = mac_at(buffer, 6);
        let ethertype = u16_from_be(buffer[12], buffer[13]);
        let payload = &buffer[HEADER_SIZE..buffer.len()];
        Some(EthernetFrame { dest_mac, src_mac, ethertype, payload })
    }

    /// Serialized length: header plus payload.
    pub open spec fn spec_size(&self) -> nat {
        14 + self.payload@.len()
    }

    /// Write the frame to the front of `buffer`; `None` when it does not fit.
    /// Bytes past the frame are left as they were.
    pub fn write_to(&self, buffer: &mut [u8]) -> (r: Option<usize>)
        ensures
            final(buffer)@.len() == old(buffer)@.len(),
            match r {
                Some(n) => {
                    &&& n == self.spec_size()
                    &&& final(buffer)@ == spec_frame_bytes(self.dest_mac.0@, self.src_mac.0@, self.ethertype, self.payload@)
                        + old(buffer)@.subrange(n as int, old(buffer)@.len() as int)
                },
                None => {
                    &&& old(buffer)@.len() < self.spec_size()
                    &&& final(buffer)@ == old(buffer)@
                },
            },
    {
        let plen = self.payload.len();
        if buffer.len() < HEADER_SIZE || buffer.len() - HEADER_SIZE < plen {
            return None;
        }
        let total = HEADER_SIZE + plen;
        let mut i: usize = 0;
        while i < 6
            invariant
                0 <= i <= 6,
                buffer@.len() == old(buffer)@.len(),
                buffer@.len() >= 14,
                forall|j: int| 0 <= j < i ==> buffer@[j] == self.dest_mac.0@[j],
                forall|j: int| i <= j < buffer@.len() ==> buffer@[j] == old(buffer)@[j],
            decreases 6 - i,
        {
            buffer[i] = self.dest_mac.0[i];
            i = i + 1;
        }
        while i < 12
            invariant
                6 <= i <= 12,
                buffer@.len() == old(buffer)@.len(),
                buffer@.len() >= 14,
                forall|j: int| 0 <= j < 6 ==> buffer@[j] == self.dest_mac.0@[j],
                forall|j: int| 6 <= j < i ==> buffer@[j] == self.src_mac.0@[j - 6],
                forall|j: int| i <= j < buffer@.len() ==> buffer@[j] == old(buffer)@[j],
            decreases 12 - i,
        {
            buffer[i] = self.src_mac.0[i - 6];
            i = i + 1;
        }
        let et = u16_to_be(self.ethertype);
        buffer[12] = et[0];
        buffer[13] = et[1];
        let mut k: usize = 0;
        while k < plen
            invariant
                0 <= k <= plen,
                plen == self.payload@.len(),
                total == 14 + plen,
                total <= buffer@.len(),
                buffer@.len() == old(buffer)@.len(),
                forall|j: int| 0 <= j < 6 ==> buffer@[j] == self.dest_mac.0@[j],
                forall|j: int| 6 <= j < 12 ==> buffer@[j] == self.src_mac.0@[j - 6],
                buffer@[12] == be16_bytes(self.ethertype)[0],
                buffer@[13] == be16_bytes(self.ethertype)[1],
                forall|j: int| 0 <= j < k ==> buffer@[14 + j] == self.payload@[j],
                forall|j: int| 14 + k <= j < buffer@.len() ==> buffer@[j] == old(buffer)@[j],
            decreases plen - k,
        {
            buffer[HEADER_SIZE + k] = self.payload[k];
            k = k + 1;
        }
        assert(buffer@ =~= spec_frame_bytes(self.dest_mac.0@, self.src_mac.0@, self.ethertype, self.payload@)
            + old(buffer)@.subrange(total as int, old(buffer)@.len() as int));
        Some(total)
    }

    /// Total serialized size: header plus payload.
    pub fn size(&self) -> (n: usize)
        requires
            self.payload@.len() + 14 <= usize::MAX,
        ensures
            n == self.spec_size(),
    {
        HEADER_SIZE + self.payload.len()
    }
}

/// Round trip: parsing the serialized form of a frame gives back its
/// destination, source, EtherType and payload, whatever follows it.
pub proof fn lemma_frame_roundtrip(dest: Seq<u8>, src: Seq<u8>, ethertype: u16, payload: Seq<u8>)
    requires
        dest.len() == 6,
        src.len() == 6,
    ensures
        spec_parse_frame(spec_frame_bytes(dest, src, ethertype, payload)) == Some((dest, src, ethertype, payload)),
{
    let b = spec_frame_bytes(dest, src, ethertype, payload);
    assert(b.subrange(0, 6) =~= dest);
    assert(b.subrange(6, 12) =~= src);
    assert(b.subrange(14, b.len() as int) =~= payload);
    assert(b[12] == be16_bytes(ethertype)[0]);
    assert(b[13] == be16_bytes(ethertype)[1]);
    lemma_be16_roundtrip(ethertype);
}

} // verus!
