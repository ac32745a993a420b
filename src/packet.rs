use vstd::prelude::*;

verus! {

/// Length of an IPv4 header without options; shorter datagrams carry no addresses.
pub const IPV4_MIN_HEADER_LEN: usize = 20;

/// An IPv4 address as its four octets, most significant first.
#[derive(Clone, Copy, Debug, PartialEq, Eq)]
pub struct Ipv4Address {
    pub octets: [u8; 4],
}

impl View for Ipv4Address {
    type V = Seq<u8>;

    open spec fn view(&self) -> Seq<u8> {
        self.octets@
    }
}

/// The decimal digit `d` (below ten) as a character.
pub open spec fn digit_char(d: nat) -> char {
    if d == 0 {
        '0'
    } else if d == 1 {
        '1'
    } else if d == 2 {
        '2'
    } else if d == 3 {
        '3'
    } else if d == 4 {
        '4'
    } else if d == 5 {
        '5'
    } else if d == 6 {
        '6'
    } else if d == 7 {
        '7'
    } else if d == 8 {
        '8'
    } else {
        '9'
    }
}

/// Shortest decimal representation of `n`.
pub open spec fn decimal(n: nat) -> Seq<char>
    decreases n,
{
    if n < 10 {
        seq![digit_char(n)]
    } else {
        decimal(n / 10).push(digit_char(n % 10))
    }
}

/// Dotted-quad text of a four-octet address.
pub open spec fn dotted(o: Seq<u8>) -> Seq<char> {
    decimal(o[0] as nat) + seq!['.'] + decimal(o[1] as nat) + seq!['.'] + decimal(o[2] as nat)
        + seq!['.'] + decimal(o[3] as nat)
}

fn digit_str(d: u8) -> (r: &'static str)
    requires
        d < 10,
    ensures
        r@ == seq![digit_char(d as nat)],
{
    proof {
        reveal_strlit("0");
        reveal_strlit("1");
        reveal_strlit("2");
        reveal_strlit("3");
        reveal_strlit("4");
        reveal_strlit("5");
        reveal_strlit("6");
        reveal_strlit("7");
        reveal_strlit("8");
        reveal_strlit("9");
    }
    let r = match d {
        0 => "0",
        1 => "1",
        2 => "2",
        3 => "3",
        4 => "4",
        5 => "5",
        6 => "6",
        7 => "7",
        8 => "8",
        _ => "9",
    };
    assert(r@ =~= seq![digit_char(d as nat)]);
    r
}

/// Appends the decimal text of `n` to `out`.
fn push_decimal(out: &mut String, n: u8)
    ensures
        final(out)@ == old(out)@ + decimal(n as nat),
{
    let hundreds: u8 = n / 100;
    let tens: u8 = (n / 10) % 10;
    let units: u8 = n % 10;
    if n >= 100 {
        out.append(digit_str(hundreds));
    }
    if n >= 10 {
        out.append(digit_str(tens));
    }
    out.append(digit_str(units));
    proof {
        let v = n as nat;
        if v >= 100 {
            assert(decimal(v / 10 / 10) == seq![digit_char(hundreds as nat)]);
            assert(decimal(v / 10) == decimal(v / 10 / 10).push(digit_char(tens as nat)));
        } else if v >= 10 {
            assert(decimal(v / 10) == seq![digit_char(tens as nat)]);
        }
        assert(final(out)@ =~= old(out)@ + decimal(v));
    }
}

impl Ipv4Address {
    pub fn new(a: u8, b: u8, c: u8, d: u8) -> (r: Ipv4Address)
        ensures
            r@ == seq![a, b, c, d],
    {
        let r = Ipv4Address { octets: [a, b, c, d] };
        assert(r@ =~= seq![a, b, c, d]);
        r
    }

    /// The address in dotted-quad notation, such as `10.0.0.5`.
    pub fn to_dotted(&self) -> (r: String)
        ensures
            r@ == dotted(self@),
    {
        proof {
            reveal_strlit(".");
        }
        let mut s = String::new();
        push_decimal(&mut s, self.octets[0]);
        s.append(".");
        push_decimal(&mut s, self.octets[1]);
        s.append(".");
        push_decimal(&mut s, self.octets[2]);
        s.append(".");
        push_decimal(&mut s, self.octets[3]);
        assert(s@ =~= dotted(self@));
        s
    }
}

/// What a captured datagram is, in mathematical terms: its bytes and, when the
/// datagram is long enough to hold an IPv4 header, the octets of its source and
/// destination addresses.
pub struct PacketView {
    pub bytes: Seq<u8>,
    pub source_address: Option<Seq<u8>>,
    pub destination_address: Option<Seq<u8>>,
}

/// The packet that a datagram of `bytes` yields: the source address is bytes
/// 12 to 15 and the destination address bytes 16 to 19, present only when the
/// datagram holds a minimal IPv4 header.
pub open spec fn packet_of(bytes: Seq<u8>) -> PacketView {
    if bytes.len() >= IPV4_MIN_HEADER_LEN {
        PacketView {
            bytes,
            source_address: Some(bytes.subrange(12, 16)),
            destination_address: Some(bytes.subrange(16, 20)),
        }
    } else {
        PacketView { bytes, source_address: None, destination_address: None }
    }
}

pub open spec fn address_view(a: Option<Ipv4Address>) -> Option<Seq<u8>> {
    match a {
        Some(a) => Some(a@),
        None => None,
    }
}

/// A raw IP datagram, header included, with the addresses read from its header.
#[derive(Clone, Debug)]
pub struct CapturedPacket {
    pub bytes: Vec<u8>,
    pub source_address: Option<Ipv4Address>,
    pub destination_address: Option<Ipv4Address>,
}

impl View for CapturedPacket {
    type V = PacketView;

    open spec fn view(&self) -> PacketView {
        PacketView {
            bytes: self.bytes@,
            source_address: address_view(self.source_address),
            destination_address: address_view(self.destination_address),
        }
    }
}

/// The line a packet with both addresses is reported as, such as
/// `Src: 10.0.0.5, Dest: 93.184.216.34`.
pub open spec fn summary_text(src: Seq<u8>, dst: Seq<u8>) -> Seq<char> {
    "Src: "@ + dotted(src) + ", Dest: "@ + dotted(dst)
}

impl CapturedPacket {
    /// Wraps a received datagram, reading its addresses when it is at least
    /// as long as a minimal IPv4 header.
    pub fn from_bytes(bytes: Vec<u8>) -> (r: CapturedPacket)
        ensures
            r@ == packet_of(bytes@),
    {
        if bytes.len() >= IPV4_MIN_HEADER_LEN {
            let src = Ipv4Address::new(bytes[12], bytes[13], bytes[14], bytes[15]);
            let dst = Ipv4Address::new(bytes[16], bytes[17], bytes[18], bytes[19]);
            assert(src@ =~= bytes@.subrange(12, 16));
            assert(dst@ =~= bytes@.subrange(16, 20));
            CapturedPacket { bytes, source_address: Some(src), destination_address: Some(dst) }
        } else {
            CapturedPacket { bytes, source_address: None, destination_address: None }
        }
    }

    /// Number of bytes in the datagram.
    pub fn len(&self) -> (r: usize)
        ensures
            r == self@.bytes.len(),
    {
        self.bytes.len()
    }

    /// Whether the header addresses were read.
    pub fn has_addresses(&self) -> (r: bool)
        ensures
            r == (self@.source_address is Some && self@.destination_address is Some),
    {
        self.source_address.is_some() && self.destination_address.is_some()
    }

    /// The report line for the packet's addresses; `None` for a datagram
    /// reported as raw bytes only.
    pub fn summary(&self) -> (r: Option<String>)
        ensures
            match (self.source_address, self.destination_address) {
                (Some(src), Some(dst)) => r is Some && r->0@ == summary_text(src@, dst@),
                _ => r is None,
            },
    {
        match (&self.source_address, &self.destination_address) {
            (Some(src), Some(dst)) => {
                let mut s = String::from_str("Src: ");
                s.append(src.to_dotted().as_str());
                s.append(", Dest: ");
                s.append(dst.to_dotted().as_str());
                assert(s@ =~= summary_text(src@, dst@));
                Some(s)
            },
            _ => None,
        }
    }
}

} // verus!
