//! Address families and the byte-exact marshaling of their addresses.
//!
//! An address is marshaled into the form that the operating system reads:
//! a family field in the machine's byte order, then the fields of the family.
//! Ports are big-endian in that form whatever the machine.

use vstd::prelude::*;
use crate::sys;

pub mod ipv4;
pub mod ipv6;
pub mod unix;

pub use self::ipv4::{Ipv4, SocketAddrV4};
pub use self::ipv6::{Ipv6, SocketAddrV6};
pub use self::unix::{Unix, UnixAddr, UnixAddrView};

verus! {

/// The order in which a machine lays out the bytes of an integer.
#[derive(Debug, Clone, Copy, PartialEq, Eq, Structural)]
pub enum ByteOrder {
    /// Low byte first.
    Little,
    /// High byte first.
    Big,
}

/// An address family marker: a tag without runtime data that selects the
/// family constant handed to the operating system and the address type that
/// goes with it.
pub trait Domain {
    /// The address type of the family.
    type Addr;

    /// The family constant of the operating system.
    spec fn family() -> i32;

    /// Returns the family constant.
    fn raw() -> (r: i32)
        ensures
            r == Self::family(),
    ;
}

/// An address that can be marshaled into the form the operating system reads.
pub trait ToSockAddr {
    /// Whether the address has a marshaled form. One that does not fit its
    /// form has none: it is never cut short.
    spec fn marshals(&self) -> bool;

    /// The marshaled form on a machine of the given byte order, where the
    /// address has one.
    spec fn raw_form(&self, order: ByteOrder) -> Seq<u8>;

    /// What the address looks like in an error report.
    spec fn text(&self) -> Seq<char>;

    /// Marshals the address for a machine of the given byte order.
    fn to_sockaddr(&self, order: ByteOrder) -> (r: Option<Vec<u8>>)
        ensures
            r is Some <==> self.marshals(),
            r matches Some(v) ==> v@ == self.raw_form(order),
    ;

    /// Marshals the address for this machine and calls `f` with the form and
    /// its length while the form is alive. Returns `None`, without calling
    /// `f`, where the address has no form.
    fn with_raw<F, R>(&self, f: F) -> (r: Option<R>) where F: FnOnce(&[u8], u32) -> R
        requires
            forall|raw: &[u8], len: u32|
                (exists|o: ByteOrder| raw@ == #[trigger] self.raw_form(o)) && len == raw@.len()
                    ==> #[trigger] call_requires(f, (raw, len)),
        ensures
            r is Some <==> self.marshals(),
            r is Some ==> exists|o: ByteOrder, raw: &[u8]|
                raw@ == #[trigger] self.raw_form(o) && #[trigger] call_ensures(
                    f,
                    (raw, raw@.len() as u32),
                    r->0,
                ),
    ;

    /// The text of the address for an error report.
    fn describe(&self) -> (s: String)
        ensures
            s@ == self.text(),
    ;
}

/// An address that can be rebuilt from the form the operating system writes.
pub trait FromSockAddr: Sized + View {
    /// The address that a form of `len` meaningful bytes spells on a machine
    /// of the given byte order; `None` where `len` is under the family's
    /// minimum or the buffer cannot hold the family's form.
    spec fn parsed(raw: Seq<u8>, len: u32, order: ByteOrder) -> Option<Self::V>;

    /// Rebuilds an address written on a machine of the given byte order.
    fn from_sockaddr_with(raw: &[u8], len: u32, order: ByteOrder) -> (r: Option<Self>)
        ensures
            match r {
                Some(a) => Self::parsed(raw@, len, order) == Some(a@),
                None => Self::parsed(raw@, len, order) is None,
            },
    ;

    /// Rebuilds an address written on this machine.
    fn from_sockaddr(raw: &[u8], len: u32) -> (r: Option<Self>)
        ensures
            exists|o: ByteOrder|
                match r {
                    Some(a) => #[trigger] Self::parsed(raw@, len, o) == Some(a@),
                    None => Self::parsed(raw@, len, o) is None,
                },
    ;
}

/// The two bytes of `x` in the given order.
pub open spec fn u16_field(order: ByteOrder, x: u16) -> Seq<u8> {
    match order {
        ByteOrder::Little => seq![(x % 256) as u8, (x / 256) as u8],
        ByteOrder::Big => seq![(x / 256) as u8, (x % 256) as u8],
    }
}

/// The number that two bytes spell in the given order.
pub open spec fn u16_of(order: ByteOrder, b: Seq<u8>) -> u16
    recommends
        b.len() == 2,
{
    match order {
        ByteOrder::Little => (b[1] * 256 + b[0]) as u16,
        ByteOrder::Big => (b[0] * 256 + b[1]) as u16,
    }
}

/// The four bytes of `x`, high byte first.
pub open spec fn u32_be(x: u32) -> Seq<u8> {
    seq![
        (x / 16777216) as u8,
        ((x / 65536) % 256) as u8,
        ((x / 256) % 256) as u8,
        (x % 256) as u8,
    ]
}

/// The four bytes of `x` in the given order.
pub open spec fn u32_field(order: ByteOrder, x: u32) -> Seq<u8> {
    match order {
        ByteOrder::Little => u32_be(x).reverse(),
        ByteOrder::Big => u32_be(x),
    }
}

/// The number that four bytes spell, high byte first.
pub open spec fn u32_of_be(b: Seq<u8>) -> u32
    recommends
        b.len() == 4,
{
    (b[0] * 16777216 + b[1] * 65536 + b[2] * 256 + b[3]) as u32
}

/// The number that four bytes spell in the given order.
pub open spec fn u32_of(order: ByteOrder, b: Seq<u8>) -> u32
    recommends
        b.len() == 4,
{
    match order {
        ByteOrder::Little => u32_of_be(b.reverse()),
        ByteOrder::Big => u32_of_be(b),
    }
}

/// `n` zero bytes.
pub open spec fn zeros(n: nat) -> Seq<u8> {
    Seq::new(n, |i: int| 0u8)
}

impl ByteOrder {
    /// The byte order of the machine that runs the library, found by looking
    /// at the number one as it lies in memory.
    pub fn native() -> ByteOrder {
        Self::from_one(sys::native_bytes(1))
    }

    /// The byte order in which two bytes spell the number one: low byte
    /// first where the first of them is 1, else high byte first.
    pub open spec fn order_of_one(one: Seq<u8>) -> ByteOrder
        recommends
            one.len() == 2,
    {
        if one[0] == 1 {
            ByteOrder::Little
        } else {
            ByteOrder::Big
        }
    }

    /// Tells the byte order of a machine from the number one as it lies in
    /// that machine's memory. Where the bytes are the number one in either
    /// order, they are the number one in the order returned.
    pub fn from_one(one: [u8; 2]) -> (order: ByteOrder)
        ensures
            order == Self::order_of_one(one@),
            one@ == u16_field(ByteOrder::Little, 1) || one@ == u16_field(ByteOrder::Big, 1)
                ==> one@ == u16_field(order, 1),
    {
        if one[0] == 1 {
            ByteOrder::Little
        } else {
            ByteOrder::Big
        }
    }

    /// Writes a 16-bit field.
    pub fn put_u16(self, x: u16) -> (r: [u8; 2])
        ensures
            r@ == u16_field(self, x),
    {
        let hi: u8 = (x / 256) as u8;
        let lo: u8 = (x % 256) as u8;
        let r = match self {
            ByteOrder::Little => [lo, hi],
            ByteOrder::Big => [hi, lo],
        };
        assert(r@ =~= u16_field(self, x));
        r
    }

    /// Writes a 32-bit field.
    pub fn put_u32(self, x: u32) -> (r: [u8; 4])
        ensures
            r@ == u32_field(self, x),
    {
        let b0: u8 = (x / 16777216) as u8;
        let b1: u8 = ((x / 65536) % 256) as u8;
        let b2: u8 = ((x / 256) % 256) as u8;
        let b3: u8 = (x % 256) as u8;
        let r = match self {
            ByteOrder::Little => [b3, b2, b1, b0],
            ByteOrder::Big => [b0, b1, b2, b3],
        };
        assert(r@ =~= u32_field(self, x));
        r
    }

    /// Reads a 32-bit field.
    pub fn get_u32(self, b: [u8; 4]) -> (x: u32)
        ensures
            x == u32_of(self, b@),
    {
        let (b0, b1, b2, b3) = match self {
            ByteOrder::Little => (b[3], b[2], b[1], b[0]),
            ByteOrder::Big => (b[0], b[1], b[2], b[3]),
        };
        let x: u32 = (b0 as u32) * 16777216 + (b1 as u32) * 65536 + (b2 as u32) * 256 + (b3 as u32);
        assert(b@.reverse() =~= seq![b[3], b[2], b[1], b[0]]);
        x
    }
}

/// Reading a 32-bit field that was written in the same order gives the
/// number back.
pub proof fn lemma_u32_field_round_trip(order: ByteOrder, x: u32)
    ensures
        u32_field(order, x).len() == 4,
        u32_of(order, u32_field(order, x)) == x,
{
    let b = u32_be(x);
    assert(b.reverse().reverse() =~= b);
    assert(u32_of_be(b) == x) by {
        assert(b[0] * 16777216 + b[1] * 65536 + b[2] * 256 + b[3] == x) by {
            assert(x / 16777216 < 256);
            assert(x == (x / 256) * 256 + x % 256);
            assert(x / 256 == (x / 65536) * 256 + (x / 256) % 256);
            assert(x / 65536 == (x / 16777216) * 256 + (x / 65536) % 256);
        }
    }
}

} // verus!
