//! IPv4: the family marker and its address.

use vstd::prelude::*;
use crate::addr::{ByteOrder, Domain, FromSockAddr, ToSockAddr, u16_field, u16_of, zeros};
use crate::sys;

verus! {

/// IPv4 address family marker.
pub struct Ipv4;

impl Domain for Ipv4 {
    type Addr = SocketAddrV4;

    open spec fn family() -> i32 {
        2
    }

    #[inline]
    fn raw() -> (r: i32) {
        sys::af_inet()
    }
}

/// IPv4 socket address: four address bytes as they are written down, and a
/// port in host order.
#[derive(Debug, Clone, Copy, PartialEq, Eq)]
pub struct SocketAddrV4 {
    pub ip: [u8; 4],
    pub port: u16,
}

impl View for SocketAddrV4 {
    type V = SocketAddrV4;

    open spec fn view(&self) -> SocketAddrV4 {
        *self
    }
}

/// What `{:?}` prints for an IPv4 address with these fields.
pub uninterp spec fn v4_debug_text(ip: Seq<u8>, port: u16) -> Seq<char>;

/// `format!` with `{:?}` on the address, through the `Debug` that `derive`
/// wrote: the text depends on the two fields alone.
#[verifier::external_body]
fn v4_debug(a: &SocketAddrV4) -> (s: String)
    ensures
        s@ == v4_debug_text(a.ip@, a.port),
{
    format!("{:?}", a)
}

impl SocketAddrV4 {
    /// The length of the marshaled form.
    pub open spec fn raw_len() -> nat {
        16
    }

    /// The marshaled form: the family field in the machine's order, the port
    /// high byte first, the four address bytes, eight bytes of padding.
    pub open spec fn raw_bytes(self, order: ByteOrder) -> Seq<u8> {
        u16_field(order, 2) + u16_field(ByteOrder::Big, self.port) + self.ip@ + zeros(8)
    }

    /// The address that a form spells: the port from the bytes at 2 and 3,
    /// the address bytes from 4 to 7.
    pub open spec fn of_raw(raw: Seq<u8>) -> SocketAddrV4
        recommends
            raw.len() >= 16,
    {
        SocketAddrV4 {
            ip: [raw[4], raw[5], raw[6], raw[7]],
            port: u16_of(ByteOrder::Big, raw.subrange(2, 4)),
        }
    }

    /// Creates a new IPv4 address.
    pub fn new(ip: [u8; 4], port: u16) -> (a: Self)
        ensures
            a == (SocketAddrV4 { ip, port }),
    {
        Self { ip, port }
    }

    /// Creates from an IP tuple and port.
    pub fn from(ip: (u8, u8, u8, u8), port: u16) -> (a: Self)
        ensures
            a == (SocketAddrV4 { ip: [ip.0, ip.1, ip.2, ip.3], port }),
    {
        Self { ip: [ip.0, ip.1, ip.2, ip.3], port }
    }

    /// Returns the IP bytes.
    pub fn ip(&self) -> (r: [u8; 4])
        ensures
            r == self.ip,
    {
        self.ip
    }

    /// Returns the port.
    pub fn port(&self) -> (r: u16)
        ensures
            r == self.port,
    {
        self.port
    }

    /// Marshals the address for a machine of the given byte order.
    pub fn to_raw(&self, order: ByteOrder) -> (r: Vec<u8>)
        ensures
            r@ == self.raw_bytes(order),
    {
        let family = order.put_u16(sys::af_inet() as u16);
        let port = ByteOrder::Big.put_u16(self.port);
        let mut r: Vec<u8> = Vec::with_capacity(16);
        r.push(family[0]);
        r.push(family[1]);
        r.push(port[0]);
        r.push(port[1]);
        r.push(self.ip[0]);
        r.push(self.ip[1]);
        r.push(self.ip[2]);
        r.push(self.ip[3]);
        let mut i: usize = 0;
        while i < 8
            invariant
                i <= 8,
                r@ =~= u16_field(order, 2) + u16_field(ByteOrder::Big, self.port) + self.ip@
                    + zeros(i as nat),
            decreases 8 - i,
        {
            r.push(0);
            i += 1;
        }
        r
    }

    /// Rebuilds the address from its form.
    pub fn from_raw(raw: &[u8]) -> (a: Self)
        requires
            raw@.len() >= 16,
        ensures
            a == Self::of_raw(raw@),
    {
        let port: u16 = (raw[2] as u16) * 256 + (raw[3] as u16);
        let a = Self { ip: [raw[4], raw[5], raw[6], raw[7]], port };
        a
    }
}

impl ToSockAddr for SocketAddrV4 {
    open spec fn marshals(&self) -> bool {
        true
    }

    open spec fn raw_form(&self, order: ByteOrder) -> Seq<u8> {
        self.raw_bytes(order)
    }

    open spec fn text(&self) -> Seq<char> {
        v4_debug_text(self.ip@, self.port)
    }

    fn to_sockaddr(&self, order: ByteOrder) -> (r: Option<Vec<u8>>) {
        Some(self.to_raw(order))
    }

    fn with_raw<F, R>(&self, f: F) -> (r: Option<R>) where F: FnOnce(&[u8], u32) -> R {
        let order = ByteOrder::native();
        let raw = self.to_raw(order);
        let len: u32 = sys::sockaddr_in_len() as u32;
        let form = raw.as_slice();
        let v = f(form, len);
        let r = Some(v);
        assert(form@ == self.raw_form(order) && call_ensures(
            f,
            (form, form@.len() as u32),
            r->0,
        ));
        r
    }

    fn describe(&self) -> (s: String) {
        v4_debug(self)
    }
}

impl FromSockAddr for SocketAddrV4 {
    open spec fn parsed(raw: Seq<u8>, len: u32, order: ByteOrder) -> Option<SocketAddrV4> {
        if len < 16 || raw.len() < 16 {
            None
        } else {
            Some(Self::of_raw(raw))
        }
    }

    fn from_sockaddr_with(raw: &[u8], len: u32, order: ByteOrder) -> (r: Option<Self>) {
        if (len as usize) < sys::sockaddr_in_len() || raw.len() < sys::sockaddr_in_len() {
            return None;
        }
        Some(Self::from_raw(raw))
    }

    fn from_sockaddr(raw: &[u8], len: u32) -> (r: Option<Self>) {
        let order = ByteOrder::native();
        let r = Self::from_sockaddr_with(raw, len, order);
        assert(match r {
            Some(a) => Self::parsed(raw@, len, order) == Some(a@),
            None => Self::parsed(raw@, len, order) is None,
        });
        r
    }
}

/// The shape of the marshaled form: sixteen bytes, of which the address
/// itself takes exactly six, the port at 2 and 3 and the address bytes from
/// 4 to 7; the family field stands before them and padding behind.
pub proof fn lemma_v4_form_shape(a: SocketAddrV4, order: ByteOrder)
    ensures
        a.raw_bytes(order).len() == 16,
        a.raw_bytes(order).subrange(0, 2) == u16_field(order, 2),
        a.raw_bytes(order).subrange(2, 8) == u16_field(ByteOrder::Big, a.port) + a.ip@,
        a.raw_bytes(order).subrange(8, 16) == zeros(8),
{
    let raw = a.raw_bytes(order);
    assert(u16_field(order, 2).len() == 2);
    assert(raw.subrange(0, 2) =~= u16_field(order, 2));
    assert(raw.subrange(2, 8) =~= u16_field(ByteOrder::Big, a.port) + a.ip@);
    assert(raw.subrange(8, 16) =~= zeros(8));
}

/// Marshaling an IPv4 address and rebuilding it from the form gives the
/// address back, on a machine of either byte order.
pub proof fn lemma_v4_round_trip(a: SocketAddrV4, order: ByteOrder)
    ensures
        a.raw_bytes(order).len() == 16,
        SocketAddrV4::parsed(a.raw_bytes(order), 16, order) == Some(a),
{
    let raw = a.raw_bytes(order);
    let b = SocketAddrV4::of_raw(raw);
    assert(raw.subrange(2, 4) =~= u16_field(ByteOrder::Big, a.port));
    assert(b.ip@ =~= a.ip@);
    assert(b.ip == a.ip);
}

} // verus!
