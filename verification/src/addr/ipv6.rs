//! IPv6: the family marker and its address.

use vstd::prelude::*;
use crate::addr::{
    ByteOrder, Domain, FromSockAddr, ToSockAddr, lemma_u32_field_round_trip, u16_field, u16_of,
    u32_field, u32_of, zeros,
};
use crate::sys;

verus! {

/// IPv6 address family marker.
pub struct Ipv6;

impl Domain for Ipv6 {
    type Addr = SocketAddrV6;

    open spec fn family() -> i32 {
        10
    }

    #[inline]
    fn raw() -> (r: i32) {
        sys::af_inet6()
    }
}

/// IPv6 socket address: sixteen address bytes as they are written down, a
/// port in host order, and the scope id that tells interfaces apart for
/// link-local addresses (0 where it is not used).
#[derive(Debug, Clone, Copy, PartialEq, Eq)]
pub struct SocketAddrV6 {
    pub ip: [u8; 16],
    pub port: u16,
    pub scope_id: u32,
}

impl View for SocketAddrV6 {
    type V = SocketAddrV6;

    open spec fn view(&self) -> SocketAddrV6 {
        *self
    }
}

/// What `{:?}` prints for an IPv6 address with these fields.
pub uninterp spec fn v6_debug_text(ip: Seq<u8>, port: u16, scope_id: u32) -> Seq<char>;

/// `format!` with `{:?}` on the address, through the `Debug` that `derive`
/// wrote: the text depends on the three fields alone.
#[verifier::external_body]
fn v6_debug(a: &SocketAddrV6) -> (s: String)
    ensures
        s@ == v6_debug_text(a.ip@, a.port, a.scope_id),
{
    format!("{:?}", a)
}

impl SocketAddrV6 {
    /// The marshaled form: the family field in the machine's order, the port
    /// high byte first, four zero bytes of flow information, the sixteen
    /// address bytes, the scope id in the machine's order.
    pub open spec fn raw_bytes(self, order: ByteOrder) -> Seq<u8> {
        u16_field(order, 10) + u16_field(ByteOrder::Big, self.port) + zeros(4) + self.ip@
            + u32_field(order, self.scope_id)
    }

    /// The address that a form spells: the port from the bytes at 2 and 3,
    /// the address bytes from 8 to 23, the scope id from 24 to 27.
    pub open spec fn of_raw(raw: Seq<u8>, order: ByteOrder) -> SocketAddrV6
        recommends
            raw.len() >= 28,
    {
        SocketAddrV6 {
            ip: [
                raw[8],
                raw[9],
                raw[10],
                raw[11],
                raw[12],
                raw[13],
                raw[14],
                raw[15],
                raw[16],
                raw[17],
                raw[18],
                raw[19],
                raw[20],
                raw[21],
                raw[22],
                raw[23],
            ],
            port: u16_of(ByteOrder::Big, raw.subrange(2, 4)),
            scope_id: u32_of(order, raw.subrange(24, 28)),
        }
    }

    /// Creates a new IPv6 address, with scope id 0.
    pub fn new(ip: [u8; 16], port: u16) -> (a: Self)
        ensures
            a == (SocketAddrV6 { ip, port, scope_id: 0 }),
    {
        Self { ip, port, scope_id: 0 }
    }

    /// Creates with explicit scope ID.
    pub fn with_scope(ip: [u8; 16], port: u16, scope_id: u32) -> (a: Self)
        ensures
            a == (SocketAddrV6 { ip, port, scope_id }),
    {
        Self { ip, port, scope_id }
    }

    /// Returns the IP bytes.
    pub fn ip(&self) -> (r: [u8; 16])
        ensures
            r == self.ip,
    {
        self.ip
    }

    /// Returns the port.
    pub fn port(&self) -> (r: u16)
        ensures
            r == self.port,
    {
        self.port
    }

    /// Returns the scope ID.
    pub fn scope_id(&self) -> (r: u32)
        ensures
            r == self.scope_id,
    {
        self.scope_id
    }

    /// Marshals the address for a machine of the given byte order.
    pub fn to_raw(&self, order: ByteOrder) -> (r: Vec<u8>)
        ensures
            r@ == self.raw_bytes(order),
    {
        let family = order.put_u16(sys::af_inet6() as u16);
        let port = ByteOrder::Big.put_u16(self.port);
        let scope = order.put_u32(self.scope_id);
        let mut r: Vec<u8> = Vec::with_capacity(28);
        r.push(family[0]);
        r.push(family[1]);
        r.push(port[0]);
        r.push(port[1]);
        r.push(0);
        r.push(0);
        r.push(0);
        r.push(0);
        let ghost head = u16_field(order, 10) + u16_field(ByteOrder::Big, self.port) + zeros(4);
        assert(r@ =~= head);
        let mut i: usize = 0;
        while i < 16
            invariant
                i <= 16,
                r@ =~= head + self.ip@.subrange(0, i as int),
            decreases 16 - i,
        {
            r.push(self.ip[i]);
            i += 1;
        }
        assert(self.ip@.subrange(0, 16) =~= self.ip@);
        r.push(scope[0]);
        r.push(scope[1]);
        r.push(scope[2]);
        r.push(scope[3]);
        assert(r@ =~= head + self.ip@ + u32_field(order, self.scope_id));
        r
    }

    /// Rebuilds the address from its form, written on a machine of the given
    /// byte order.
    pub fn from_raw(raw: &[u8], order: ByteOrder) -> (a: Self)
        requires
            raw@.len() >= 28,
        ensures
            a == Self::of_raw(raw@, order),
    {
        let port: u16 = (raw[2] as u16) * 256 + (raw[3] as u16);
        let scope_id = order.get_u32([raw[24], raw[25], raw[26], raw[27]]);
        let ip: [u8; 16] = [
            raw[8],
            raw[9],
            raw[10],
            raw[11],
            raw[12],
            raw[13],
            raw[14],
            raw[15],
            raw[16],
            raw[17],
            raw[18],
            raw[19],
            raw[20],
            raw[21],
            raw[22],
            raw[23],
        ];
        assert([raw[24], raw[25], raw[26], raw[27]]@ =~= raw@.subrange(24, 28));
        Self { ip, port, scope_id }
    }
}

impl ToSockAddr for SocketAddrV6 {
    open spec fn marshals(&self) -> bool {
        true
    }

    open spec fn raw_form(&self, order: ByteOrder) -> Seq<u8> {
        self.raw_bytes(order)
    }

    open spec fn text(&self) -> Seq<char> {
        v6_debug_text(self.ip@, self.port, self.scope_id)
    }

    fn to_sockaddr(&self, order: ByteOrder) -> (r: Option<Vec<u8>>) {
        Some(self.to_raw(order))
    }

    fn with_raw<F, R>(&self, f: F) -> (r: Option<R>) where F: FnOnce(&[u8], u32) -> R {
        let order = ByteOrder::native();
        let raw = self.to_raw(order);
        let len: u32 = sys::sockaddr_in6_len() as u32;
        let form = raw.as_slice();
        let v = f(form, len);
        let r = Some(v);
        assert(form@ == self.raw_form(order) && call_ensures(
            f,
            (form, form@.len() as u32),
            r->0,
        ));
        r
    }

    fn describe(&self) -> (s: String) {
        v6_debug(self)
    }
}

impl FromSockAddr for SocketAddrV6 {
    open spec fn parsed(raw: Seq<u8>, len: u32, order: ByteOrder) -> Option<SocketAddrV6> {
        if len < 28 || raw.len() < 28 {
            None
        } else {
            Some(Self::of_raw(raw, order))
        }
    }

    fn from_sockaddr_with(raw: &[u8], len: u32, order: ByteOrder) -> (r: Option<Self>) {
        if (len as usize) < sys::sockaddr_in6_len() || raw.len() < sys::sockaddr_in6_len() {
            return None;
        }
        Some(Self::from_raw(raw, order))
    }

    fn from_sockaddr(raw: &[u8], len: u32) -> (r: Option<Self>) {
        let order = ByteOrder::native();
        let r = Self::from_sockaddr_with(raw, len, order);
        assert(match r {
            Some(a) => Self::parsed(raw@, len, order) == Some(a@),
            None => Self::parsed(raw@, len, order) is None,
        });
        r
    }
}

/// Marshaling an IPv6 address and rebuilding it from the form gives the
/// address back, scope id included, on a machine of either byte order.
pub proof fn lemma_v6_round_trip(a: SocketAddrV6, order: ByteOrder)
    ensures
        a.raw_bytes(order).len() == 28,
        SocketAddrV6::parsed(a.raw_bytes(order), 28, order) == Some(a),
{
    let raw = a.raw_bytes(order);
    lemma_u32_field_round_trip(order, a.scope_id);
    let b = SocketAddrV6::of_raw(raw, order);
    assert(raw.subrange(2, 4) =~= u16_field(ByteOrder::Big, a.port));
    assert(raw.subrange(24, 28) =~= u32_field(order, a.scope_id));
    assert(b.ip@ =~= a.ip@);
    assert(b.ip == a.ip);
}

} // verus!
