//! Unix-domain sockets: the family marker and its address.

use vstd::prelude::*;
use vstd::slice::slice_to_vec;
use vstd::string::StringSliceAdditionalSpecFns;
use crate::addr::{ByteOrder, Domain, FromSockAddr, ToSockAddr, u16_field, zeros};
use crate::sys;

verus! {

/// Unix domain socket marker.
pub struct Unix;

impl Domain for Unix {
    type Addr = UnixAddr;

    open spec fn family() -> i32 {
        1
    }

    #[inline]
    fn raw() -> (r: i32) {
        sys::af_unix()
    }
}

/// Unix domain socket address: a filesystem path, or the name of an abstract
/// socket, which has no entry in the filesystem.
#[derive(Debug, Clone, PartialEq, Eq)]
pub struct UnixAddr {
    pub path: Vec<u8>,
    /// True if this is an abstract socket.
    pub is_abstract: bool,
}

/// What a Unix-domain address holds.
pub struct UnixAddrView {
    pub path: Seq<u8>,
    pub is_abstract: bool,
}

impl View for UnixAddr {
    type V = UnixAddrView;

    open spec fn view(&self) -> UnixAddrView {
        UnixAddrView { path: self.path@, is_abstract: self.is_abstract }
    }
}

/// The size of the path buffer in the marshaled form.
pub open spec fn path_capacity() -> nat {
    108
}

/// The index of the first null byte of `s` at or after `from`, or the length
/// of `s` where there is none.
pub open spec fn null_index(s: Seq<u8>, from: int) -> int
    decreases s.len() - from,
{
    if from >= s.len() || s[from] == 0 {
        from
    } else {
        null_index(s, from + 1)
    }
}

/// The bytes of `s` before its first null byte; all of `s` where it has none.
pub open spec fn until_null(s: Seq<u8>) -> Seq<u8> {
    s.subrange(0, null_index(s, 0))
}

impl UnixAddrView {
    /// Whether the address fits the path buffer: a filesystem path needs a
    /// null byte behind it, an abstract name a null byte in front of it and
    /// one behind.
    pub open spec fn fits(self) -> bool {
        if self.is_abstract {
            self.path.len() + 1 < path_capacity()
        } else {
            self.path.len() < path_capacity()
        }
    }

    /// The path buffer of the marshaled form: the path, or a null byte and
    /// the name, then null bytes to the end of the buffer.
    pub open spec fn path_field(self) -> Seq<u8>
        recommends
            self.fits(),
    {
        if self.is_abstract {
            seq![0u8] + self.path + zeros((path_capacity() - 1 - self.path.len()) as nat)
        } else {
            self.path + zeros((path_capacity() - self.path.len()) as nat)
        }
    }

    /// The marshaled form: the family field in the machine's order, then the
    /// path buffer.
    pub open spec fn raw_bytes(self, order: ByteOrder) -> Seq<u8>
        recommends
            self.fits(),
    {
        u16_field(order, 1) + self.path_field()
    }

    /// The address that a path buffer spells. Where its first byte is null
    /// the address is abstract and its name is what follows up to the next
    /// null byte or the end of the buffer; otherwise it is the filesystem
    /// path up to the first null byte.
    pub open spec fn of_path_field(field: Seq<u8>) -> UnixAddrView
        recommends
            field.len() == path_capacity(),
    {
        if field[0] == 0 {
            UnixAddrView { path: until_null(field.subrange(1, field.len() as int)), is_abstract: true }
        } else {
            UnixAddrView { path: until_null(field), is_abstract: false }
        }
    }

    /// The address that a marshaled form spells.
    pub open spec fn of_raw(raw: Seq<u8>) -> UnixAddrView
        recommends
            raw.len() >= 110,
    {
        Self::of_path_field(raw.subrange(2, 110))
    }

    /// Whether marshaling keeps the address as it is: it fits, no byte of it
    /// is null, and a filesystem path is not empty.
    pub open spec fn survives(self) -> bool {
        &&& self.fits()
        &&& forall|i: int| 0 <= i < self.path.len() ==> self.path[i] != 0
        &&& (self.is_abstract || self.path.len() > 0)
    }
}

/// What `{:?}` prints for a Unix-domain address with these fields.
pub uninterp spec fn unix_debug_text(path: Seq<u8>, is_abstract: bool) -> Seq<char>;

/// `format!` with `{:?}` on the address, through the `Debug` that `derive`
/// wrote: the text depends on the two fields alone.
#[verifier::external_body]
fn unix_debug(a: &UnixAddr) -> (s: String)
    ensures
        s@ == unix_debug_text(a.path@, a.is_abstract),
{
    format!("{:?}", a)
}

/// Copies the bytes of `s` before its first null byte.
fn copy_until_null(s: &[u8]) -> (r: Vec<u8>)
    ensures
        r@ == until_null(s@),
{
    let mut r: Vec<u8> = Vec::new();
    let mut i: usize = 0;
    while i < s.len() && s[i] != 0
        invariant
            i <= s.len(),
            null_index(s@, 0) == null_index(s@, i as int),
            r@ =~= s@.subrange(0, i as int),
        decreases s.len() - i,
    {
        r.push(s[i]);
        i += 1;
    }
    r
}

impl UnixAddr {
    /// Creates a new Unix address from a filesystem path.
    pub fn new(path: &[u8]) -> (a: Self)
        ensures
            a@ == (UnixAddrView { path: path@, is_abstract: false }),
    {
        Self { path: slice_to_vec(path), is_abstract: false }
    }

    /// Creates from a string path: the path is the bytes of the string.
    pub fn from_str(path: &str) -> (a: Self)
        ensures
            a@ == (UnixAddrView { path: path.spec_bytes(), is_abstract: false }),
    {
        Self { path: slice_to_vec(path.as_bytes()), is_abstract: false }
    }

    /// Creates an abstract socket address. The name may hold any bytes.
    pub fn abstract_socket(name: &[u8]) -> (a: Self)
        ensures
            a@ == (UnixAddrView { path: name@, is_abstract: true }),
    {
        Self { path: slice_to_vec(name), is_abstract: true }
    }

    /// Returns true if this is an abstract socket.
    pub fn is_abstract(&self) -> (r: bool)
        ensures
            r == self.is_abstract,
    {
        self.is_abstract
    }

    /// Returns the path bytes.
    pub fn path(&self) -> (r: &[u8])
        ensures
            r@ == self.path@,
    {
        self.path.as_slice()
    }

    /// Marshals the address for a machine of the given byte order. An
    /// address that does not fit the path buffer has no form: it is never
    /// cut short.
    pub fn to_raw(&self, order: ByteOrder) -> (r: Option<Vec<u8>>)
        ensures
            match r {
                Some(v) => self@.fits() && v@ == self@.raw_bytes(order),
                None => !self@.fits(),
            },
    {
        let capacity: usize = sys::sockaddr_un_len() - sys::family_field_len();
        let family = order.put_u16(sys::af_unix() as u16);
        let mut r: Vec<u8> = Vec::with_capacity(110);
        r.push(family[0]);
        r.push(family[1]);
        if self.is_abstract {
            if self.path.len() >= capacity - 1 {
                return None;
            }
            r.push(0);
        } else {
            if self.path.len() >= capacity {
                return None;
            }
        }
        let ghost head = r@;
        let mut i: usize = 0;
        while i < self.path.len()
            invariant
                i <= self.path.len(),
                r@ =~= head + self.path@.subrange(0, i as int),
            decreases self.path.len() - i,
        {
            r.push(self.path[i]);
            i += 1;
        }
        assert(self.path@.subrange(0, self.path@.len() as int) =~= self.path@);
        let ghost body = r@;
        while r.len() < 110
            invariant
                body.len() <= r.len() <= 110,
                r@ =~= body + zeros((r.len() - body.len()) as nat),
            decreases 110 - r.len(),
        {
            r.push(0);
        }
        assert(r@ =~= self@.raw_bytes(order));
        Some(r)
    }

    /// Rebuilds the address from its form.
    pub fn from_raw(raw: &[u8]) -> (a: Self)
        requires
            raw@.len() >= 110,
        ensures
            a@ == UnixAddrView::of_raw(raw@),
    {
        let field = vstd::slice::slice_subrange(raw, 2, 110);
        if field[0] == 0 {
            let rest = vstd::slice::slice_subrange(field, 1, 108);
            Self { path: copy_until_null(rest), is_abstract: true }
        } else {
            Self { path: copy_until_null(field), is_abstract: false }
        }
    }
}

impl ToSockAddr for UnixAddr {
    open spec fn marshals(&self) -> bool {
        self@.fits()
    }

    open spec fn raw_form(&self, order: ByteOrder) -> Seq<u8> {
        self@.raw_bytes(order)
    }

    open spec fn text(&self) -> Seq<char> {
        unix_debug_text(self.path@, self.is_abstract)
    }

    fn to_sockaddr(&self, order: ByteOrder) -> (r: Option<Vec<u8>>) {
        self.to_raw(order)
    }

    fn with_raw<F, R>(&self, f: F) -> (r: Option<R>) where F: FnOnce(&[u8], u32) -> R {
        let order = ByteOrder::native();
        match self.to_raw(order) {
            None => None,
            Some(raw) => {
                let len: u32 = sys::sockaddr_un_len() as u32;
                let form = raw.as_slice();
                assert(form@ == self.raw_form(order));
                let v = f(form, len);
                let r = Some(v);
                assert(form@ == self.raw_form(order) && call_ensures(
                    f,
                    (form, form@.len() as u32),
                    r->0,
                ));
                r
            },
        }
    }

    fn describe(&self) -> (s: String) {
        unix_debug(self)
    }
}

impl FromSockAddr for UnixAddr {
    open spec fn parsed(raw: Seq<u8>, len: u32, order: ByteOrder) -> Option<UnixAddrView> {
        if len < 2 || raw.len() < 110 {
            None
        } else {
            Some(UnixAddrView::of_raw(raw))
        }
    }

    fn from_sockaddr_with(raw: &[u8], len: u32, order: ByteOrder) -> (r: Option<Self>) {
        if (len as usize) < sys::family_field_len() || raw.len() < sys::sockaddr_un_len() {
            return None;
        }
        Some(Self::from_raw(raw))
    }

    fn from_sockaddr(raw: &[u8], len: u32) -> (r: Option<Self>) {
        let order = ByteOrder::native();
        let r = Self::from_sockaddr_with(raw, len, order);
        assert(match r {
            Some(a) => Self::parsed(raw@, len, order) == Some(a@),
            None => Self::parsed(raw@, len, order) is None,
        });
        r
    }
}

/// The first null byte at or after `from` lies between `from` and the end,
/// and no byte between `from` and it is null.
pub proof fn lemma_null_index_bounds(s: Seq<u8>, from: int)
    requires
        0 <= from <= s.len(),
    ensures
        from <= null_index(s, from) <= s.len(),
        null_index(s, from) < s.len() ==> s[null_index(s, from)] == 0,
        forall|i: int| from <= i < null_index(s, from) ==> s[i] != 0,
    decreases s.len() - from,
{
    if from < s.len() && s[from] != 0 {
        lemma_null_index_bounds(s, from + 1);
    }
}

/// Null bytes behind a sequence do not move its first null byte.
pub proof fn lemma_null_index_padded(p: Seq<u8>, k: nat, from: int)
    requires
        k >= 1,
        0 <= from <= p.len(),
    ensures
        null_index(p + zeros(k), from) == null_index(p, from),
    decreases p.len() - from,
{
    let s = p + zeros(k);
    if from < p.len() {
        assert(s[from] == p[from]);
        if p[from] != 0 {
            lemma_null_index_padded(p, k, from + 1);
        }
    } else {
        assert(s[from] == 0);
    }
}

/// A sequence without null bytes has its first null byte at its end.
pub proof fn lemma_null_index_none(p: Seq<u8>, from: int)
    requires
        0 <= from <= p.len(),
        forall|i: int| 0 <= i < p.len() ==> p[i] != 0,
    ensures
        null_index(p, from) == p.len(),
    decreases p.len() - from,
{
    if from < p.len() {
        lemma_null_index_none(p, from + 1);
    }
}

/// What comes back when an address that fits is marshaled and rebuilt. An
/// abstract address stays abstract and keeps its name up to the first null
/// byte in it. A filesystem path that starts with a byte other than null
/// stays a filesystem path, up to its first null byte.
pub proof fn lemma_unix_marshal_then_parse(a: UnixAddrView, order: ByteOrder)
    requires
        a.fits(),
        a.is_abstract || (a.path.len() > 0 && a.path[0] != 0),
    ensures
        a.raw_bytes(order).len() == 110,
        UnixAddr::parsed(a.raw_bytes(order), 110, order) == Some(
            UnixAddrView { path: until_null(a.path), is_abstract: a.is_abstract },
        ),
{
    let raw = a.raw_bytes(order);
    let field = a.path_field();
    assert(u16_field(order, 1).len() == 2);
    assert(field.len() == 108);
    assert(raw.subrange(2, 110) =~= field);
    lemma_null_index_bounds(a.path, 0);
    if a.is_abstract {
        let k = (path_capacity() - 1 - a.path.len()) as nat;
        assert(field.subrange(1, field.len() as int) =~= a.path + zeros(k));
        lemma_null_index_padded(a.path, k, 0);
        assert(until_null(a.path + zeros(k)) =~= until_null(a.path));
    } else {
        let k = (path_capacity() - a.path.len()) as nat;
        lemma_null_index_padded(a.path, k, 0);
        assert(field[0] == a.path[0]);
        assert(until_null(a.path + zeros(k)) =~= until_null(a.path));
    }
}

/// Marshaling a Unix-domain address that holds no null byte (and whose
/// filesystem path is not empty) and rebuilding it from the form gives the
/// address back.
pub proof fn lemma_unix_round_trip(a: UnixAddrView, order: ByteOrder)
    requires
        a.survives(),
    ensures
        UnixAddr::parsed(a.raw_bytes(order), 110, order) == Some(a),
{
    lemma_unix_marshal_then_parse(a, order);
    lemma_null_index_none(a.path, 0);
    assert(until_null(a.path) =~= a.path);
}

/// The index of the first byte of `s` at or after `from` that is not null,
/// or the length of `s` where there is none.
pub open spec fn nonnull_index(s: Seq<u8>, from: int) -> int
    decreases s.len() - from,
{
    if from >= s.len() || s[from] != 0 {
        from
    } else {
        nonnull_index(s, from + 1)
    }
}

/// The first byte that is not null lies between `from` and the end, every
/// byte between `from` and it is null, and it lies before the end where
/// some byte at or after `from` is not null.
pub proof fn lemma_nonnull_index_bounds(s: Seq<u8>, from: int)
    requires
        0 <= from <= s.len(),
    ensures
        from <= nonnull_index(s, from) <= s.len(),
        nonnull_index(s, from) < s.len() ==> s[nonnull_index(s, from)] != 0,
        forall|i: int| from <= i < nonnull_index(s, from) ==> s[i] == 0,
        (exists|i: int| from <= i < s.len() && s[i] != 0) ==> nonnull_index(s, from) < s.len(),
    decreases s.len() - from,
{
    if from < s.len() && s[from] == 0 {
        lemma_nonnull_index_bounds(s, from + 1);
    }
}

/// A name that fits as an abstract name and holds a byte other than null is
/// marshaled differently as an abstract name and as a filesystem path.
pub proof fn lemma_abstract_form_differs(name: Seq<u8>, order: ByteOrder)
    requires
        name.len() + 1 < path_capacity(),
        exists|i: int| 0 <= i < name.len() && name[i] != 0,
    ensures
        (UnixAddrView { path: name, is_abstract: true }).raw_bytes(order) != (UnixAddrView {
            path: name,
            is_abstract: false,
        }).raw_bytes(order),
{
    let x = (UnixAddrView { path: name, is_abstract: true }).raw_bytes(order);
    let y = (UnixAddrView { path: name, is_abstract: false }).raw_bytes(order);
    lemma_nonnull_index_bounds(name, 0);
    let k = nonnull_index(name, 0);
    assert(u16_field(order, 1).len() == 2);
    assert(y[2 + k] == name[k]);
    if k == 0 {
        assert(x[2] == 0);
    } else {
        assert(x[2 + k] == name[k - 1]);
    }
}

} // verus!
