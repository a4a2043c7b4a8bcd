use vstd::prelude::*;

verus! {

/// The address carried by one interface record, as the operating system
/// reported it. IPv6 bytes are kept in network order.
#[derive(Clone, Copy, Debug)]
pub enum SockAddr {
    V4([u8; 4]),
    V6([u8; 16]),
    /// A family other than IPv4 and IPv6 (a link-layer address, for one).
    Other(u16),
}

/// The 16-bit group `i` of an IPv6 address given as 16 bytes in network order.
pub open spec fn group_of(b: Seq<u8>, i: int) -> int {
    b[2 * i] as int * 256 + b[2 * i + 1] as int
}

/// Converts one big-endian byte pair to the group it encodes.
fn group_from_bytes(hi: u8, lo: u8) -> (r: u16)
    ensures
        r as int == hi as int * 256 + lo as int,
{
    (hi as u16) * 256 + (lo as u16)
}

/// The eight groups of an IPv6 address, in host order.
pub fn ipv6_groups(b: &[u8; 16]) -> (r: [u16; 8])
    ensures
        forall|i: int| 0 <= i < 8 ==> #[trigger] r@[i] as int == group_of(b@, i),
{
    let mut r: [u16; 8] = [0u16; 8];
    let mut i: usize = 0;
    while i < 8
        invariant
            0 <= i <= 8,
            r@.len() == 8,
            b@.len() == 16,
            forall|k: int| 0 <= k < i ==> #[trigger] r@[k] as int == group_of(b@, k),
        decreases 8 - i,
    {
        r[i] = group_from_bytes(b[2 * i], b[2 * i + 1]);
        i = i + 1;
    }
    r
}


/// Whether an optional address is an IPv6 one.
pub open spec fn is_ipv6_addr(a: Option<SockAddr>) -> bool {
    a matches Some(SockAddr::V6(_))
}

/// One entry of the host's interface list: a name and the address it carries,
/// if any. An interface appears once per configured address.
#[derive(Clone, Debug)]
pub struct IfAddr {
    name: Vec<u8>,
    addr: Option<SockAddr>,
}

impl IfAddr {
    /// The interface name, as bytes.
    pub closed spec fn spec_name(&self) -> Seq<u8> {
        self.name@
    }

    /// The address of this entry.
    pub closed spec fn spec_addr(&self) -> Option<SockAddr> {
        self.addr
    }

    pub fn new(name: Vec<u8>, addr: Option<SockAddr>) -> (r: IfAddr)
        ensures
            r.spec_name() == name@,
            r.spec_addr() == addr,
    {
        IfAddr { name, addr }
    }

    pub fn name(&self) -> (r: &[u8])
        ensures
            r@ == self.spec_name(),
    {
        self.name.as_slice()
    }

    pub fn addr(&self) -> (r: Option<SockAddr>)
        ensures
            r == self.spec_addr(),
    {
        self.addr
    }

    pub fn is_ipv6(&self) -> (r: bool)
        ensures
            r == is_ipv6_addr(self.spec_addr()),
    {
        match self.addr {
            Some(SockAddr::V6(_)) => true,
            _ => false,
        }
    }

    /// The eight groups of this entry's address, when it is an IPv6 one.
    pub fn get_ipv6_addr(&self) -> (r: Option<[u16; 8]>)
        ensures
            r is None <==> !is_ipv6_addr(self.spec_addr()),
            forall|b: [u8; 16]| #[trigger] self.spec_addr() == Some(SockAddr::V6(b)) ==> r is Some
                && forall|i: int| 0 <= i < 8 ==> #[trigger] r->0@[i] as int == group_of(b@, i),
    {
        match &self.addr {
            Some(SockAddr::V6(b)) => Some(ipv6_groups(b)),
            _ => None,
        }
    }
}


/// Byte-for-byte equality of two names.
pub fn names_equal(a: &[u8], b: &[u8]) -> (r: bool)
    ensures
        r == (a@ == b@),
{
    if a.len() != b.len() {
        return false;
    }
    let mut i: usize = 0;
    while i < a.len()
        invariant
            a@.len() == b@.len(),
            0 <= i <= a@.len(),
            forall|k: int| 0 <= k < i ==> a@[k] == b@[k],
        decreases a@.len() - i,
    {
        if a[i] != b[i] {
            return false;
        }
        i = i + 1;
    }
    assert(a@ =~= b@);
    true
}

/// Entry `i` has the name `iface` and carries an IPv6 address.
pub open spec fn ipv6_entry_at(recs: Seq<IfAddr>, iface: Seq<u8>, i: int) -> bool {
    &&& 0 <= i < recs.len()
    &&& recs[i].spec_name() == iface
    &&& is_ipv6_addr(recs[i].spec_addr())
}

/// Some entry has the name `iface` and carries an IPv6 address.
pub open spec fn has_ipv6_entry(recs: Seq<IfAddr>, iface: Seq<u8>) -> bool {
    exists|i: int| ipv6_entry_at(recs, iface, i)
}

/// Entry `i` is the first that has the name `iface` and an IPv6 address.
pub open spec fn first_ipv6_entry(recs: Seq<IfAddr>, iface: Seq<u8>, i: int) -> bool {
    &&& ipv6_entry_at(recs, iface, i)
    &&& forall|j: int| 0 <= j < i ==> !ipv6_entry_at(recs, iface, j)
}

/// A snapshot of the host's interface list, in the order the host gave it.
#[derive(Clone, Debug)]
pub struct IfAddrs {
    records: Vec<IfAddr>,
}

impl View for IfAddrs {
    type V = Seq<IfAddr>;

    closed spec fn view(&self) -> Seq<IfAddr> {
        self.records@
    }
}

impl IfAddrs {
    pub fn from_records(records: Vec<IfAddr>) -> (r: IfAddrs)
        ensures
            r@ == records@,
    {
        IfAddrs { records }
    }

    pub fn len(&self) -> (r: usize)
        ensures
            r == self@.len(),
    {
        self.records.len()
    }

    pub fn get(&self, i: usize) -> (r: &IfAddr)
        requires
            i < self@.len(),
        ensures
            *r == self@[i as int],
    {
        &self.records[i]
    }

    /// A cursor over the entries, from the first.
    pub fn iter(&self) -> (r: IfAddrIter<'_>)
        ensures
            r.addrs() == self,
            r.pos() == 0,
    {
        IfAddrIter { addrs: self, pos: 0 }
    }

    /// The position of the first entry named `iface` that carries an IPv6
    /// address; `None` where no entry of that name carries one, whether the
    /// name is absent or present with other families only.
    pub fn find_ipv6(&self, iface: &[u8]) -> (r: Option<usize>)
        ensures
            r is None <==> !has_ipv6_entry(self@, iface@),
            r matches Some(i) ==> first_ipv6_entry(self@, iface@, i as int),
    {
        let mut i: usize = 0;
        while i < self.records.len()
            invariant
                0 <= i <= self@.len(),
                forall|j: int| 0 <= j < i ==> !ipv6_entry_at(self@, iface@, j),
            decreases self@.len() - i,
        {
            let rec = &self.records[i];
            if names_equal(rec.name(), iface) && rec.is_ipv6() {
                assert(ipv6_entry_at(self@, iface@, i as int));
                return Some(i);
            }
            i = i + 1;
        }
        None
    }
}

/// A single-pass cursor over the entries of an [`IfAddrs`].
pub struct IfAddrIter<'a> {
    addrs: &'a IfAddrs,
    pos: usize,
}

impl<'a> IfAddrIter<'a> {
    /// The snapshot walked.
    pub closed spec fn addrs(&self) -> &'a IfAddrs {
        self.addrs
    }

    /// How many entries have been handed out.
    pub closed spec fn pos(&self) -> int {
        self.pos as int
    }

    /// The next entry, or `None` once all have been handed out.
    pub fn next(&mut self) -> (r: Option<&'a IfAddr>)
        requires
            old(self).pos() <= old(self).addrs()@.len(),
        ensures
            final(self).addrs() == old(self).addrs(),
            old(self).pos() < old(self).addrs()@.len() ==> r == Some(&old(self).addrs()@[old(self).pos()])
                && final(self).pos() == old(self).pos() + 1,
            old(self).pos() == old(self).addrs()@.len() ==> r is None
                && final(self).pos() == old(self).pos(),
    {
        if self.pos < self.addrs.records.len() {
            let r = &self.addrs.records[self.pos];
            self.pos = self.pos + 1;
            Some(r)
        } else {
            None
        }
    }
}


/// The host's name-to-index lookup failed for a matched entry (the interface
/// went away after the snapshot was taken, for one).
#[derive(Clone, Copy, Debug, PartialEq, Eq, Structural)]
pub struct LookupFailed;

/// Reads the answer of the host's name-to-index lookup, where zero means
/// that the lookup failed: a failure is an error, never "not found".
pub fn scope_from_lookup(raw: u32) -> (r: Result<u32, LookupFailed>)
    ensures
        raw == 0 <==> r is Err,
        raw != 0 ==> r == Ok::<u32, LookupFailed>(raw),
{
    if raw == 0 {
        Err(LookupFailed)
    } else {
        Ok(raw)
    }
}

/// A name that no entry carries resolves to "not found".
pub proof fn lemma_absent_name_not_found(recs: Seq<IfAddr>, iface: Seq<u8>)
    requires
        forall|i: int| 0 <= i < recs.len() ==> #[trigger] recs[i].spec_name() != iface,
    ensures
        !has_ipv6_entry(recs, iface),
{
}

/// A name whose entries carry no IPv6 address (an interface with IPv4 only)
/// resolves to "not found", though the interface exists.
pub proof fn lemma_no_ipv6_not_found(recs: Seq<IfAddr>, iface: Seq<u8>)
    requires
        forall|i: int| 0 <= i < recs.len() && #[trigger] recs[i].spec_name() == iface
            ==> !is_ipv6_addr(recs[i].spec_addr()),
    ensures
        !has_ipv6_entry(recs, iface),
{
}

/// Where some entry of the name carries an IPv6 address, there is a first
/// such entry, and it bears that very name: the index lookup is made for
/// the name asked about.
pub proof fn lemma_ipv6_entry_found(recs: Seq<IfAddr>, iface: Seq<u8>)
    requires
        has_ipv6_entry(recs, iface),
    ensures
        exists|i: int| #[trigger] first_ipv6_entry(recs, iface, i)
            && recs[i].spec_name() == iface,
{
    let w = choose|w: int| ipv6_entry_at(recs, iface, w);
    lemma_first_from(recs, iface, 0, w);
}

proof fn lemma_first_from(recs: Seq<IfAddr>, iface: Seq<u8>, k: int, w: int)
    requires
        0 <= k <= w,
        ipv6_entry_at(recs, iface, w),
        forall|j: int| 0 <= j < k ==> !ipv6_entry_at(recs, iface, j),
    ensures
        exists|i: int| #[trigger] first_ipv6_entry(recs, iface, i)
            && recs[i].spec_name() == iface,
    decreases w - k,
{
    if ipv6_entry_at(recs, iface, k) {
        assert(first_ipv6_entry(recs, iface, k));
    } else {
        lemma_first_from(recs, iface, k + 1, w);
    }
}

} // verus!
