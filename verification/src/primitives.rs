//! Fixed-size byte values: account addresses, 32-byte digests and 65-byte
//! signatures. Each is viewed as the sequence of its bytes.

use vstd::prelude::*;

verus! {

/// A 20-byte account identifier.
#[derive(Clone, Copy, Debug, PartialEq, Eq)]
pub struct Address {
    pub bytes: [u8; 20],
}

/// A 32-byte digest: a message hash or a transaction's signing hash.
#[derive(Clone, Copy, Debug, PartialEq, Eq)]
pub struct Digest {
    pub bytes: [u8; 32],
}

/// A 65-byte recoverable signature: `r` (32 bytes), `s` (32 bytes), `v`.
#[derive(Clone, Copy, Debug, PartialEq, Eq)]
pub struct Signature {
    pub bytes: [u8; 65],
}

impl View for Address {
    type V = Seq<u8>;

    open spec fn view(&self) -> Seq<u8> {
        self.bytes@
    }
}

impl View for Digest {
    type V = Seq<u8>;

    open spec fn view(&self) -> Seq<u8> {
        self.bytes@
    }
}

impl View for Signature {
    type V = Seq<u8>;

    open spec fn view(&self) -> Seq<u8> {
        self.bytes@
    }
}

/// The views of a list of addresses, in order.
pub open spec fn addresses_view(list: Seq<Address>) -> Seq<Seq<u8>> {
    Seq::new(list.len(), |i: int| list[i]@)
}

impl Address {
    /// Reads an address from a byte slice: `Some` exactly when the slice holds
    /// twenty bytes, and then with those bytes.
    pub fn from_slice(bytes: &[u8]) -> (res: Option<Address>)
        ensures
            res is Some <==> bytes@.len() == 20,
            res matches Some(a) ==> a@ == bytes@,
    {
        if bytes.len() != 20 {
            return None;
        }
        let mut out: [u8; 20] = [0u8; 20];
        let mut i: usize = 0;
        while i < 20
            invariant
                i <= 20,
                bytes@.len() == 20,
                forall|j: int| 0 <= j < i ==> out@[j] == bytes@[j],
            decreases 20 - i,
        {
            out[i] = bytes[i];
            i += 1;
        }
        assert(out@ =~= bytes@);
        Some(Address { bytes: out })
    }

    /// The twenty bytes of the address.
    pub fn to_fixed_bytes(&self) -> (res: [u8; 20])
        ensures
            res@ == self@,
    {
        self.bytes
    }
}

impl Signature {
    /// Reads a signature from a byte slice: `Some` exactly when the slice
    /// holds sixty-five bytes, and then with those bytes.
    pub fn from_slice(bytes: &[u8]) -> (res: Option<Signature>)
        ensures
            res is Some <==> bytes@.len() == 65,
            res matches Some(s) ==> s@ == bytes@,
    {
        if bytes.len() != 65 {
            return None;
        }
        let mut out: [u8; 65] = [0u8; 65];
        let mut i: usize = 0;
        while i < 65
            invariant
                i <= 65,
                bytes@.len() == 65,
                forall|j: int| 0 <= j < i ==> out@[j] == bytes@[j],
            decreases 65 - i,
        {
            out[i] = bytes[i];
            i += 1;
        }
        assert(out@ =~= bytes@);
        Some(Signature { bytes: out })
    }
}

/// Copies a list of addresses.
pub fn copy_addresses(list: &Vec<Address>) -> (res: Vec<Address>)
    ensures
        addresses_view(res@) == addresses_view(list@),
        res@ == list@,
{
    let mut out: Vec<Address> = Vec::new();
    let mut i: usize = 0;
    while i < list.len()
        invariant
            i <= list.len(),
            out@ == list@.take(i as int),
        decreases list.len() - i,
    {
        out.push(list[i]);
        proof {
            assert(list@.take(i as int + 1) =~= list@.take(i as int).push(list@[i as int]));
        }
        i += 1;
    }
    proof {
        assert(list@.take(list@.len() as int) =~= list@);
    }
    out
}

} // verus!
