//! Fixed-length public identifiers and the byte-level helpers on them.

use vstd::prelude::*;

verus! {

/// Length in bytes of every public identifier and derived address.
pub const ID_LEN: usize = 32;

/// The public identifier of the vault's sole authorized user.
///
/// The host's signature-verification layer has proven that this identity
/// authorized the current request; this crate trusts that precondition and
/// records it as the signer flag of the supplied account.
pub struct OwnerIdentity {
    pub bytes: Vec<u8>,
}

impl View for OwnerIdentity {
    type V = Seq<u8>;

    open spec fn view(&self) -> Seq<u8> {
        self.bytes@
    }
}

impl OwnerIdentity {
    /// A well-formed identity is exactly [`ID_LEN`] bytes.
    pub open spec fn wf(&self) -> bool {
        self.bytes@.len() == ID_LEN
    }
}

/// An account address on the host ledger.
pub struct Address {
    pub bytes: Vec<u8>,
}

impl View for Address {
    type V = Seq<u8>;

    open spec fn view(&self) -> Seq<u8> {
        self.bytes@
    }
}

impl Address {
    /// A well-formed address is exactly [`ID_LEN`] bytes.
    pub open spec fn wf(&self) -> bool {
        self.bytes@.len() == ID_LEN
    }
}

/// Byte-for-byte equality of two byte strings.
pub fn bytes_eq(a: &Vec<u8>, b: &Vec<u8>) -> (r: bool)
    ensures
        r <==> a@ == b@,
{
    if a.len() != b.len() {
        return false;
    }
    let n = a.len();
    let mut i: usize = 0;
    while i < n
        invariant
            n == a@.len(),
            n == b@.len(),
            i <= n,
            forall|j: int| 0 <= j < i ==> a@[j] == b@[j],
        decreases n - i,
    {
        if a[i] != b[i] {
            return false;
        }
        i += 1;
    }
    proof {
        assert(a@ =~= b@);
    }
    true
}

/// An owned copy of a byte string.
pub fn copy_bytes(v: &Vec<u8>) -> (r: Vec<u8>)
    ensures
        r@ == v@,
{
    let n = v.len();
    let mut r: Vec<u8> = Vec::new();
    let mut i: usize = 0;
    while i < n
        invariant
            n == v@.len(),
            i <= n,
            r@ == v@.subrange(0, i as int),
        decreases n - i,
    {
        r.push(v[i]);
        proof {
            assert(r@ =~= v@.subrange(0, i + 1));
        }
        i += 1;
    }
    proof {
        assert(r@ =~= v@);
    }
    r
}

} // verus!
