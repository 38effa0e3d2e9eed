//! Identities and deterministic record addressing.
use vstd::prelude::*;
use vstd::string::StringSliceAdditionalSpecFns;
use vstd::utf8::{encode_utf8, encode_utf8_decode_utf8};

verus! {

/// Length in bytes of an identity (a manufacturer's public key).
pub const IDENTITY_LEN: usize = 32;

/// A verified principal: the 32-byte public key of a caller or a record owner.
#[derive(Clone, Copy, Debug)]
pub struct Identity {
    pub bytes: [u8; 32],
}

impl View for Identity {
    type V = Seq<u8>;

    open spec fn view(&self) -> Seq<u8> {
        self.bytes@
    }
}

impl Identity {
    pub fn new(bytes: [u8; 32]) -> (r: Identity)
        ensures
            r@ == bytes@,
    {
        Identity { bytes }
    }

    /// Whether two identities name the same principal.
    pub fn same_as(&self, other: &Identity) -> (r: bool)
        ensures
            r == (self@ == other@),
    {
        let mut i: usize = 0;
        while i < IDENTITY_LEN
            invariant
                i <= IDENTITY_LEN,
                self@.len() == 32,
                other@.len() == 32,
                forall|k: int| 0 <= k < i ==> self@[k] == other@[k],
            decreases IDENTITY_LEN - i,
        {
            if self.bytes[i] != other.bytes[i] {
                return false;
            }
            i = i + 1;
        }
        assert(self@ =~= other@);
        true
    }
}

/// The namespace under which batch records are addressed ("batch").
pub open spec fn batch_namespace() -> Seq<u8> {
    seq![98u8, 97u8, 116u8, 99u8, 104u8]
}

/// The namespace under which manufacturer entries are addressed ("manufacturer").
pub open spec fn manufacturer_namespace() -> Seq<u8> {
    seq![109u8, 97u8, 110u8, 117u8, 102u8, 97u8, 99u8, 116u8, 117u8, 114u8, 101u8, 114u8]
}

/// The address of the batch that `owner` registered under the human identifier
/// `batch_id`: the namespace, the owner's 32 bytes, then the identifier's UTF-8 bytes.
pub open spec fn batch_address(owner: Seq<u8>, batch_id: Seq<char>) -> Seq<u8> {
    batch_namespace() + owner + encode_utf8(batch_id)
}

/// The address of the registry entry of manufacturer `owner`.
pub open spec fn manufacturer_address(owner: Seq<u8>) -> Seq<u8> {
    manufacturer_namespace() + owner
}

/// Distinct (owner, identifier) pairs never share a batch address.
pub proof fn lemma_batch_address_injective(
    owner1: Seq<u8>,
    id1: Seq<char>,
    owner2: Seq<u8>,
    id2: Seq<char>,
)
    requires
        owner1.len() == IDENTITY_LEN,
        owner2.len() == IDENTITY_LEN,
        batch_address(owner1, id1) == batch_address(owner2, id2),
    ensures
        owner1 == owner2,
        id1 == id2,
{
    let a = batch_address(owner1, id1);
    let n: int = batch_namespace().len() as int;
    assert(owner1 =~= a.subrange(n, n + 32));
    assert(owner2 =~= a.subrange(n, n + 32));
    assert(encode_utf8(id1) =~= a.subrange(n + 32, a.len() as int));
    assert(encode_utf8(id2) =~= a.subrange(n + 32, a.len() as int));
    encode_utf8_decode_utf8(id1);
    encode_utf8_decode_utf8(id2);
}

/// Distinct owners never share a manufacturer-entry address.
pub proof fn lemma_manufacturer_address_injective(owner1: Seq<u8>, owner2: Seq<u8>)
    requires
        manufacturer_address(owner1) == manufacturer_address(owner2),
    ensures
        owner1 == owner2,
{
    let a = manufacturer_address(owner1);
    let n: int = manufacturer_namespace().len() as int;
    assert(owner1 =~= a.subrange(n, a.len() as int));
    assert(owner2 =~= a.subrange(n, a.len() as int));
}

/// Appends the bytes of `src` to `out`.
pub(crate) fn append_bytes(out: &mut Vec<u8>, src: &[u8])
    ensures
        final(out)@ == old(out)@ + src@,
{
    let mut i: usize = 0;
    while i < src.len()
        invariant
            i <= src@.len(),
            out@ == old(out)@ + src@.subrange(0, i as int),
        decreases src@.len() - i,
    {
        out.push(src[i]);
        i = i + 1;
        assert(src@.subrange(0, i as int) =~= src@.subrange(0, i - 1).push(src@[i - 1]));
    }
    assert(src@.subrange(0, i as int) =~= src@);
}

/// Appends the 32 bytes of `id` to `out`.
fn append_identity(out: &mut Vec<u8>, id: &Identity)
    ensures
        final(out)@ == old(out)@ + id@,
{
    let mut i: usize = 0;
    while i < IDENTITY_LEN
        invariant
            i <= IDENTITY_LEN,
            id@.len() == 32,
            out@ == old(out)@ + id@.subrange(0, i as int),
        decreases IDENTITY_LEN - i,
    {
        out.push(id.bytes[i]);
        i = i + 1;
        assert(id@.subrange(0, i as int) =~= id@.subrange(0, i - 1).push(id@[i - 1]));
    }
    assert(id@.subrange(0, i as int) =~= id@);
}

/// Computes the address of the batch that `owner` registers as `batch_id`.
pub fn derive_batch_address(owner: &Identity, batch_id: &String) -> (r: Vec<u8>)
    ensures
        r@ == batch_address(owner@, batch_id@),
{
    let mut r: Vec<u8> = Vec::new();
    r.push(98u8);
    r.push(97u8);
    r.push(116u8);
    r.push(99u8);
    r.push(104u8);
    assert(r@ =~= batch_namespace());
    append_identity(&mut r, owner);
    let id_bytes: &[u8] = batch_id.as_str().as_bytes();
    append_bytes(&mut r, id_bytes);
    r
}

/// Computes the address of the registry entry of manufacturer `owner`.
pub fn derive_manufacturer_address(owner: &Identity) -> (r: Vec<u8>)
    ensures
        r@ == manufacturer_address(owner@),
{
    let mut r: Vec<u8> = Vec::new();
    r.push(109u8);
    r.push(97u8);
    r.push(110u8);
    r.push(117u8);
    r.push(102u8);
    r.push(97u8);
    r.push(99u8);
    r.push(116u8);
    r.push(117u8);
    r.push(114u8);
    r.push(101u8);
    r.push(114u8);
    assert(r@ =~= manufacturer_namespace());
    append_identity(&mut r, owner);
    r
}

/// Whether two byte strings are equal.
pub fn bytes_equal(a: &[u8], b: &[u8]) -> (r: bool)
    ensures
        r == (a@ == b@),
{
    if a.len() != b.len() {
        return false;
    }
    let mut i: usize = 0;
    while i < a.len()
        invariant
            i <= a@.len(),
            a@.len() == b@.len(),
            forall|k: int| 0 <= k < i ==> a@[k] == b@[k],
        decreases a@.len() - i,
    {
        if a[i] != b[i] {
            return false;
        }
        i = i + 1;
    }
    assert(a@ =~= b@);
    true
}

} // verus!
