//! Identity of file content.

use vstd::prelude::*;

verus! {

/// Where the content identity of empty content stands.
pub const CONTENT_HASH_BASIS: u64 = 0xcbf29ce484222325;

/// The multiplier of one step of the content identity.
pub const CONTENT_HASH_PRIME: u64 = 0x100000001b3;

/// The identity of `content`: FNV-1a over its bytes, in 64 bits.
pub open spec fn content_hash(content: Seq<u8>) -> u64
    decreases content.len(),
{
    if content.len() == 0 {
        CONTENT_HASH_BASIS
    } else {
        let mixed = content_hash(content.drop_last()) ^ (content.last() as u64);
        ((mixed as int * CONTENT_HASH_PRIME as int) % 0x1_0000_0000_0000_0000) as u64
    }
}

/// Computes the identity of `content`.
pub fn hash_content(content: &[u8]) -> (hash: u64)
    ensures
        hash == content_hash(content@),
{
    let mut hash: u64 = CONTENT_HASH_BASIS;
    let mut i: usize = 0;
    proof {
        assert(content@.take(0) =~= Seq::<u8>::empty());
    }
    while i < content.len()
        invariant
            i <= content.len(),
            hash == content_hash(content@.take(i as int)),
        decreases content.len() - i,
    {
        let mixed: u64 = hash ^ (content[i] as u64);
        proof {
            assert(content@.take(i as int + 1).drop_last() =~= content@.take(i as int));
            assert(content@.take(i as int + 1).last() == content@[i as int]);
        }
        hash = mixed.wrapping_mul(CONTENT_HASH_PRIME);
        i += 1;
    }
    proof {
        assert(content@.take(content@.len() as int) =~= content@);
    }
    hash
}

/// The same bytes once more.
pub(crate) fn copy_bytes(bytes: &[u8]) -> (copy: Vec<u8>)
    ensures
        copy@ == bytes@,
{
    let mut copy: Vec<u8> = Vec::new();
    copy.extend_from_slice(bytes);
    proof {
        assert(copy@ =~= bytes@);
    }
    copy
}

} // verus!
