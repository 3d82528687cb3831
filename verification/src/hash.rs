use vstd::prelude::*;

verus! {

/// Offset basis of the 64-bit FNV-1a digest.
pub const FNV_OFFSET_BASIS: u64 = 0xcbf29ce484222325;

/// Prime of the 64-bit FNV-1a digest.
pub const FNV_PRIME: u64 = 0x100000001b3;

/// The 64-bit FNV-1a digest of a byte sequence: starting from the offset
/// basis, each byte is folded in by xor followed by a wrapping
/// multiplication with the FNV prime.
pub open spec fn fnv1a_64(bytes: Seq<u8>) -> u64
    decreases bytes.len(),
{
    if bytes.len() == 0 {
        FNV_OFFSET_BASIS
    } else {
        (fnv1a_64(bytes.drop_last()) ^ (bytes.last() as u64)).wrapping_mul(FNV_PRIME)
    }
}

/// The commitment digest of a lyrics string: the 64-bit FNV-1a digest of its
/// UTF-8 bytes. The digest is fixed by this definition alone, so commitments
/// are reproducible across builds and machines.
pub open spec fn lyrics_digest(s: Seq<char>) -> u64 {
    fnv1a_64(vstd::utf8::encode_utf8(s))
}

/// Computes the commitment digest of `lyrics`.
pub fn hash_lyrics(lyrics: &str) -> (h: u64)
    ensures
        h == lyrics_digest(lyrics@),
{
    let bytes: &[u8] = lyrics.as_bytes();
    let mut h: u64 = FNV_OFFSET_BASIS;
    let mut i: usize = 0;
    proof {
        assert(bytes@.take(0) =~= Seq::<u8>::empty());
    }
    while i < bytes.len()
        invariant
            i <= bytes@.len(),
            h == fnv1a_64(bytes@.take(i as int)),
        decreases bytes@.len() - i,
    {
        let b = bytes[i];
        proof {
            assert(bytes@.take(i + 1).drop_last() =~= bytes@.take(i as int));
            assert(bytes@.take(i + 1).last() == bytes@[i as int]);
        }
        h = (h ^ (b as u64)).wrapping_mul(FNV_PRIME);
        i = i + 1;
    }
    proof {
        assert(bytes@.take(bytes@.len() as int) =~= bytes@);
    }
    h
}

} // verus!
