//! Byte decomposition of fixed-width keys.
//!
//! This module is the sole place where byte order is defined: chunk 0 is the
//! least-significant byte. Every hash variant decomposes its key here.

use vstd::prelude::*;

verus! {

/// The four bytes of a 32-bit key, least-significant first.
pub open spec fn chunks_of_32(x: u32) -> Seq<u8> {
    seq![
        (x & 0xFF) as u8,
        ((x >> 8) & 0xFF) as u8,
        ((x >> 16) & 0xFF) as u8,
        ((x >> 24) & 0xFF) as u8,
    ]
}

/// The eight bytes of a 64-bit key, least-significant first.
pub open spec fn chunks_of_64(x: u64) -> Seq<u8> {
    seq![
        (x & 0xFF) as u8,
        ((x >> 8) & 0xFF) as u8,
        ((x >> 16) & 0xFF) as u8,
        ((x >> 24) & 0xFF) as u8,
        ((x >> 32) & 0xFF) as u8,
        ((x >> 40) & 0xFF) as u8,
        ((x >> 48) & 0xFF) as u8,
        ((x >> 56) & 0xFF) as u8,
    ]
}

/// Split a 32-bit number into its 8-bit chunks, least-significant first.
pub fn byte_chunks_32(x: u32) -> (r: [u8; 4])
    ensures
        r@ == chunks_of_32(x),
{
    proof {
        assert(x & 0xFF < 256 && (x >> 8) & 0xFF < 256 && (x >> 16) & 0xFF < 256 && (x >> 24)
            & 0xFF < 256) by (bit_vector);
    }
    let r = [
        (x & 0xFF) as u8,
        ((x >> 8) & 0xFF) as u8,
        ((x >> 16) & 0xFF) as u8,
        ((x >> 24) & 0xFF) as u8,
    ];
    proof {
        assert(r@ =~= chunks_of_32(x));
    }
    r
}

/// Split a 64-bit number into its 8-bit chunks, least-significant first.
pub fn byte_chunks_64(x: u64) -> (r: [u8; 8])
    ensures
        r@ == chunks_of_64(x),
{
    proof {
        assert(x & 0xFF < 256 && (x >> 8) & 0xFF < 256 && (x >> 16) & 0xFF < 256 && (x >> 24)
            & 0xFF < 256 && (x >> 32) & 0xFF < 256 && (x >> 40) & 0xFF < 256 && (x >> 48) & 0xFF
            < 256 && (x >> 56) & 0xFF < 256) by (bit_vector);
    }
    let r = [
        (x & 0xFF) as u8,
        ((x >> 8) & 0xFF) as u8,
        ((x >> 16) & 0xFF) as u8,
        ((x >> 24) & 0xFF) as u8,
        ((x >> 32) & 0xFF) as u8,
        ((x >> 40) & 0xFF) as u8,
        ((x >> 48) & 0xFF) as u8,
        ((x >> 56) & 0xFF) as u8,
    ];
    proof {
        assert(r@ =~= chunks_of_64(x));
    }
    r
}

} // verus!
