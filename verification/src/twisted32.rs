//! Twisted tabulation hashing for 32-bit keys.
//!
//! Twisted tabulation achieves stronger concentration bounds than simple
//! tabulation by making the last lookup depend on the hash computed so far.
//! The accumulator is twice as wide as the key; its low half only randomizes
//! the derived last index and is shifted out of the result.

use vstd::prelude::*;

use crate::chunks::byte_chunks_32;
use crate::chunks::chunks_of_32;
use crate::codec::TableError;
use crate::codec::well_shaped;

verus! {

/// XOR of the first `n` table lookups for key `x`: cell `t[i]` at the row
/// given by byte chunk `i` of the key, for each `i` below `n`. The twisted
/// scheme folds only the first 3 chunks this way.
pub open spec fn twisted32_fold(t: Seq<Seq<u64>>, x: u32, n: int) -> u64
    recommends
        well_shaped(t, 4),
        0 <= n <= 3,
    decreases n,
{
    if n <= 0 {
        0
    } else {
        twisted32_fold(t, x, n - 1) ^ t[n - 1][chunks_of_32(x)[n - 1] as int]
    }
}

/// The derived row for the last column: the last byte chunk of the key XORed
/// with the low 8 bits of the accumulator after the first 3 folds.
pub open spec fn twisted32_last_index(t: Seq<Seq<u64>>, x: u32) -> u8
    recommends
        well_shaped(t, 4),
{
    chunks_of_32(x)[3] ^ ((twisted32_fold(t, x, 3) & 0xFF) as u8)
}

/// The twisted tabulation hash of `x` under table `t`: fold the first 3
/// chunks, fold the last column's cell at the derived row, then discard the
/// low 32 bits of the 64-bit accumulator.
pub open spec fn twisted32_hash(t: Seq<Seq<u64>>, x: u32) -> u32
    recommends
        well_shaped(t, 4),
{
    (((twisted32_fold(t, x, 3) ^ t[3][twisted32_last_index(t, x) as int]) >> 32) as u32)
}

/// A universal hash function for 32-bit integers using twisted tabulation:
/// a table of 4 columns by 256 rows of random 64-bit cells, consulted
/// byte-by-byte against the key with a derived last lookup.
#[derive(Clone)]
pub struct Tab32Twisted {
    table: [[u64; 256]; 4],
}

impl View for Tab32Twisted {
    type V = Seq<Seq<u64>>;

    closed spec fn view(&self) -> Seq<Seq<u64>> {
        Seq::new(4, |i: int| self.table@[i]@)
    }
}

impl Tab32Twisted {
    /// Create a new twisted tabulation hash function with a random table.
    pub fn new() -> (r: Self)
        ensures
            well_shaped(r@, 4),
    {
        let r = Tab32Twisted { table: Self::initialize_table() };
        proof {
            lemma_table_well_shaped(&r);
        }
        r
    }

    /// Draw every cell of a fresh table independently from the randomness
    /// source.
    fn initialize_table() -> (t: [[u64; 256]; 4]) {
        let mut table = [[0u64; 256]; 4];
        let mut i: usize = 0;
        while i < 4
            decreases 4 - i,
        {
            let mut col = [0u64; 256];
            let mut j: usize = 0;
            while j < 256
                decreases 256 - j,
            {
                col[j] = rand::random::<u64>();
                j = j + 1;
            }
            table[i] = col;
            i = i + 1;
        }
        table
    }

    /// Create a new twisted tabulation hash function with a given table.
    pub fn with_table(table: [[u64; 256]; 4]) -> (r: Self)
        ensures
            r@ == table.deep_view(),
    {
        let r = Tab32Twisted { table };
        proof {
            assert(r@ =~~= table.deep_view());
        }
        r
    }

    /// Get the table used by this hash function.
    pub fn get_table(&self) -> (t: [[u64; 256]; 4])
        ensures
            t.deep_view() == self@,
    {
        proof {
            assert(self.table.deep_view() =~~= self@);
        }
        self.table
    }

    /// Encode the table as a nested vector: one inner vector of 256 cells
    /// per column, columns in order.
    pub fn to_vec(&self) -> (v: Vec<Vec<u64>>)
        ensures
            v.deep_view() == self@,
            well_shaped(v.deep_view(), 4),
    {
        let mut v: Vec<Vec<u64>> = Vec::new();
        let mut i: usize = 0;
        while i < 4
            invariant
                i <= 4,
                v@.len() == i,
                forall|k: int| 0 <= k < i ==> (#[trigger] v@[k])@ == self@[k],
            decreases 4 - i,
        {
            let mut col: Vec<u64> = Vec::new();
            let mut j: usize = 0;
            while j < 256
                invariant
                    i < 4,
                    j <= 256,
                    col@.len() == j,
                    forall|l: int| 0 <= l < j ==> col@[l] == self@[i as int][l],
                decreases 256 - j,
            {
                col.push(self.table[i][j]);
                j = j + 1;
            }
            proof {
                assert(col@ =~= self@[i as int]);
            }
            v.push(col);
            i = i + 1;
        }
        proof {
            assert(v.deep_view() =~~= self@);
        }
        v
    }

    /// Rebuild a hash function from the nested-vector form of its table.
    /// The input must already be well shaped; `try_from_vec` is the checked
    /// variant.
    pub fn from_vec(table_data: Vec<Vec<u64>>) -> (r: Self)
        requires
            well_shaped(table_data.deep_view(), 4),
        ensures
            r@ == table_data.deep_view(),
    {
        proof {
            assert(table_data@.len() == 4);
            assert(forall|k: int|
                0 <= k < 4 ==> (#[trigger] table_data@[k])@.len() == table_data.deep_view()[k].len());
        }
        let mut table = [[0u64; 256]; 4];
        let mut i: usize = 0;
        while i < 4
            invariant
                i <= 4,
                table_data@.len() == 4,
                forall|k: int| 0 <= k < 4 ==> (#[trigger] table_data@[k])@.len() == 256,
                forall|k: int, l: int|
                    0 <= k < i && 0 <= l < 256 ==> table@[k]@[l] == table_data@[k]@[l],
            decreases 4 - i,
        {
            let mut col = [0u64; 256];
            let mut j: usize = 0;
            while j < 256
                invariant
                    i < 4,
                    j <= 256,
                    table_data@.len() == 4,
                    forall|k: int| 0 <= k < 4 ==> (#[trigger] table_data@[k])@.len() == 256,
                    forall|l: int| 0 <= l < j ==> col@[l] == table_data@[i as int]@[l],
                decreases 256 - j,
            {
                col[j] = table_data[i][j];
                j = j + 1;
            }
            table[i] = col;
            i = i + 1;
        }
        let r = Tab32Twisted { table };
        proof {
            assert(r@ =~~= table_data.deep_view());
        }
        r
    }

    /// Decode the nested-vector form into a hash function, validating the
    /// shape: exactly 4 columns of exactly 256 cells each. Cell values are
    /// not restricted. Fails with a shape-mismatch error if and only if the
    /// shape is wrong.
    pub fn try_from_vec(table_data: Vec<Vec<u64>>) -> (r: Result<Self, TableError>)
        ensures
            match r {
                Ok(h) => well_shaped(table_data.deep_view(), 4) && h@ == table_data.deep_view(),
                Err(e) => !well_shaped(table_data.deep_view(), 4) && e == TableError::ShapeMismatch,
            },
    {
        if table_data.len() != 4 {
            return Err(TableError::ShapeMismatch);
        }
        let mut i: usize = 0;
        while i < 4
            invariant
                i <= 4,
                table_data@.len() == 4,
                forall|k: int| 0 <= k < i ==> (#[trigger] table_data@[k])@.len() == 256,
            decreases 4 - i,
        {
            if table_data[i].len() != 256 {
                proof {
                    assert(table_data.deep_view()[i as int].len() != 256);
                }
                return Err(TableError::ShapeMismatch);
            }
            i = i + 1;
        }
        proof {
            assert(well_shaped(table_data.deep_view(), 4));
        }
        Ok(Self::from_vec(table_data))
    }

    /// Compute the twisted tabulation hash value of a 32-bit key: XOR-fold
    /// one cell per chunk for the first 3 chunks, derive the last row from
    /// the last chunk and the low 8 accumulator bits, fold that cell, and
    /// keep only the high 32 bits.
    pub fn hash(&self, x: u32) -> (r: u32)
        ensures
            r == twisted32_hash(self@, x),
    {
        let chunks = byte_chunks_32(x);
        let mut h: u64 = 0;
        let mut i: usize = 0;
        while i < 3
            invariant
                i <= 3,
                chunks@ == chunks_of_32(x),
                h == twisted32_fold(self@, x, i as int),
            decreases 3 - i,
        {
            h = h ^ self.table[i][chunks[i] as usize];
            i = i + 1;
        }
        // address the last column by XORing the lowest byte of the running
        // hash into the last chunk of the key
        proof {
            assert(h & 0xFF < 256) by (bit_vector);
        }
        let c = chunks[3] ^ ((h & 0xFF) as u8);
        h = h ^ self.table[3][c as usize];
        // shift out the 32 low bits of the resulting hash
        proof {
            assert(h >> 32 <= u32::MAX) by (bit_vector);
        }
        (h >> 32) as u32
    }
}

/// Law: the table of every instance has the fixed shape — 4 columns of 256
/// rows — whatever way it was constructed.
pub proof fn lemma_table_well_shaped(h: &Tab32Twisted)
    ensures
        well_shaped(h@, 4),
{
}

/// Law: hashing is deterministic. Two results obtained by hashing the same
/// key under the same table — what `hash` ensures of any two such calls —
/// are equal.
pub proof fn lemma_hash_deterministic(h: &Tab32Twisted, k: u32, r1: u32, r2: u32)
    requires
        r1 == twisted32_hash(h@, k),
        r2 == twisted32_hash(h@, k),
    ensures
        r1 == r2,
{
}

/// Law: two instances over equal tables are functionally indistinguishable —
/// they hash every key alike.
pub proof fn lemma_equal_tables_hash_equal(h1: &Tab32Twisted, h2: &Tab32Twisted)
    requires
        h1@ == h2@,
    ensures
        forall|k: u32| twisted32_hash(h1@, k) == twisted32_hash(h2@, k),
{
}

/// Law: the interchange codec round-trips. If `v` is the encoded form of
/// `h` (as `to_vec` ensures) and `h2` was rebuilt from `v` (as `from_vec`
/// and the `Ok` case of `try_from_vec` ensure), then `h2` carries the same
/// table cell for cell and hashes every key as `h` does.
pub proof fn lemma_codec_round_trip(h: &Tab32Twisted, v: &Vec<Vec<u64>>, h2: &Tab32Twisted)
    requires
        v.deep_view() == h@,
        h2@ == v.deep_view(),
    ensures
        h2@ == h@,
        forall|k: u32| twisted32_hash(h2@, k) == twisted32_hash(h@, k),
{
}

} // verus!
