//! Twisted tabulation hashing for 64-bit keys.
//!
//! The same twisted scheme as for 32-bit keys, scaled up: 8 columns of
//! 128-bit cells, a 128-bit accumulator, and the low 64 bits shifted out of
//! the result.

use vstd::prelude::*;

use crate::chunks::byte_chunks_64;
use crate::chunks::chunks_of_64;
use crate::codec::TableError;
use crate::codec::well_shaped;

verus! {

/// XOR of the first `n` table lookups for key `x`: cell `t[i]` at the row
/// given by byte chunk `i` of the key, for each `i` below `n`. The twisted
/// scheme folds only the first 7 chunks this way.
pub open spec fn twisted64_fold(t: Seq<Seq<u128>>, x: u64, n: int) -> u128
    recommends
        well_shaped(t, 8),
        0 <= n <= 7,
    decreases n,
{
    if n <= 0 {
        0
    } else {
        twisted64_fold(t, x, n - 1) ^ t[n - 1][chunks_of_64(x)[n - 1] as int]
    }
}

/// The derived row for the last column: the last byte chunk of the key XORed
/// with the low 8 bits of the accumulator after the first 7 folds.
pub open spec fn twisted64_last_index(t: Seq<Seq<u128>>, x: u64) -> u8
    recommends
        well_shaped(t, 8),
{
    chunks_of_64(x)[7] ^ ((twisted64_fold(t, x, 7) & 0xFF) as u8)
}

/// The twisted tabulation hash of `x` under table `t`: fold the first 7
/// chunks, fold the last column's cell at the derived row, then discard the
/// low 64 bits of the 128-bit accumulator.
pub open spec fn twisted64_hash(t: Seq<Seq<u128>>, x: u64) -> u64
    recommends
        well_shaped(t, 8),
{
    (((twisted64_fold(t, x, 7) ^ t[7][twisted64_last_index(t, x) as int]) >> 64) as u64)
}

/// A universal hash function for 64-bit integers using twisted tabulation:
/// a table of 8 columns by 256 rows of random 128-bit cells, consulted
/// byte-by-byte against the key with a derived last lookup.
#[derive(Clone)]
pub struct Tab64Twisted {
    table: [[u128; 256]; 8],
}

impl View for Tab64Twisted {
    type V = Seq<Seq<u128>>;

    closed spec fn view(&self) -> Seq<Seq<u128>> {
        Seq::new(8, |i: int| self.table@[i]@)
    }
}

impl Tab64Twisted {
    /// Create a new twisted tabulation hash function with a random table.
    pub fn new() -> (r: Self)
        ensures
            well_shaped(r@, 8),
    {
        let r = Tab64Twisted { table: Self::initialize_table() };
        proof {
            lemma_table_well_shaped(&r);
        }
        r
    }

    /// Draw every cell of a fresh table independently from the randomness
    /// source.
    fn initialize_table() -> (t: [[u128; 256]; 8]) {
        let mut table = [[0u128; 256]; 8];
        let mut i: usize = 0;
        while i < 8
            decreases 8 - i,
        {
            let mut col = [0u128; 256];
            let mut j: usize = 0;
            while j < 256
                decreases 256 - j,
            {
                col[j] = rand::random::<u128>();
                j = j + 1;
            }
            table[i] = col;
            i = i + 1;
        }
        table
    }

    /// Create a new twisted tabulation hash function with a given table.
    pub fn with_table(table: [[u128; 256]; 8]) -> (r: Self)
        ensures
            r@ == table.deep_view(),
    {
        let r = Tab64Twisted { table };
        proof {
            assert(r@ =~~= table.deep_view());
        }
        r
    }

    /// Get the table used by this hash function.
    pub fn get_table(&self) -> (t: [[u128; 256]; 8])
        ensures
            t.deep_view() == self@,
    {
        proof {
            assert(self.table.deep_view() =~~= self@);
        }
        self.table
    }

    /// Encode the table as a nested vector: one inner vector of 256 cells
    /// per column, columns in order.
    pub fn to_vec(&self) -> (v: Vec<Vec<u128>>)
        ensures
            v.deep_view() == self@,
            well_shaped(v.deep_view(), 8),
    {
        let mut v: Vec<Vec<u128>> = Vec::new();
        let mut i: usize = 0;
        while i < 8
            invariant
                i <= 8,
                v@.len() == i,
                forall|k: int| 0 <= k < i ==> (#[trigger] v@[k])@ == self@[k],
            decreases 8 - i,
        {
            let mut col: Vec<u128> = Vec::new();
            let mut j: usize = 0;
            while j < 256
                invariant
                    i < 8,
                    j <= 256,
                    col@.len() == j,
                    forall|l: int| 0 <= l < j ==> col@[l] == self@[i as int][l],
                decreases 256 - j,
            {
                col.push(self.table[i][j]);
                j = j + 1;
            }
            proof {
                assert(col@ =~= self@[i as int]);
            }
            v.push(col);
            i = i + 1;
        }
        proof {
            assert(v.deep_view() =~~= self@);
        }
        v
    }

    /// Rebuild a hash function from the nested-vector form of its table.
    /// The input must already be well shaped; `try_from_vec` is the checked
    /// variant.
    pub fn from_vec(table_data: Vec<Vec<u128>>) -> (r: Self)
        requires
            well_shaped(table_data.deep_view(), 8),
        ensures
            r@ == table_data.deep_view(),
    {
        proof {
            assert(table_data@.len() == 8);
            assert(forall|k: int|
                0 <= k < 8 ==> (#[trigger] table_data@[k])@.len() == table_data.deep_view()[k].len());
        }
        let mut table = [[0u128; 256]; 8];
        let mut i: usize = 0;
        while i < 8
            invariant
                i <= 8,
                table_data@.len() == 8,
                forall|k: int| 0 <= k < 8 ==> (#[trigger] table_data@[k])@.len() == 256,
                forall|k: int, l: int|
                    0 <= k < i && 0 <= l < 256 ==> table@[k]@[l] == table_data@[k]@[l],
            decreases 8 - i,
        {
            let mut col = [0u128; 256];
            let mut j: usize = 0;
            while j < 256
                invariant
                    i < 8,
                    j <= 256,
                    table_data@.len() == 8,
                    forall|k: int| 0 <= k < 8 ==> (#[trigger] table_data@[k])@.len() == 256,
                    forall|l: int| 0 <= l < j ==> col@[l] == table_data@[i as int]@[l],
                decreases 256 - j,
            {
                col[j] = table_data[i][j];
                j = j + 1;
            }
            table[i] = col;
            i = i + 1;
        }
        let r = Tab64Twisted { table };
        proof {
            assert(r@ =~~= table_data.deep_view());
        }
        r
    }

    /// Decode the nested-vector form into a hash function, validating the
    /// shape: exactly 8 columns of exactly 256 cells each. Cell values are
    /// not restricted. Fails with a shape-mismatch error if and only if the
    /// shape is wrong.
    pub fn try_from_vec(table_data: Vec<Vec<u128>>) -> (r: Result<Self, TableError>)
        ensures
            match r {
                Ok(h) => well_shaped(table_data.deep_view(), 8) && h@ == table_data.deep_view(),
                Err(e) => !well_shaped(table_data.deep_view(), 8) && e == TableError::ShapeMismatch,
            },
    {
        if table_data.len() != 8 {
            return Err(TableError::ShapeMismatch);
        }
        let mut i: usize = 0;
        while i < 8
            invariant
                i <= 8,
                table_data@.len() == 8,
                forall|k: int| 0 <= k < i ==> (#[trigger] table_data@[k])@.len() == 256,
            decreases 8 - i,
        {
            if table_data[i].len() != 256 {
                proof {
                    assert(table_data.deep_view()[i as int].len() != 256);
                }
                return Err(TableError::ShapeMismatch);
            }
            i = i + 1;
        }
        proof {
            assert(well_shaped(table_data.deep_view(), 8));
        }
        Ok(Self::from_vec(table_data))
    }

    /// Compute the twisted tabulation hash value of a 64-bit key: XOR-fold
    /// one cell per chunk for the first 7 chunks, derive the last row from
    /// the last chunk and the low 8 accumulator bits, fold that cell, and
    /// keep only the high 64 bits.
    pub fn hash(&self, x: u64) -> (r: u64)
        ensures
            r == twisted64_hash(self@, x),
    {
        let chunks = byte_chunks_64(x);
        let mut h: u128 = 0;
        let mut i: usize = 0;
        while i < 7
            invariant
                i <= 7,
                chunks@ == chunks_of_64(x),
                h == twisted64_fold(self@, x, i as int),
            decreases 7 - i,
        {
            h = h ^ self.table[i][chunks[i] as usize];
            i = i + 1;
        }
        // address the last column by XORing the lowest byte of the running
        // hash into the last chunk of the key
        proof {
            assert(h & 0xFF < 256) by (bit_vector);
        }
        let c = chunks[7] ^ ((h & 0xFF) as u8);
        h = h ^ self.table[7][c as usize];
        // shift out the 64 low bits of the resulting hash
        proof {
            assert(h >> 64 <= u64::MAX) by (bit_vector);
        }
        (h >> 64) as u64
    }
}

/// Law: the table of every instance has the fixed shape — 8 columns of 256
/// rows — whatever way it was constructed.
pub proof fn lemma_table_well_shaped(h: &Tab64Twisted)
    ensures
        well_shaped(h@, 8),
{
}

/// Law: hashing is deterministic. Two results obtained by hashing the same
/// key under the same table — what `hash` ensures of any two such calls —
/// are equal.
pub proof fn lemma_hash_deterministic(h: &Tab64Twisted, k: u64, r1: u64, r2: u64)
    requires
        r1 == twisted64_hash(h@, k),
        r2 == twisted64_hash(h@, k),
    ensures
        r1 == r2,
{
}

/// Law: two instances over equal tables are functionally indistinguishable —
/// they hash every key alike.
pub proof fn lemma_equal_tables_hash_equal(h1: &Tab64Twisted, h2: &Tab64Twisted)
    requires
        h1@ == h2@,
    ensures
        forall|k: u64| twisted64_hash(h1@, k) == twisted64_hash(h2@, k),
{
}

/// Law: the interchange codec round-trips. If `v` is the encoded form of
/// `h` (as `to_vec` ensures) and `h2` was rebuilt from `v` (as `from_vec`
/// and the `Ok` case of `try_from_vec` ensure), then `h2` carries the same
/// table cell for cell and hashes every key as `h` does.
pub proof fn lemma_codec_round_trip(h: &Tab64Twisted, v: &Vec<Vec<u128>>, h2: &Tab64Twisted)
    requires
        v.deep_view() == h@,
        h2@ == v.deep_view(),
    ensures
        h2@ == h@,
        forall|k: u64| twisted64_hash(h2@, k) == twisted64_hash(h@, k),
{
}

} // verus!
