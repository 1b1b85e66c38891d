//! Simple tabulation hashing for 64-bit keys.

use vstd::prelude::*;

use crate::chunks::byte_chunks_64;
use crate::chunks::chunks_of_64;
use crate::codec::TableError;
use crate::codec::well_shaped;

verus! {

/// XOR of the first `n` table lookups for key `x`: cell `t[i]` at the row
/// given by byte chunk `i` of the key, for each `i` below `n`.
pub open spec fn simple64_fold(t: Seq<Seq<u64>>, x: u64, n: int) -> u64
    recommends
        well_shaped(t, 8),
        0 <= n <= 8,
    decreases n,
{
    if n <= 0 {
        0
    } else {
        simple64_fold(t, x, n - 1) ^ t[n - 1][chunks_of_64(x)[n - 1] as int]
    }
}

/// The simple tabulation hash of `x` under table `t`: one table lookup per
/// byte chunk of the key, all XOR-folded together.
pub open spec fn simple64_hash(t: Seq<Seq<u64>>, x: u64) -> u64
    recommends
        well_shaped(t, 8),
{
    simple64_fold(t, x, 8)
}

/// A universal hash function for 64-bit integers using simple tabulation:
/// a table of 8 columns by 256 rows of random 64-bit cells, consulted
/// byte-by-byte against the key.
#[derive(Clone)]
pub struct Tab64Simple {
    table: [[u64; 256]; 8],
}

impl View for Tab64Simple {
    type V = Seq<Seq<u64>>;

    closed spec fn view(&self) -> Seq<Seq<u64>> {
        Seq::new(8, |i: int| self.table@[i]@)
    }
}

impl Tab64Simple {
    /// Create a new simple tabulation hash function with a random table.
    pub fn new() -> (r: Self)
        ensures
            well_shaped(r@, 8),
    {
        let r = Tab64Simple { table: Self::initialize_table() };
        proof {
            lemma_table_well_shaped(&r);
        }
        r
    }

    /// Draw every cell of a fresh table independently from the randomness
    /// source.
    fn initialize_table() -> (t: [[u64; 256]; 8]) {
        let mut table = [[0u64; 256]; 8];
        let mut i: usize = 0;
        while i < 8
            decreases 8 - i,
        {
            let mut col = [0u64; 256];
            let mut j: usize = 0;
            while j < 256
                decreases 256 - j,
            {
                col[j] = rand::random::<u64>();
                j = j + 1;
            }
            table[i] = col;
            i = i + 1;
        }
        table
    }

    /// Create a new simple tabulation hash function with a given table.
    pub fn with_table(table: [[u64; 256]; 8]) -> (r: Self)
        ensures
            r@ == table.deep_view(),
    {
        let r = Tab64Simple { table };
        proof {
            assert(r@ =~~= table.deep_view());
        }
        r
    }

    /// Get the table used by this hash function.
    pub fn get_table(&self) -> (t: [[u64; 256]; 8])
        ensures
            t.deep_view() == self@,
    {
        proof {
            assert(self.table.deep_view() =~~= self@);
        }
        self.table
    }

    /// Encode the table as a nested vector: one inner vector of 256 cells
    /// per column, columns in order.
    pub fn to_vec(&self) -> (v: Vec<Vec<u64>>)
        ensures
            v.deep_view() == self@,
            well_shaped(v.deep_view(), 8),
    {
        let mut v: Vec<Vec<u64>> = Vec::new();
        let mut i: usize = 0;
        while i < 8
            invariant
                i <= 8,
                v@.len() == i,
                forall|k: int| 0 <= k < i ==> (#[trigger] v@[k])@ == self@[k],
            decreases 8 - i,
        {
            let mut col: Vec<u64> = Vec::new();
            let mut j: usize = 0;
            while j < 256
                invariant
                    i < 8,
                    j <= 256,
                    col@.len() == j,
                    forall|l: int| 0 <= l < j ==> col@[l] == self@[i as int][l],
                decreases 256 - j,
            {
                col.push(self.table[i][j]);
                j = j + 1;
            }
            proof {
                assert(col@ =~= self@[i as int]);
            }
            v.push(col);
            i = i + 1;
        }
        proof {
            assert(v.deep_view() =~~= self@);
        }
        v
    }

    /// Rebuild a hash function from the nested-vector form of its table.
    /// The input must already be well shaped; `try_from_vec` is the checked
    /// variant.
    pub fn from_vec(table_data: Vec<Vec<u64>>) -> (r: Self)
        requires
            well_shaped(table_data.deep_view(), 8),
        ensures
            r@ == table_data.deep_view(),
    {
        proof {
            assert(table_data@.len() == 8);
            assert(forall|k: int|
                0 <= k < 8 ==> (#[trigger] table_data@[k])@.len() == table_data.deep_view()[k].len());
        }
        let mut table = [[0u64; 256]; 8];
        let mut i: usize = 0;
        while i < 8
            invariant
                i <= 8,
                table_data@.len() == 8,
                forall|k: int| 0 <= k < 8 ==> (#[trigger] table_data@[k])@.len() == 256,
                forall|k: int, l: int|
                    0 <= k < i && 0 <= l < 256 ==> table@[k]@[l] == table_data@[k]@[l],
            decreases 8 - i,
        {
            let mut col = [0u64; 256];
            let mut j: usize = 0;
            while j < 256
                invariant
                    i < 8,
                    j <= 256,
                    table_data@.len() == 8,
                    forall|k: int| 0 <= k < 8 ==> (#[trigger] table_data@[k])@.len() == 256,
                    forall|l: int| 0 <= l < j ==> col@[l] == table_data@[i as int]@[l],
                decreases 256 - j,
            {
                col[j] = table_data[i][j];
                j = j + 1;
            }
            table[i] = col;
            i = i + 1;
        }
        let r = Tab64Simple { table };
        proof {
            assert(r@ =~~= table_data.deep_view());
        }
        r
    }

    /// Decode the nested-vector form into a hash function, validating the
    /// shape: exactly 8 columns of exactly 256 cells each. Cell values are
    /// not restricted. Fails with a shape-mismatch error if and only if the
    /// shape is wrong.
    pub fn try_from_vec(table_data: Vec<Vec<u64>>) -> (r: Result<Self, TableError>)
        ensures
            match r {
                Ok(h) => well_shaped(table_data.deep_view(), 8) && h@ == table_data.deep_view(),
                Err(e) => !well_shaped(table_data.deep_view(), 8) && e == TableError::ShapeMismatch,
            },
    {
        if table_data.len() != 8 {
            return Err(TableError::ShapeMismatch);
        }
        let mut i: usize = 0;
        while i < 8
            invariant
                i <= 8,
                table_data@.len() == 8,
                forall|k: int| 0 <= k < i ==> (#[trigger] table_data@[k])@.len() == 256,
            decreases 8 - i,
        {
            if table_data[i].len() != 256 {
                proof {
                    assert(table_data.deep_view()[i as int].len() != 256);
                }
                return Err(TableError::ShapeMismatch);
            }
            i = i + 1;
        }
        proof {
            assert(well_shaped(table_data.deep_view(), 8));
        }
        Ok(Self::from_vec(table_data))
    }

    /// Compute the simple tabulation hash value of a 64-bit key: XOR-fold
    /// one table cell per byte chunk of the key.
    pub fn hash(&self, x: u64) -> (r: u64)
        ensures
            r == simple64_hash(self@, x),
    {
        let chunks = byte_chunks_64(x);
        let mut h: u64 = 0;
        let mut i: usize = 0;
        while i < 8
            invariant
                i <= 8,
                chunks@ == chunks_of_64(x),
                h == simple64_fold(self@, x, i as int),
            decreases 8 - i,
        {
            h = h ^ self.table[i][chunks[i] as usize];
            i = i + 1;
        }
        h
    }
}

/// Law: the table of every instance has the fixed shape — 8 columns of 256
/// rows — whatever way it was constructed.
pub proof fn lemma_table_well_shaped(h: &Tab64Simple)
    ensures
        well_shaped(h@, 8),
{
}

/// Law: hashing is deterministic. Two results obtained by hashing the same
/// key under the same table — what `hash` ensures of any two such calls —
/// are equal.
pub proof fn lemma_hash_deterministic(h: &Tab64Simple, k: u64, r1: u64, r2: u64)
    requires
        r1 == simple64_hash(h@, k),
        r2 == simple64_hash(h@, k),
    ensures
        r1 == r2,
{
}

/// Law: two instances over equal tables are functionally indistinguishable —
/// they hash every key alike.
pub proof fn lemma_equal_tables_hash_equal(h1: &Tab64Simple, h2: &Tab64Simple)
    requires
        h1@ == h2@,
    ensures
        forall|k: u64| simple64_hash(h1@, k) == simple64_hash(h2@, k),
{
}

/// Law: the interchange codec round-trips. If `v` is the encoded form of
/// `h` (as `to_vec` ensures) and `h2` was rebuilt from `v` (as `from_vec`
/// and the `Ok` case of `try_from_vec` ensure), then `h2` carries the same
/// table cell for cell and hashes every key as `h` does.
pub proof fn lemma_codec_round_trip(h: &Tab64Simple, v: &Vec<Vec<u64>>, h2: &Tab64Simple)
    requires
        v.deep_view() == h@,
        h2@ == v.deep_view(),
    ensures
        h2@ == h@,
        forall|k: u64| simple64_hash(h2@, k) == simple64_hash(h@, k),
{
}

} // verus!
