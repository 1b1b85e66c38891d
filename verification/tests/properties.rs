use tab_hash::Tab32Simple;
use tab_hash::Tab32Twisted;
use tab_hash::Tab64Simple;
use tab_hash::Tab64Twisted;

#[test]
fn hashing_is_deterministic() {
    let keys32: [u32; 5] = [0, 8, 15, u32::MAX, 0xDEAD_BEEF];
    let keys64: [u64; 5] = [0, 8, 15, u64::MAX, 0xDEAD_BEEF_CAFE_F00D];

    let h = Tab32Simple::new();
    for k in keys32.iter() {
        assert_eq!(h.hash(*k), h.hash(*k));
    }
    let h = Tab64Simple::new();
    for k in keys64.iter() {
        assert_eq!(h.hash(*k), h.hash(*k));
    }
    let h = Tab32Twisted::new();
    for k in keys32.iter() {
        assert_eq!(h.hash(*k), h.hash(*k));
    }
    let h = Tab64Twisted::new();
    for k in keys64.iter() {
        assert_eq!(h.hash(*k), h.hash(*k));
    }
}

#[test]
fn same_table_same_hashes() {
    let key32: u32 = 42;
    let key64: u64 = 42;

    let a = Tab32Simple::new();
    let b = Tab32Simple::with_table(a.get_table());
    assert_eq!(a.hash(key32), b.hash(key32));

    let a = Tab64Simple::new();
    let b = Tab64Simple::with_table(a.get_table());
    assert_eq!(a.hash(key64), b.hash(key64));

    let a = Tab32Twisted::new();
    let b = Tab32Twisted::with_table(a.get_table());
    assert_eq!(a.hash(key32), b.hash(key32));

    let a = Tab64Twisted::new();
    let b = Tab64Twisted::with_table(a.get_table());
    assert_eq!(a.hash(key64), b.hash(key64));
}

// Independently drawn tables collide on a fixed key only with negligible
// probability: a smoke check, not a strict invariant.
#[test]
fn independent_tables_hash_distinctly() {
    let key32: u32 = 47;
    let key64: u64 = 47;

    let a = Tab32Simple::new();
    let b = Tab32Simple::new();
    assert_ne!(a.hash(key32), b.hash(key32));

    let a = Tab64Simple::new();
    let b = Tab64Simple::new();
    assert_ne!(a.hash(key64), b.hash(key64));

    let a = Tab32Twisted::new();
    let b = Tab32Twisted::new();
    assert_ne!(a.hash(key32), b.hash(key32));

    let a = Tab64Twisted::new();
    let b = Tab64Twisted::new();
    assert_ne!(a.hash(key64), b.hash(key64));
}

#[test]
fn reconstruction_reproduces_hashes() {
    let keys32: [u32; 4] = [0, 1, 0x0102_0400, u32::MAX];
    let keys64: [u64; 4] = [0, 1, 0x0102_0400_0000_0000, u64::MAX];

    let h = Tab32Simple::new();
    let h2 = Tab32Simple::try_from_vec(h.to_vec()).unwrap();
    for k in keys32.iter() {
        assert_eq!(h.hash(*k), h2.hash(*k));
    }

    let h = Tab64Simple::new();
    let h2 = Tab64Simple::try_from_vec(h.to_vec()).unwrap();
    for k in keys64.iter() {
        assert_eq!(h.hash(*k), h2.hash(*k));
    }

    let h = Tab32Twisted::new();
    let h2 = Tab32Twisted::try_from_vec(h.to_vec()).unwrap();
    for k in keys32.iter() {
        assert_eq!(h.hash(*k), h2.hash(*k));
    }

    let h = Tab64Twisted::new();
    let h2 = Tab64Twisted::try_from_vec(h.to_vec()).unwrap();
    for k in keys64.iter() {
        assert_eq!(h.hash(*k), h2.hash(*k));
    }
}

// The encoded form has the fixed shape, and the cells land where the table
// had them: column by column, row by row.
#[test]
fn to_vec_lays_out_columns_in_order() {
    let mut table: [[u32; 256]; 4] = [[0; 256]; 4];
    for (i, column) in table.iter_mut().enumerate() {
        for (j, cell) in column.iter_mut().enumerate() {
            *cell = (i as u32) * 1000 + j as u32;
        }
    }
    let h = Tab32Simple::with_table(table);
    let v = h.to_vec();
    assert_eq!(v.len(), 4);
    for (i, column) in v.iter().enumerate() {
        assert_eq!(column.len(), 256);
        for (j, cell) in column.iter().enumerate() {
            assert_eq!(*cell, (i as u32) * 1000 + j as u32);
        }
    }
}
