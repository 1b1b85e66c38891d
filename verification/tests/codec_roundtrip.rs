use tab_hash::Tab32Simple;
use tab_hash::Tab32Twisted;
use tab_hash::Tab64Simple;
use tab_hash::Tab64Twisted;

#[test]
fn simple32_to_and_from_vec() {
    for _ in 0..1000 {
        let h = Tab32Simple::new();
        let table = h.to_vec();
        let h2 = Tab32Simple::from_vec(table);

        let t1 = h.get_table();
        let t2 = h2.get_table();
        for column in 0..4 {
            assert_eq!(t1[column].to_vec(), t2[column].to_vec());
        }

        let mut random_keys: [u32; 100] = [0; 100];
        for key in random_keys.iter_mut() {
            *key = rand::random();
        }
        for key in random_keys.iter() {
            assert_eq!(h.hash(*key), h2.hash(*key));
        }
    }
}

#[test]
fn twisted32_to_and_from_vec() {
    for _ in 0..1000 {
        let h = Tab32Twisted::new();
        let table = h.to_vec();
        let h2 = Tab32Twisted::from_vec(table);

        let t1 = h.get_table();
        let t2 = h2.get_table();
        for column in 0..4 {
            assert_eq!(t1[column].to_vec(), t2[column].to_vec());
        }

        let mut random_keys: [u32; 100] = [0; 100];
        for key in random_keys.iter_mut() {
            *key = rand::random();
        }
        for key in random_keys.iter() {
            assert_eq!(h.hash(*key), h2.hash(*key));
        }
    }
}

#[test]
fn simple64_to_and_from_vec() {
    for _ in 0..1000 {
        let h = Tab64Simple::new();
        let table = h.to_vec();
        let h2 = Tab64Simple::from_vec(table);

        let t1 = h.get_table();
        let t2 = h2.get_table();
        for column in 0..4 {
            assert_eq!(t1[column].to_vec(), t2[column].to_vec());
        }

        let mut random_keys: [u64; 100] = [0; 100];
        for key in random_keys.iter_mut() {
            *key = rand::random();
        }
        for key in random_keys.iter() {
            assert_eq!(h.hash(*key), h2.hash(*key));
        }
    }
}

#[test]
fn twisted64_to_and_from_vec() {
    for _ in 0..1000 {
        let h = Tab64Twisted::new();
        let table = h.to_vec();
        let h2 = Tab64Twisted::from_vec(table);

        let t1 = h.get_table();
        let t2 = h2.get_table();
        for column in 0..4 {
            assert_eq!(t1[column].to_vec(), t2[column].to_vec());
        }

        let mut random_keys: [u64; 100] = [0; 100];
        for key in random_keys.iter_mut() {
            *key = rand::random();
        }
        for key in random_keys.iter() {
            assert_eq!(h.hash(*key), h2.hash(*key));
        }
    }
}

#[test]
fn try_from_vec_accepts_well_shaped() {
    let h = Tab32Simple::new();
    let h2 = Tab32Simple::try_from_vec(h.to_vec()).unwrap();
    assert_eq!(h.get_table(), h2.get_table());

    let h = Tab64Simple::new();
    let h2 = Tab64Simple::try_from_vec(h.to_vec()).unwrap();
    assert_eq!(h.get_table(), h2.get_table());

    let h = Tab32Twisted::new();
    let h2 = Tab32Twisted::try_from_vec(h.to_vec()).unwrap();
    assert_eq!(h.get_table(), h2.get_table());

    let h = Tab64Twisted::new();
    let h2 = Tab64Twisted::try_from_vec(h.to_vec()).unwrap();
    assert_eq!(h.get_table(), h2.get_table());
}
