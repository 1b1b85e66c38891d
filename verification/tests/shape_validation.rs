use tab_hash::Tab32Simple;
use tab_hash::Tab32Twisted;
use tab_hash::Tab64Simple;
use tab_hash::Tab64Twisted;
use tab_hash::TableError;

#[test]
fn simple32_rejects_wrong_outer_length() {
    let data: Vec<Vec<u32>> = vec![vec![0; 256]; 3];
    assert!(matches!(Tab32Simple::try_from_vec(data), Err(TableError::ShapeMismatch)));
    let data: Vec<Vec<u32>> = vec![vec![0; 256]; 5];
    assert!(matches!(Tab32Simple::try_from_vec(data), Err(TableError::ShapeMismatch)));
    let data: Vec<Vec<u32>> = Vec::new();
    assert!(matches!(Tab32Simple::try_from_vec(data), Err(TableError::ShapeMismatch)));
}

#[test]
fn simple32_rejects_wrong_inner_length() {
    let mut data: Vec<Vec<u32>> = vec![vec![0; 256]; 4];
    data[2] = vec![0; 255];
    assert!(matches!(Tab32Simple::try_from_vec(data), Err(TableError::ShapeMismatch)));
    let mut data: Vec<Vec<u32>> = vec![vec![0; 256]; 4];
    data[0] = vec![0; 257];
    assert!(matches!(Tab32Simple::try_from_vec(data), Err(TableError::ShapeMismatch)));
}

#[test]
fn simple64_rejects_wrong_shape() {
    let data: Vec<Vec<u64>> = vec![vec![0; 256]; 4];
    assert!(matches!(Tab64Simple::try_from_vec(data), Err(TableError::ShapeMismatch)));
    let mut data: Vec<Vec<u64>> = vec![vec![0; 256]; 8];
    data[7] = vec![0; 1];
    assert!(matches!(Tab64Simple::try_from_vec(data), Err(TableError::ShapeMismatch)));
}

#[test]
fn twisted32_rejects_wrong_shape() {
    let data: Vec<Vec<u64>> = vec![vec![0; 256]; 2];
    assert!(matches!(Tab32Twisted::try_from_vec(data), Err(TableError::ShapeMismatch)));
    let mut data: Vec<Vec<u64>> = vec![vec![0; 256]; 4];
    data[3] = Vec::new();
    assert!(matches!(Tab32Twisted::try_from_vec(data), Err(TableError::ShapeMismatch)));
}

#[test]
fn twisted64_rejects_wrong_shape() {
    let data: Vec<Vec<u128>> = vec![vec![0; 256]; 9];
    assert!(matches!(Tab64Twisted::try_from_vec(data), Err(TableError::ShapeMismatch)));
    let mut data: Vec<Vec<u128>> = vec![vec![0; 256]; 8];
    data[4] = vec![0; 128];
    assert!(matches!(Tab64Twisted::try_from_vec(data), Err(TableError::ShapeMismatch)));
}
