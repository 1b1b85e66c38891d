use tab_hash::byte_chunks_32;
use tab_hash::byte_chunks_64;

#[test]
fn byte_chunking_32() {
    let mut random_bytes: [u8; 400] = [0; 400];
    for byte in random_bytes.iter_mut() {
        *byte = rand::random();
    }
    for four_bytes in random_bytes.chunks(4) {
        let mut number = 0_u32;
        for byte in four_bytes.iter().rev() {
            number = (number << 8) | *byte as u32;
        }
        assert_eq!(four_bytes, byte_chunks_32(number));
    }
}

#[test]
fn byte_chunking_64() {
    let mut random_bytes: [u8; 480] = [0; 480];
    for byte in random_bytes.iter_mut() {
        *byte = rand::random();
    }
    for four_bytes in random_bytes.chunks(8) {
        let mut number = 0_u64;
        for byte in four_bytes.iter().rev() {
            number = (number << 8) | *byte as u64;
        }
        assert_eq!(four_bytes, byte_chunks_64(number));
    }
}
