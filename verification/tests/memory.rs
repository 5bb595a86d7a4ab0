use wasm_workshop::memory::{read_i32, word_fits, write_i32, LinearMemory};

#[test]
fn isolation_between_instances() {
    let mut a = LinearMemory::new(65536);
    let b = LinearMemory::new(65536);
    let secret: i32 = 0x53_45_43_52;
    write_i32(&mut a, 0, secret);
    assert_eq!(read_i32(&a, 0), secret);
    assert_eq!(read_i32(&b, 0), 0);
}

#[test]
fn read_back_and_neighbours() {
    let mut m = LinearMemory::new(16);
    write_i32(&mut m, 4, -1);
    write_i32(&mut m, 8, 0x0102_0304);
    assert_eq!(read_i32(&m, 4), -1);
    assert_eq!(read_i32(&m, 8), 0x0102_0304);
    assert_eq!(read_i32(&m, 0), 0);
    assert_eq!(read_i32(&m, 12), 0);
    // Little-endian: the unaligned word at 5 takes three bytes of -1 and the low byte of the next word.
    assert_eq!(read_i32(&m, 5), 0x04ff_ffff);
    write_i32(&mut m, 6, i32::MIN);
    assert_eq!(read_i32(&m, 6), i32::MIN);
    assert_eq!(read_i32(&m, 4), 0x0000_ffff);
}

#[test]
fn bounds() {
    let m = LinearMemory::new(8);
    assert_eq!(m.size(), 8);
    assert!(word_fits(&m, 0));
    assert!(word_fits(&m, 4));
    assert!(!word_fits(&m, 5));
    assert!(!word_fits(&m, -1));
    assert!(!word_fits(&m, i32::MIN));
    let empty = LinearMemory::new(0);
    assert!(!word_fits(&empty, 0));
}
