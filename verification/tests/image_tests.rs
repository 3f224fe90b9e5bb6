use shy_isa_lib::addr::RAM_BASE;
use shy_isa_lib::{Addr, AddrPort, Address, CoreError};

#[test]
fn image_round_trip_reproduces_ram() {
    let mut bus = Address::new(8, 4);
    for i in 0..8u32 {
        bus.write(Addr::new(RAM_BASE + i), 0x1000_0000 + i * 3).unwrap();
    }
    let img = bus.image_bytes();
    assert_eq!(img.len(), 8 * 4);

    let mut fresh = Address::try_new(8, 4).unwrap();
    fresh.load_image_bytes(&img).unwrap();
    for i in 0..8usize {
        assert_eq!(
            fresh.ram().read(i).unwrap(),
            bus.ram().read(i).unwrap(),
        );
    }
}

#[test]
fn image_bytes_are_big_endian_in_address_order() {
    let mut bus = Address::new(2, 0);
    bus.write(Addr::new(RAM_BASE), 0x0102_0304).unwrap();
    bus.write(Addr::new(RAM_BASE + 1), 0xA1B2_C3D4).unwrap();
    let img = bus.image_bytes();
    assert_eq!(img, vec![0x01, 0x02, 0x03, 0x04, 0xA1, 0xB2, 0xC3, 0xD4]);
}

#[test]
fn image_too_small_is_rejected() {
    let mut bus = Address::new(4, 0);
    let img: Vec<u8> = vec![1, 2, 3];
    match bus.load_image_bytes(&img) {
        Err(CoreError::MemoryError(msg)) => {
            assert_eq!(msg, "SFS file too small");
        }
        _ => panic!("expected MemoryError"),
    }
    assert_eq!(bus.ram().read(0).unwrap(), 0);
}

#[test]
fn image_with_ragged_tail_is_rejected() {
    let mut bus = Address::new(4, 0);
    let img: Vec<u8> = vec![0, 0, 0, 1, 0xFF];
    match bus.load_image_bytes(&img) {
        Err(CoreError::InvalidInput(msg)) => {
            assert_eq!(msg, "Image size is not a whole number of words");
        }
        _ => panic!("expected InvalidInput"),
    }
    assert_eq!(bus.ram().read(0).unwrap(), 0);
}

#[test]
fn image_longer_than_ram_fails_past_the_end() {
    let mut bus = Address::new(2, 0);
    let img: Vec<u8> = vec![
        0, 0, 0, 1, // word 0
        0, 0, 0, 2, // word 1
        0, 0, 0, 3, // word 2: no cell for it
    ];
    assert!(bus.load_image_bytes(&img).is_err());
    // The words before the failure were written; the load is surfaced,
    // never silent.
    assert_eq!(bus.ram().read(0).unwrap(), 1);
    assert_eq!(bus.ram().read(1).unwrap(), 2);
}

#[test]
fn image_load_writes_only_ram() {
    let mut bus = Address::new(2, 2);
    bus.write(Addr::new(0x10), 0x77).unwrap();
    let img: Vec<u8> = vec![0, 0, 0, 9, 0, 0, 0, 8];
    bus.load_image_bytes(&img).unwrap();
    assert_eq!(bus.read(Addr::new(0x10)).unwrap(), 0x77);
    assert_eq!(bus.vram().read(0).unwrap(), 0);
    assert_eq!(bus.ram().read(0).unwrap(), 9);
    assert_eq!(bus.ram().read(1).unwrap(), 8);
}

#[test]
fn short_image_fills_a_ram_prefix() {
    let mut bus = Address::new(4, 0);
    bus.write(Addr::new(RAM_BASE + 3), 0xAA).unwrap();
    let img: Vec<u8> = vec![0, 0, 0, 5, 0, 0, 0, 6];
    bus.load_image_bytes(&img).unwrap();
    assert_eq!(bus.ram().read(0).unwrap(), 5);
    assert_eq!(bus.ram().read(1).unwrap(), 6);
    assert_eq!(bus.ram().read(2).unwrap(), 0);
    assert_eq!(bus.ram().read(3).unwrap(), 0xAA);
}
