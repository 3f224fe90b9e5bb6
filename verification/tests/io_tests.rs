use shy_isa_lib::{AddrPort, CoreError, Io};

#[test]
fn test_io_creation() {
    let io = Io::new();
    assert_eq!(io.len(), 0x90); // 144 ports

    for i in 0..0x90 {
        assert_eq!(io.read(i).unwrap(), 0);
    }
}

#[test]
fn test_io_read_write() {
    let mut io = Io::new();

    assert!(io.write(0x00, 0x12345678).is_ok()); // port 0x70
    assert!(io.write(0x10, 0xABCDEF00).is_ok()); // port 0x80
    assert!(io.write(0x8F, 0xFFFFFFFF).is_ok()); // port 0xFF

    assert_eq!(io.read(0x00).unwrap(), 0x12345678);
    assert_eq!(io.read(0x10).unwrap(), 0xABCDEF00);
    assert_eq!(io.read(0x8F).unwrap(), 0xFFFFFFFF);
}

#[test]
fn test_io_bounds() {
    let mut io = Io::new();

    assert!(io.read(0x90).is_err());
    assert!(io.write(0x90, 0x12345678).is_err());
}

#[test]
fn test_port_address_conversion() {
    assert_eq!(Io::port_addr(0x00), 0x70);
    assert_eq!(Io::port_addr(0x10), 0x80);
    assert_eq!(Io::port_addr(0x8F), 0xFF);

    assert_eq!(Io::port_offset(0x70), 0x00);
    assert_eq!(Io::port_offset(0x80), 0x10);
    assert_eq!(Io::port_offset(0xFF), 0x8F);
}

#[test]
fn io_test_raw_access() {
    let mut io = Io::new();

    assert!(io.set_raw(0x10, 0x12345678).is_ok());
    assert_eq!(io.get_raw(0x10), Some(0x12345678));
    assert_eq!(io.get_raw(0x90), None); // out of bounds
}

#[test]
fn io_test_hello_world_level() {
    let io = Io::new();
    assert_eq!(io.len(), 144); // 0x90 ports
    assert!(!io.is_empty());

    let mut io = Io::new();
    assert!(io.write(0, 0x42).is_ok());
    assert_eq!(io.read(0).unwrap(), 0x42);
}

#[test]
fn io_default_is_zeroed() {
    let io = Io::default();
    assert_eq!(io.len(), 144);
    for i in 0..144 {
        assert_eq!(io.read(i).unwrap(), 0);
    }
}

#[test]
fn io_oob_messages_name_the_offset() {
    let mut io = Io::new();
    match io.set_raw(0x90, 1) {
        Err(CoreError::MemoryError(msg)) => assert_eq!(msg, "IO offset 0x90 OOB"),
        _ => panic!("expected MemoryError"),
    }
    match io.write(0xA0, 1) {
        Err(CoreError::MemoryError(msg)) => {
            assert_eq!(msg, "IO offset 0xa0 out of bounds (len=0x90)");
        }
        _ => panic!("expected MemoryError"),
    }
}
