use shy_isa_lib::{AddrPort, CoreError, Vram};

#[test]
fn test_vram_creation() {
    let vram = Vram::new(256);
    assert_eq!(vram.len(), 256);
    assert!(vram.data().iter().all(|&x| x == 0));
}

#[test]
fn test_vram_hello_world() {
    let mut vram = Vram::new(64);
    assert!(vram.write(0, 0x12345678).is_ok());
    assert_eq!(vram.read(0).unwrap(), 0x12345678);
}

#[test]
fn vram_bounds_error_names_offset_and_len() {
    let mut vram = Vram::new(16);
    match vram.read(16) {
        Err(CoreError::MemoryError(msg)) => {
            assert_eq!(msg, "VRAM offset 0x10 out of bounds (len=0x10)");
        }
        _ => panic!("expected MemoryError"),
    }
    match vram.write(17, 1) {
        Err(CoreError::MemoryError(msg)) => {
            assert_eq!(msg, "VRAM offset 0x11 out of bounds (len=0x10)");
        }
        _ => panic!("expected MemoryError"),
    }
    assert_eq!(vram.read(15).unwrap(), 0);
}

#[test]
fn vram_data_mut_writes_through() {
    let mut vram = Vram::new(4);
    vram.data_mut()[2] = 0xCAFE;
    assert_eq!(vram.read(2).unwrap(), 0xCAFE);
    assert_eq!(vram.data()[2], 0xCAFE);
}

#[test]
fn vram_zero_capacity_is_empty() {
    let mut vram = Vram::new(0);
    assert_eq!(vram.len(), 0);
    assert!(vram.is_empty());
    assert!(vram.read(0).is_err());
    assert!(vram.write(0, 1).is_err());
}
