use shy_isa_lib::addr::{RAM_BASE, VRAM_START};
use shy_isa_lib::{Addr, AddrPort, Address, CoreError};

#[test]
fn address_space_creation() {
    let addr_space = Address::new(1024, 256);
    assert_eq!(addr_space.ram().len(), 1024);
    assert_eq!(addr_space.vram().len(), 256);
    assert_eq!(addr_space.regs().len(), 0x20);
    assert_eq!(addr_space.io().len(), 0x90);
}

#[test]
fn address_space_read_write() {
    let mut addr_space = Address::new(1024, 256);

    // RAM
    let ram_addr = Addr::from_ram_idx(10);
    addr_space.write(ram_addr, 0x12345678).unwrap();
    assert_eq!(addr_space.read(ram_addr).unwrap(), 0x12345678);

    // Register (PC)
    let reg_addr = Addr::new(0x10);
    addr_space.write(reg_addr, 0x100).unwrap();
    assert_eq!(addr_space.read(reg_addr).unwrap(), 0x100);

    // I/O
    let io_addr = Addr::new(0x80);
    addr_space.write(io_addr, 0x42).unwrap();
    assert_eq!(addr_space.read(io_addr).unwrap(), 0x42);

    // VRAM
    let vram_addr = Addr::new(VRAM_START);
    addr_space.write(vram_addr, 0xdeadbeef).unwrap();
    assert_eq!(addr_space.read(vram_addr).unwrap(), 0xdeadbeef);
}

#[test]
fn address_space_error_handling() {
    let mut addr_space = Address::new(10, 10);

    // An address far past the configured RAM capacity
    let reserved_addr = Addr::new(0x20000000);
    assert!(addr_space.read(reserved_addr).is_err());
    assert!(addr_space.write(reserved_addr, 0).is_err());

    // Opcode space
    let opcode_addr = Addr::new(0x50);
    assert!(addr_space.read(opcode_addr).is_err());
    assert!(addr_space.write(opcode_addr, 0).is_err());
}

#[test]
fn scenario_ram_round_trip() {
    let mut bus = Address::new(1024, 256);
    bus.write(Addr::new(RAM_BASE + 10), 0x12345678).unwrap();
    assert_eq!(bus.read(Addr::new(RAM_BASE + 10)).unwrap(), 0x12345678);
}

#[test]
fn scenario_program_counter_round_trip() {
    let mut bus = Address::new(1024, 256);
    bus.write(Addr::new(0x10), 0x00000100).unwrap();
    assert_eq!(bus.read(Addr::new(0x10)).unwrap(), 0x00000100);
}

#[test]
fn scenario_io_port_round_trip() {
    let mut bus = Address::new(1024, 256);
    bus.write(Addr::new(0x80), 0x42).unwrap();
    assert_eq!(bus.read(Addr::new(0x80)).unwrap(), 0x42);
}

#[test]
fn scenario_video_base_round_trip() {
    let mut bus = Address::new(1024, 256);
    bus.write(Addr::new(0x00000100), 0xDEADBEEF).unwrap();
    assert_eq!(bus.read(Addr::new(0x00000100)).unwrap(), 0xDEADBEEF);
}

#[test]
fn scenario_oversized_video_is_rejected() {
    // One word past the largest legal framebuffer: the computed end address
    // would pass the architectural ceiling, so no bus is returned.
    let r = Address::try_new(1024, 0x0010_0001);
    match r {
        Err(CoreError::InvalidInput(msg)) => {
            assert!(msg.contains("VRAM size too large"));
        }
        _ => panic!("expected InvalidInput"),
    }
}

#[test]
fn try_new_video_limit_is_exact() {
    // The largest legal framebuffer ends exactly at the ceiling.
    let bus = Address::try_new(16, 0x0010_0000).unwrap();
    assert_eq!(bus.vram_end(), 0x0010_00FF);
    assert!(Address::try_new(16, 0x0010_0001).is_err());
    // A framebuffer of 0x10010 words ends at 0x0001_010F, inside the
    // ceiling, so that configuration constructs.
    let bus = Address::try_new(16, 0x10010).unwrap();
    assert_eq!(bus.vram_end(), 0x0001_010F);
}

#[test]
fn vram_end_matches_capacity() {
    let bus = Address::new(1024, 256);
    assert_eq!(bus.vram_end(), VRAM_START + 256 - 1);
}

#[test]
fn opcode_space_rejects_both_ways() {
    let mut bus = Address::new(16, 16);
    for a in [0x20u32, 0x37, 0x54] {
        match bus.write(Addr::new(a), 1) {
            Err(CoreError::MemoryError(msg)) => {
                assert_eq!(msg, "Cannot write to opcode space");
            }
            _ => panic!("expected MemoryError"),
        }
        match bus.read(Addr::new(a)) {
            Err(CoreError::MemoryError(msg)) => {
                assert_eq!(msg, "Cannot read from opcode space");
            }
            _ => panic!("expected MemoryError"),
        }
    }
}

#[test]
fn reserved_space_rejects_both_ways() {
    let mut bus = Address::new(16, 16);
    for a in [0x1Eu32, 0x55, 0x6F] {
        match bus.read(Addr::new(a)) {
            Err(CoreError::MemoryError(msg)) => {
                assert!(msg.contains("Reserved address space"));
            }
            _ => panic!("expected MemoryError"),
        }
        assert!(bus.write(Addr::new(a), 7).is_err());
    }
    match bus.read(Addr::new(0x1E)) {
        Err(CoreError::MemoryError(msg)) => {
            assert_eq!(msg, "Reserved address space: 0x0000001e");
        }
        _ => panic!("expected MemoryError"),
    }
}

#[test]
fn device_bounds_through_the_bus() {
    let mut bus = Address::new(8, 8);
    // Video address past the configured framebuffer but inside the kind.
    let past_vram = Addr::new(VRAM_START + 8);
    assert!(bus.read(past_vram).is_err());
    assert!(bus.write(past_vram, 1).is_err());
    // RAM address past the configured capacity.
    let past_ram = Addr::new(RAM_BASE + 8);
    assert!(bus.read(past_ram).is_err());
    assert!(bus.write(past_ram, 1).is_err());
    // A rejected write leaves the devices untouched.
    assert_eq!(bus.read(Addr::new(RAM_BASE + 7)).unwrap(), 0);
}

#[test]
fn mutable_device_accessors_write_through() {
    let mut bus = Address::new(8, 8);
    bus.regs_mut().write(3, 0x33).unwrap();
    bus.io_mut().write(4, 0x44).unwrap();
    bus.vram_mut().write(5, 0x55).unwrap();
    bus.ram_mut().write(6, 0x66).unwrap();

    assert_eq!(bus.read(Addr::new(0x03)).unwrap(), 0x33);
    assert_eq!(bus.read(Addr::new(0x70 + 4)).unwrap(), 0x44);
    assert_eq!(bus.read(Addr::new(VRAM_START + 5)).unwrap(), 0x55);
    assert_eq!(bus.read(Addr::new(RAM_BASE + 6)).unwrap(), 0x66);
}
