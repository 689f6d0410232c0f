use m6502::bus::{
    address_to_bytes, bytes_to_address, lo_hi_to_address, Addressable, Bus, Ram, UnconnectedBus,
    MAX_MEMORY_SIZE,
};

#[test]
fn ram_creation() {
    let memory = Ram::default();
    // ensure memory is the correct size
    assert_eq!(MAX_MEMORY_SIZE, memory.size());

    // By default memory should be initialised to 0
    for i in 0..MAX_MEMORY_SIZE - 1 {
        let byte = memory.read_byte(i as u16);
        assert_eq!(byte, 0u8);
    }
}

#[test]
fn bus_memory_read_write() {
    let mut memory = Ram::new(0x100);
    for i in 0..0x100 {
        memory.write_byte(i, (i % 0xff) as u8);
    }
    for i in 0..0x100 {
        let byte = memory.read_byte(i);
        assert_eq!(byte, (i % 0xff) as u8);
    }

    let mut memory = Ram::default();

    let bytes = [0x10, 0x20, 0x30, 0x40, 0x50];
    memory.write_bytes(0x0000, &bytes);
    assert_eq!(memory.read_byte(0x0000), 0x10);
    assert_eq!(memory.read_byte(0x0001), 0x20);
    assert_eq!(memory.read_byte(0x0002), 0x30);
    assert_eq!(memory.read_byte(0x0003), 0x40);
    assert_eq!(memory.read_byte(0x0004), 0x50);
    assert_eq!(memory.read_byte(0x0005), 0x00);

    memory.write_bytes(0xffff - (bytes.len() - 1) as u16, &bytes);
    assert_eq!(memory.read_byte(0xffff), 0x50);
    assert_eq!(memory.read_byte(0xfffe), 0x40);
    assert_eq!(memory.read_byte(0xfffd), 0x30);
    assert_eq!(memory.read_byte(0xfffc), 0x20);
    assert_eq!(memory.read_byte(0xfffb), 0x10);
}

#[test]
fn bus_bytes_to_addr() {
    assert_eq!(0xdeadu16, lo_hi_to_address(0xad, 0xde));
    assert_eq!(0xbeefu16, lo_hi_to_address(0xef, 0xbe));
    assert_eq!(0x0000u16, lo_hi_to_address(0, 0));
    assert_eq!(0xffffu16, lo_hi_to_address(0xff, 0xff));
    assert_eq!(0xffffu16.wrapping_add(1), lo_hi_to_address(0, 0));
    assert_eq!(0x0000u16.wrapping_sub(1), lo_hi_to_address(0xff, 0xff));

    assert_eq!(address_to_bytes(0xdeadu16), [0xad, 0xde]);
    assert_eq!(address_to_bytes(0xbeefu16), [0xef, 0xbe]);
    assert_eq!(address_to_bytes(0x0000u16), [0, 0]);
    assert_eq!(address_to_bytes(0xffffu16), [0xff, 0xff]);
    assert_eq!(address_to_bytes(0xffffu16.wrapping_add(1)), [0, 0]);
    assert_eq!(address_to_bytes(0x0000u16.wrapping_sub(1)), [0xff, 0xff]);

    assert_eq!([0xde, 0xad], address_to_bytes(lo_hi_to_address(0xde, 0xad)));
}

#[test]
fn test_unconnected_bus() {
    let mut bus = UnconnectedBus {};
    assert_eq!(bus.size(), 0);
    assert_eq!(bus.read_byte(0), 0);
    bus.write_byte(0, 0);
    bus.write_byte(0xffff, 0);
}

#[test]
#[should_panic(expected = "Start and end must be aligned")]
fn unaligned_ram_size() {
    Bus::new().add_ram(Ram::new(0x150), 0x00).unwrap();
}

#[test]
#[should_panic(expected = "Start and end must be aligned")]
fn unaligned_start_address() {
    Bus::new().add_ram(Ram::new(0x200), 0x0050).unwrap();
}

#[test]
fn test_overlap_bus() -> Result<(), String> {
    let mut ram1 = Ram::new(0x200);
    for i in 0..0x200 {
        ram1.write_byte(i, 0x01);
    }
    let mut ram2 = Ram::new(0x200);
    for i in 0..0x200 {
        ram2.write_byte(i, 0x02);
    }
    // Create a bus where the two segments overlap
    let mut bus = Bus::new().add_ram(ram1, 0x0000)?.add_ram(ram2, 0x0100)?;

    assert_eq!(0x01, bus.read_byte(0x0000));
    assert_eq!(0x01, bus.read_byte(0x00ff));
    assert_eq!(0x02, bus.read_byte(0x0100));
    assert_eq!(0x02, bus.read_byte(0x01ff));

    bus.write_byte(0x0000, 0xff);
    bus.write_byte(0x00ff, 0xff);
    bus.write_byte(0x0100, 0xff);
    bus.write_byte(0x01ff, 0xff);

    let ram1 = bus.get_segment_at_start_address(0x0000).unwrap();
    let ram2 = bus.get_segment_at_start_address(0x0100).unwrap();

    assert_eq!(0xff, ram1.read_byte(0x0000));
    assert_eq!(0xff, ram1.read_byte(0x00ff));
    assert_eq!(0x01, ram1.read_byte(0x0100));
    assert_eq!(0x01, ram1.read_byte(0x01ff));
    assert_eq!(0xff, ram2.read_byte(0x0000));
    assert_eq!(0xff, ram2.read_byte(0x00ff));
    assert_eq!(0x02, ram2.read_byte(0x0100));
    assert_eq!(0x02, ram2.read_byte(0x01ff));

    Ok(())
}

#[test]
fn test_rom() -> Result<(), String> {
    // Create some fake rom images
    let test_rom1: Vec<u8> = (0..0x200).map(|it| (it % 0x100) as u8).collect();
    let test_rom2: Vec<u8> = test_rom1.iter().rev().copied().collect();

    // Load one at the start, one in the middle somewhere and one at the end
    let bus = Bus::new()
        .add_rom(&test_rom1, 0x0000)?
        .add_rom(&test_rom1, 0x1000)?
        .add_rom_at_end(&test_rom2)?;

    assert_eq!(0x00, bus.read_byte(0x0000));
    assert_eq!(0x01, bus.read_byte(0x0001));
    assert_eq!(0xff, bus.read_byte(0x01ff));

    assert_eq!(0x00, bus.read_byte(0x1000));
    assert_eq!(0x01, bus.read_byte(0x1001));
    assert_eq!(0xff, bus.read_byte(0x11ff));

    assert_eq!(0xff, bus.read_byte(0xfe00));
    assert_eq!(0x00, bus.read_byte(0xffff));

    Ok(())
}

#[test]
fn rom_drops_writes() {
    let mut bus = Bus::new()
        .add_ram(Ram::default(), 0)
        .unwrap()
        .add_rom(&[0x11; 0x100], 0x2000)
        .unwrap();
    bus.write_byte(0x2000, 0x99);
    assert_eq!(bus.read_byte(0x2000), 0x11);
    bus.write_byte(0x1fff, 0x99);
    assert_eq!(bus.read_byte(0x1fff), 0x99);
}

#[test]
fn unmapped_reads_zero_and_drops_writes() {
    let mut bus = Bus::new().add_ram(Ram::new(0x100), 0).unwrap();
    bus.write_byte(0x0300, 0x42);
    assert_eq!(bus.read_byte(0x0300), 0);
    assert_eq!(bus.size(), MAX_MEMORY_SIZE);
}

#[test]
fn segment_placement_errors() {
    assert!(Bus::new().add_ram(Ram::new(0), 0).is_err());
    assert!(Bus::new().add_ram(Ram::new(0x200), 0xff00).is_err());
    assert!(Bus::new().add_rom_at_end(&[0u8; 0x150]).is_err());
    assert!(Bus::new().add_rom_at_end(&[]).is_err());
    assert!(Bus::new().add_rom_at_end(&vec![0u8; 0x10000]).is_ok());
    assert!(Bus::new().add_ram(Ram::new(0x100), 0xff00).is_ok());
}

#[test]
fn address_reads_are_little_endian() {
    let bus = Bus::new().add_rom(&[0x34, 0x12, 0, 0].repeat(0x40), 0x0000).unwrap();
    assert_eq!(bus.read_two_bytes(0x0000), [0x34, 0x12]);
    assert_eq!(bus.read_address(0x0000), lo_hi_to_address(bus.read_byte(0), bus.read_byte(1)));
    assert_eq!(bus.read_address(0x0000), 0x1234);
    assert_eq!(bytes_to_address(&[0x02, 0x10]), 0x1002);
}

#[test]
fn address_bytes_round_trip() {
    for lo in [0u8, 1, 0x7f, 0x80, 0xff] {
        for hi in [0u8, 1, 0x7f, 0x80, 0xff] {
            assert_eq!(address_to_bytes(lo_hi_to_address(lo, hi)), [lo, hi]);
        }
    }
}
