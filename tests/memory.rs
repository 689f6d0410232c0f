use m6502::memory::{address_to_bytes, lo_hi_to_address, Bus, Memory};

const MAX_MEMORY_SIZE: usize = u16::MAX as usize + 1;

#[test]
fn memory_creation() {
    let memory = Memory::new();
    // ensure memory is the correct size
    assert_eq!(MAX_MEMORY_SIZE, memory.memory_size());

    // By default memory should be initialised to 0
    for i in 0..MAX_MEMORY_SIZE - 1 {
        let byte = memory.read_byte(i as u16);
        assert_eq!(byte, 0u8);
    }
}

#[test]
fn memory_memory_read_write() {
    let mut memory = Memory::new();
    for i in 0..0x100 {
        memory.write_byte(i, (i % 0xff) as u8);
    }
    for i in 0..0x100 {
        let byte = memory.read_byte(i);
        assert_eq!(byte, (i % 0xff) as u8);
    }

    let mut memory = Memory::new();

    let bytes = [0x10, 0x20, 0x30, 0x40, 0x50];
    memory.write_bytes(0x0000, &bytes);
    assert_eq!(memory.read_byte(0x0000), 0x10);
    assert_eq!(memory.read_byte(0x0001), 0x20);
    assert_eq!(memory.read_byte(0x0002), 0x30);
    assert_eq!(memory.read_byte(0x0003), 0x40);
    assert_eq!(memory.read_byte(0x0004), 0x50);
    assert_eq!(memory.read_byte(0x0005), 0x00);

    memory.write_bytes(0xffff - (bytes.len() - 1) as u16, &bytes);
    assert_eq!(memory.read_byte(0xffff), 0x50);
    assert_eq!(memory.read_byte(0xfffe), 0x40);
    assert_eq!(memory.read_byte(0xfffd), 0x30);
    assert_eq!(memory.read_byte(0xfffc), 0x20);
    assert_eq!(memory.read_byte(0xfffb), 0x10);
}

#[test]
fn memory_bytes_to_addr() {
    assert_eq!(0xdeadu16, lo_hi_to_address(0xad, 0xde));
    assert_eq!(0xbeefu16, lo_hi_to_address(0xef, 0xbe));
    assert_eq!(0x0000u16, lo_hi_to_address(0, 0));
    assert_eq!(0xffffu16, lo_hi_to_address(0xff, 0xff));
    assert_eq!(0xffffu16.wrapping_add(1), lo_hi_to_address(0, 0));
    assert_eq!(0x0000u16.wrapping_sub(1), lo_hi_to_address(0xff, 0xff));

    assert_eq!(address_to_bytes(0xdeadu16), [0xad, 0xde]);
    assert_eq!(address_to_bytes(0xbeefu16), [0xef, 0xbe]);
    assert_eq!(address_to_bytes(0x0000u16), [0, 0]);
    assert_eq!(address_to_bytes(0xffffu16), [0xff, 0xff]);
    assert_eq!(address_to_bytes(0xffffu16.wrapping_add(1)), [0, 0]);
    assert_eq!(address_to_bytes(0x0000u16.wrapping_sub(1)), [0xff, 0xff]);

    assert_eq!([0xde, 0xad], address_to_bytes(lo_hi_to_address(0xde, 0xad)));
}

#[test]
fn memory_write_bytes_wraps_at_end() {
    let mut memory = Memory::new();
    memory.write_bytes(0xffff, &[0x01, 0x02]);
    assert_eq!(memory.read_byte(0xffff), 0x01);
    assert_eq!(memory.read_byte(0x0000), 0x02);
    assert_eq!(memory.read_two_bytes(0xffff), [0x01, 0x02]);
    assert_eq!(memory.read_address(0xffff), 0x0201);
}
