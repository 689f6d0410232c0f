use m6502::widgets::{AddressWidget, RegisterWidget, StatusRegisterWidget};
use m6502::instruction::{decode_instruction, AddressMode, Instruction};
use m6502::status::Status;

fn all_flags(bits: u8) -> Status {
    Status {
        negative: bits & 0x80 != 0,
        overflow: bits & 0x40 != 0,
        ignored: bits & 0x20 != 0,
        brk: bits & 0x10 != 0,
        decimal: bits & 0x08 != 0,
        irq_disable: bits & 0x04 != 0,
        zero: bits & 0x02 != 0,
        carry: bits & 0x01 != 0,
    }
}

#[test]
fn status_byte_layout() {
    assert_eq!(Status::default().as_byte(), 0x34);
    assert_eq!(all_flags(0x00).as_byte(), 0x20);
    assert_eq!(all_flags(0xff).as_byte(), 0xff);
    assert_eq!(all_flags(0x81).as_byte(), 0xa1);
}

#[test]
fn status_default_flags() {
    let s = Status::default();
    assert!(!s.negative && !s.overflow && !s.decimal && !s.zero && !s.carry);
    assert!(s.irq_disable && s.brk && s.ignored);
}

#[test]
fn status_round_trips() {
    for b in 0..=255u8 {
        let s = all_flags(b);
        // bit 5 always reads as set
        assert_eq!(s.as_byte() & 0x20, 0x20);
        let back = Status::from_byte(s.as_byte());
        assert_eq!(back, Status { ignored: true, ..s });
        assert_eq!(back.as_byte(), s.as_byte());
        assert_eq!(Status::from_byte(b).as_byte(), b | 0x20);
    }
}

#[test]
fn decoder_table_entries() {
    assert_eq!(decode_instruction(0x69), Some((Instruction::ADC, AddressMode::Immediate, 2)));
    assert_eq!(decode_instruction(0x00), Some((Instruction::BRK, AddressMode::Implied, 7)));
    assert_eq!(decode_instruction(0x6c), Some((Instruction::JMP, AddressMode::Indirect, 5)));
    assert_eq!(decode_instruction(0xb1), Some((Instruction::LDA, AddressMode::IndirectY, 5)));
    assert_eq!(decode_instruction(0xb9), Some((Instruction::LDA, AddressMode::AbsoluteY, 4)));
    assert_eq!(decode_instruction(0xf1), Some((Instruction::SBC, AddressMode::IndirectY, 5)));
    assert_eq!(decode_instruction(0x02), None);
    assert_eq!(decode_instruction(0xfa), None);
    assert_eq!(decode_instruction(0xfb), None);
    assert_eq!(decode_instruction(0xfc), None);
    let defined = (0..=255u8).filter(|op| decode_instruction(*op).is_some()).count();
    assert_eq!(defined, 151);
}

#[test]
fn operand_sizes() {
    assert_eq!(AddressMode::Absolute.operand_size(), 2);
    assert_eq!(AddressMode::Indirect.operand_size(), 2);
    assert_eq!(AddressMode::Immediate.operand_size(), 1);
    assert_eq!(AddressMode::Relative.operand_size(), 1);
    assert_eq!(AddressMode::Implied.operand_size(), 0);
    assert_eq!(AddressMode::Accumulator.operand_size(), 0);
    assert_eq!(Instruction::ADC.name(), "ADC");
}

#[test]
fn widget_letters() {
    let w = StatusRegisterWidget::new(Status::default());
    let letters: String = w.letters().into_iter().collect();
    assert_eq!(letters, "nv-BdIzc");
    let a = AddressWidget::new("PC".to_string(), 0x1234);
    assert_eq!((a.name.as_str(), a.address), ("PC", 0x1234));
    let r = RegisterWidget::new("A".to_string(), 0x12);
    assert_eq!((r.name.as_str(), r.value), ("A", 0x12));
}
