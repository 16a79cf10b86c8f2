use interrupt_core::io::{PortWrite, PIC1_CMD, PIC1_DATA, PIC2_CMD, PIC2_DATA};
use interrupt_core::pic::{
    acknowledge, remap_pic, set_mask, InitStage, PicChip, PicPair, ALL_MASKED, KEYBOARD_LINE,
    KEYBOARD_ONLY_MASK, KEYBOARD_VECTOR,
};

fn port_write(port: u16, value: u8) -> PortWrite {
    PortWrite { port, value }
}

#[test]
fn remap_issues_the_documented_sequence() {
    let writes = remap_pic(0xB8, 0x8E);
    assert_eq!(
        writes,
        vec![
            port_write(0x20, 0x11),
            port_write(0xA0, 0x11),
            port_write(0x21, 0x00),
            port_write(0xA1, 0x08),
            port_write(0x21, 0x04),
            port_write(0xA1, 0x02),
            port_write(0x21, 0x01),
            port_write(0xA1, 0x01),
            port_write(0x21, 0xB8),
            port_write(0xA1, 0x8E),
        ]
    );
}

#[test]
fn remap_restores_other_masks_too() {
    let writes = remap_pic(0x00, 0xFF);
    assert_eq!(writes.len(), 10);
    assert_eq!(writes[8], port_write(PIC1_DATA, 0x00));
    assert_eq!(writes[9], port_write(PIC2_DATA, 0xFF));
}

#[test]
fn set_mask_writes_both_data_ports() {
    assert_eq!(set_mask(0xFD, 0xFF), vec![port_write(0x21, 0xFD), port_write(0xA1, 0xFF)]);
    assert_eq!(set_mask(0x00, 0x12), vec![port_write(0x21, 0x00), port_write(0xA1, 0x12)]);
}

#[test]
fn keyboard_mask_leaves_only_bit_one_clear() {
    let mut pair = PicPair::ready(0x00, 0x00);
    pair.apply(&set_mask(0xFD, 0xFF));
    assert_eq!(pair.master.mask, 0xFD);
    assert_eq!(pair.slave.mask, 0xFF);
    for line in 0..8u8 {
        let clear = pair.master.mask & (1 << line) == 0;
        assert_eq!(clear, line == 1);
        assert!(pair.slave.mask & (1 << line) != 0);
    }
}

#[test]
fn acknowledge_master_line_writes_master_only() {
    assert_eq!(acknowledge(1), vec![port_write(0x20, 0x20)]);
    assert_eq!(acknowledge(0), vec![port_write(0x20, 0x20)]);
    assert_eq!(acknowledge(7), vec![port_write(0x20, 0x20)]);
}

#[test]
fn acknowledge_cascaded_line_writes_master_then_slave() {
    assert_eq!(acknowledge(8), vec![port_write(0x20, 0x20), port_write(0xA0, 0x20)]);
    assert_eq!(acknowledge(12), vec![port_write(0x20, 0x20), port_write(0xA0, 0x20)]);
    assert_eq!(acknowledge(15), vec![port_write(0x20, 0x20), port_write(0xA0, 0x20)]);
}

#[test]
fn init_command_clears_the_mask_and_restarts() {
    let mut chip = PicChip::ready(0xB8, 0x20);
    chip.write_command(0x11);
    assert_eq!(chip.mask, 0);
    assert_eq!(chip.vector_base, 0);
    assert_eq!(chip.stage, InitStage::ExpectVectorBase);
    assert!(chip.mode_announced);
    assert!(!chip.single);
}

#[test]
fn init_sequence_takes_three_data_bytes_then_masks() {
    let mut chip = PicChip::ready(0xFF, 0);
    chip.write_command(0x11);
    chip.write_data(0x28);
    assert_eq!(chip.stage, InitStage::ExpectCascade);
    chip.write_data(0x04);
    assert_eq!(chip.stage, InitStage::ExpectMode);
    chip.write_data(0x01);
    assert_eq!(chip.stage, InitStage::Ready);
    assert_eq!(chip.vector_base, 0x28);
    assert_eq!(chip.cascade, 0x04);
    assert_eq!(chip.mode, 0x01);
    assert_eq!(chip.mask, 0x00);
    chip.write_data(0xFB);
    assert_eq!(chip.mask, 0xFB);
    assert_eq!(chip.read_data(), 0xFB);
}

#[test]
fn single_controller_without_mode_byte_is_ready_after_the_base() {
    let mut chip = PicChip::ready(0xFF, 0);
    chip.write_command(0x12);
    assert!(chip.single);
    assert!(!chip.mode_announced);
    chip.write_data(0x47);
    assert_eq!(chip.vector_base, 0x40);
    assert_eq!(chip.stage, InitStage::Ready);
}

#[test]
fn single_controller_with_mode_byte_skips_the_cascade() {
    let mut chip = PicChip::ready(0xFF, 0);
    chip.write_command(0x13);
    chip.write_data(0x08);
    assert_eq!(chip.stage, InitStage::ExpectMode);
    chip.write_data(0x03);
    assert_eq!(chip.stage, InitStage::Ready);
    assert_eq!(chip.mode, 0x03);
    assert_eq!(chip.cascade, 0x00);
}

#[test]
fn cascaded_controller_without_mode_byte_is_ready_after_the_cascade() {
    let mut chip = PicChip::ready(0xFF, 0);
    chip.write_command(0x10);
    chip.write_data(0x08);
    assert_eq!(chip.stage, InitStage::ExpectCascade);
    chip.write_data(0x02);
    assert_eq!(chip.stage, InitStage::Ready);
}

#[test]
fn other_commands_leave_the_registers() {
    let mut chip = PicChip::ready(0x12, 0x08);
    let before = chip;
    chip.write_command(0x0A);
    assert_eq!(chip, before);
}

#[test]
fn remap_keeps_the_masks_of_the_pair() {
    let mut pair = PicPair::ready(0xB8, 0x8E);
    let master = pair.inb(PIC1_DATA).unwrap();
    let slave = pair.inb(PIC2_DATA).unwrap();
    assert_eq!((master, slave), (0xB8, 0x8E));
    pair.apply(&remap_pic(master, slave));
    assert_eq!(pair.master.mask, 0xB8);
    assert_eq!(pair.slave.mask, 0x8E);
    assert_eq!(pair.master.vector_base, 0);
    assert_eq!(pair.slave.vector_base, 8);
    assert_eq!(pair.master.cascade, 4);
    assert_eq!(pair.slave.cascade, 2);
    assert_eq!(pair.master.mode, 1);
    assert_eq!(pair.slave.mode, 1);
    assert_eq!(pair.master.stage, InitStage::Ready);
    assert_eq!(pair.slave.stage, InitStage::Ready);
}

#[test]
fn remap_works_from_the_middle_of_an_initialisation() {
    let mut pair = PicPair::ready(0x55, 0xAA);
    pair.outb(PIC1_CMD, 0x11);
    pair.outb(PIC2_CMD, 0x11);
    pair.outb(PIC2_DATA, 0x70);
    pair.master.mask = 0x3C;
    pair.slave.mask = 0xC3;
    let master = pair.inb(PIC1_DATA).unwrap();
    let slave = pair.inb(PIC2_DATA).unwrap();
    pair.apply(&remap_pic(master, slave));
    assert_eq!(pair.master.mask, 0x3C);
    assert_eq!(pair.slave.mask, 0xC3);
    assert_eq!(pair.slave.vector_base, 8);
    assert_eq!(pair.master.stage, InitStage::Ready);
    assert_eq!(pair.slave.stage, InitStage::Ready);
}

#[test]
fn remap_and_mask_twice_give_the_same_state() {
    let mut pair = PicPair::ready(0xB8, 0x8E);
    let m = pair.inb(PIC1_DATA).unwrap();
    let s = pair.inb(PIC2_DATA).unwrap();
    pair.apply(&remap_pic(m, s));
    pair.apply(&set_mask(0xFD, 0xFF));
    let once = pair;
    let m = pair.inb(PIC1_DATA).unwrap();
    let s = pair.inb(PIC2_DATA).unwrap();
    pair.apply(&remap_pic(m, s));
    pair.apply(&set_mask(0xFD, 0xFF));
    assert_eq!(pair, once);
    assert_eq!(pair.master.mask, 0xFD);
    assert_eq!(pair.slave.mask, 0xFF);
}

#[test]
fn ports_outside_the_pair_are_ignored() {
    let mut pair = PicPair::ready(0x01, 0x02);
    let before = pair;
    pair.outb(0x60, 0xFF);
    pair.outb(0x3D4, 0x0F);
    assert_eq!(pair, before);
    assert_eq!(pair.inb(0x60), None);
    assert_eq!(pair.inb(PIC1_CMD), None);
}

#[test]
fn only_the_keyboard_is_delivered_after_setup() {
    let mut pair = PicPair::ready(0x00, 0x00);
    pair.apply(&remap_pic(0x00, 0x00));
    pair.apply(&set_mask(KEYBOARD_ONLY_MASK, ALL_MASKED));
    for line in 0..=255u8 {
        let mut probe = pair;
        let vector = probe.raise(line);
        if line == KEYBOARD_LINE {
            assert_eq!(vector, Some(KEYBOARD_VECTOR));
        } else {
            assert_eq!(vector, None);
            assert_eq!(probe, pair);
        }
    }
}

#[test]
fn unacknowledged_interrupt_stalls_its_line() {
    let mut pair = PicPair::ready(KEYBOARD_ONLY_MASK, ALL_MASKED);
    let idle = pair;
    assert_eq!(pair.raise(KEYBOARD_LINE), Some(1));
    assert_eq!(pair.master.in_service, 0x02);
    assert_eq!(pair.raise(KEYBOARD_LINE), None);
    pair.apply(&acknowledge(KEYBOARD_LINE));
    assert_eq!(pair, idle);
    assert_eq!(pair.raise(KEYBOARD_LINE), Some(1));
}

#[test]
fn cascaded_line_passes_both_controllers() {
    let mut pair = PicPair::ready(0x00, 0x00);
    let idle = pair;
    assert_eq!(pair.raise(12), Some(12));
    assert_eq!(pair.slave.in_service, 0x10);
    assert_eq!(pair.master.in_service, 0x04);
    assert_eq!(pair.raise(12), None);
    assert_eq!(pair.raise(14), None);
    assert_eq!(pair.raise(5), None);
    assert_eq!(pair.raise(1), Some(1));
    pair.apply(&acknowledge(1));
    pair.apply(&acknowledge(12));
    assert_eq!(pair, idle);
}

#[test]
fn cascaded_line_is_held_back_by_a_masked_cascade() {
    let mut pair = PicPair::ready(0x04, 0x00);
    let before = pair;
    assert_eq!(pair.raise(9), None);
    assert_eq!(pair, before);
}

#[test]
fn higher_priority_line_interrupts_a_lower_one() {
    let mut pair = PicPair::ready(0x00, 0xFF);
    assert_eq!(pair.raise(5), Some(5));
    assert_eq!(pair.raise(6), None);
    assert_eq!(pair.raise(3), Some(3));
    assert_eq!(pair.master.in_service, 0x28);
    pair.outb(PIC1_CMD, 0x20);
    assert_eq!(pair.master.in_service, 0x20);
    pair.outb(PIC1_CMD, 0x20);
    assert_eq!(pair.master.in_service, 0x00);
    pair.outb(PIC1_CMD, 0x20);
    assert_eq!(pair.master.in_service, 0x00);
}

#[test]
fn uninitialised_controller_delivers_nothing() {
    let mut pair = PicPair::ready(0x00, 0x00);
    pair.outb(PIC1_CMD, 0x11);
    assert_eq!(pair.raise(1), None);
}

#[test]
fn vector_base_drops_its_low_bits() {
    let chip = PicChip::ready(0, 0x27);
    assert_eq!(chip.vector_base, 0x20);
    let mut pair = PicPair { master: PicChip::ready(0, 0x20), slave: PicChip::ready(0, 0x28) };
    assert_eq!(pair.raise(1), Some(0x21));
    pair.apply(&acknowledge(1));
    assert_eq!(pair.raise(15), Some(0x2F));
}
