use interrupt_core::idt::{
    idt_init, isr1_handler, IdtDescriptor, IdtGate64, InitStep, InterruptTable, GATE_COUNT,
    INTERRUPT_GATE, TABLE_SIZE,
};
use interrupt_core::io::{PortWrite, KEYBOARD_DATA, PIC1_DATA, PIC2_CMD, PIC2_DATA};
use interrupt_core::keyboard::{KeyEvent, NamedKey, SinkRequest};
use interrupt_core::pic::{PicPair, KEYBOARD_LINE, KEYBOARD_VECTOR};
use interrupt_core::terminal::{BackgroundColor, ForegroundColor};

fn write_step(port: u16, value: u8) -> InitStep {
    InitStep::Write(PortWrite { port, value })
}

#[test]
fn all_ones_address_fills_every_offset_field() {
    let gate = IdtGate64::interrupt_gate(0xFFFF_FFFF_FFFF_FFFF, 0x08);
    assert_eq!(gate.offset_low, 0xFFFF);
    assert_eq!(gate.offset_mid, 0xFFFF);
    assert_eq!(gate.offset_high, 0xFFFF_FFFF);
    assert_eq!(gate.selector, 0x08);
    assert_eq!(gate.ist, 0);
    assert_eq!(gate.type_attr, 0x8E);
    assert_eq!(gate.reserved, 0);
    assert_eq!(gate.handler_address(), 0xFFFF_FFFF_FFFF_FFFF);
    assert_eq!(
        gate.to_bytes(),
        [
            0xFF, 0xFF, 0x08, 0x00, 0x00, 0x8E, 0xFF, 0xFF, 0xFF, 0xFF, 0xFF, 0xFF, 0x00, 0x00,
            0x00, 0x00
        ]
    );
}

#[test]
fn address_is_split_at_bits_sixteen_and_thirty_two() {
    let gate = IdtGate64::interrupt_gate(0x1234_5678_9ABC_DEF0, 0x10);
    assert_eq!(gate.offset_low, 0xDEF0);
    assert_eq!(gate.offset_mid, 0x9ABC);
    assert_eq!(gate.offset_high, 0x1234_5678);
    assert_eq!(gate.handler_address(), 0x1234_5678_9ABC_DEF0);
    assert_eq!(
        gate.to_bytes(),
        [
            0xF0, 0xDE, 0x10, 0x00, 0x00, 0x8E, 0xBC, 0x9A, 0x78, 0x56, 0x34, 0x12, 0x00, 0x00,
            0x00, 0x00
        ]
    );
}

#[test]
fn every_field_is_serialised_at_its_offset() {
    let gate = IdtGate64 {
        offset_low: 0x0102,
        selector: 0x0304,
        ist: 0x05,
        type_attr: 0x06,
        offset_mid: 0x0708,
        offset_high: 0x090A_0B0C,
        reserved: 0x0D0E_0F10,
    };
    assert_eq!(
        gate.to_bytes(),
        [
            0x02, 0x01, 0x04, 0x03, 0x05, 0x06, 0x08, 0x07, 0x0C, 0x0B, 0x0A, 0x09, 0x10, 0x0F,
            0x0E, 0x0D
        ]
    );
    assert_eq!(gate.handler_address(), 0x090A_0B0C_0708_0102);
    assert!(!gate.enabled());
}

#[test]
fn small_address_leaves_the_upper_fields_zero() {
    let gate = IdtGate64::interrupt_gate(0x0000_0000_0000_0001, 0x08);
    assert_eq!(gate.offset_low, 1);
    assert_eq!(gate.offset_mid, 0);
    assert_eq!(gate.offset_high, 0);
    let gate = IdtGate64::interrupt_gate(0x0000_0000_0001_0000, 0x08);
    assert_eq!((gate.offset_low, gate.offset_mid, gate.offset_high), (0, 1, 0));
    let gate = IdtGate64::interrupt_gate(0x0000_0001_0000_0000, 0x08);
    assert_eq!((gate.offset_low, gate.offset_mid, gate.offset_high), (0, 0, 1));
}

#[test]
fn missing_gate_is_all_zero() {
    let gate = IdtGate64::missing();
    assert_eq!(gate.to_bytes(), [0u8; 16]);
    assert!(!gate.enabled());
    assert_eq!(gate.handler_address(), 0);
}

#[test]
fn enabled_means_interrupt_gate_attribute() {
    assert_eq!(INTERRUPT_GATE, 0x8E);
    assert!(IdtGate64::interrupt_gate(0x1000, 0x08).enabled());
    let mut gate = IdtGate64::interrupt_gate(0x1000, 0x08);
    gate.type_attr = 0x0E;
    assert!(!gate.enabled());
}

#[test]
fn limit_is_sixteen_times_the_gates_less_one() {
    assert_eq!(IdtDescriptor::new(0, 256).limit, 4095);
    assert_eq!(IdtDescriptor::new(0, 1).limit, 15);
    assert_eq!(IdtDescriptor::new(0, 2).limit, 31);
    assert_eq!(IdtDescriptor::new(0, 32).limit, 511);
    assert_eq!(IdtDescriptor::new(0, 4096).limit, 65535);
    for gates in 1..=4096u16 {
        assert_eq!(IdtDescriptor::new(7, gates).limit as u32, 16 * gates as u32 - 1);
    }
}

#[test]
fn descriptor_of_the_table_has_limit_4095() {
    let table = InterruptTable::new();
    let descriptor = table.descriptor(0x0010_2000);
    assert_eq!(descriptor.limit, 4095);
    assert_eq!(descriptor.base, 0x0010_2000);
    assert_eq!(TABLE_SIZE, 4096);
    assert_eq!(GATE_COUNT, 256);
}

#[test]
fn descriptor_is_ten_bytes_without_padding() {
    let descriptor = IdtDescriptor::new(0x1122_3344_5566_7788, 256);
    assert_eq!(
        descriptor.to_bytes(),
        [0xFF, 0x0F, 0x88, 0x77, 0x66, 0x55, 0x44, 0x33, 0x22, 0x11]
    );
    let descriptor = IdtDescriptor { limit: 0x0201, base: 0x0A09_0807_0605_0403 };
    assert_eq!(
        descriptor.to_bytes(),
        [0x01, 0x02, 0x03, 0x04, 0x05, 0x06, 0x07, 0x08, 0x09, 0x0A]
    );
}

#[test]
fn new_table_has_no_handlers() {
    let table = InterruptTable::new();
    for vector in 0..=255u8 {
        assert_eq!(table.gate(vector), IdtGate64::missing());
    }
    assert_eq!(table.to_bytes(), vec![0u8; 4096]);
}

#[test]
fn set_gate_changes_one_vector() {
    let mut table = InterruptTable::new();
    let gate = IdtGate64::interrupt_gate(0xDEAD_BEEF, 0x08);
    table.set_gate(255, gate);
    table.set_gate(0, gate);
    for vector in 1..255u8 {
        assert_eq!(table.gate(vector), IdtGate64::missing());
    }
    assert_eq!(table.gate(0), gate);
    assert_eq!(table.gate(255), gate);
    let bytes = table.to_bytes();
    assert_eq!(bytes.len(), 4096);
    assert_eq!(&bytes[0..16], &gate.to_bytes());
    assert_eq!(&bytes[4080..4096], &gate.to_bytes());
    assert!(bytes[16..4080].iter().all(|b| *b == 0));
}

#[test]
fn init_enables_exactly_the_keyboard_vector() {
    let handler = 0xFFFF_8000_0010_2030u64;
    let init = idt_init(handler, 0x08, 0xB8, 0x8E, 0x0020_0000);
    assert_eq!(KEYBOARD_VECTOR, 1);
    for vector in 0..=255u8 {
        let gate = init.table.gate(vector);
        if vector == KEYBOARD_VECTOR {
            assert_eq!(gate.type_attr, 0x8E);
            assert!(gate.enabled());
            assert_ne!(gate.handler_address(), 0);
            assert_eq!(gate.handler_address(), handler);
            assert_eq!(gate.selector, 0x08);
            assert_eq!(gate.ist, 0);
            assert_eq!(gate.reserved, 0);
        } else {
            assert!(!gate.enabled());
            assert_eq!(gate, IdtGate64::missing());
        }
    }
    let enabled = (0..=255u8).filter(|v| init.table.gate(*v).enabled()).count();
    assert_eq!(enabled, 1);
}

#[test]
fn init_takes_the_selector_it_is_given() {
    let init = idt_init(0x4000, 0x10, 0, 0, 0);
    assert_eq!(init.table.gate(1).selector, 0x10);
    assert_eq!(init.table.gate(1), IdtGate64::interrupt_gate(0x4000, 0x10));
}

#[test]
fn init_table_bytes_hold_the_keyboard_gate_at_offset_sixteen() {
    let init = idt_init(0x1234_5678_9ABC_DEF0, 0x08, 0xB8, 0x8E, 0);
    let bytes = init.table.to_bytes();
    assert_eq!(bytes.len(), 4096);
    assert!(bytes[0..16].iter().all(|b| *b == 0));
    assert_eq!(
        &bytes[16..32],
        &[
            0xF0, 0xDE, 0x08, 0x00, 0x00, 0x8E, 0xBC, 0x9A, 0x78, 0x56, 0x34, 0x12, 0x00, 0x00,
            0x00, 0x00
        ]
    );
    assert!(bytes[32..].iter().all(|b| *b == 0));
}

#[test]
fn init_steps_program_the_controllers_then_load_then_enable() {
    let init = idt_init(0x4000, 0x08, 0xB8, 0x8E, 0x0020_0000);
    assert_eq!(
        init.steps,
        vec![
            write_step(0x20, 0x11),
            write_step(0xA0, 0x11),
            write_step(0x21, 0x00),
            write_step(0xA1, 0x08),
            write_step(0x21, 0x04),
            write_step(0xA1, 0x02),
            write_step(0x21, 0x01),
            write_step(0xA1, 0x01),
            write_step(0x21, 0xB8),
            write_step(0xA1, 0x8E),
            write_step(0x21, 0xFD),
            write_step(0xA1, 0xFF),
            InitStep::LoadTable(IdtDescriptor { limit: 4095, base: 0x0020_0000 }),
            InitStep::EnableInterrupts,
        ]
    );
}

#[test]
fn init_leaves_only_the_keyboard_line_deliverable() {
    let mut pair = PicPair::ready(0x00, 0x00);
    let master = pair.inb(PIC1_DATA).unwrap();
    let slave = pair.inb(PIC2_DATA).unwrap();
    let init = idt_init(0x4000, 0x08, master, slave, 0);
    for step in &init.steps {
        if let InitStep::Write(w) = step {
            pair.outb(w.port, w.value);
        }
    }
    assert_eq!(pair.master.mask, 0xFD);
    assert_eq!(pair.slave.mask, 0xFF);
    for line in 0..16u8 {
        let mut probe = pair;
        match probe.raise(line) {
            Some(vector) => {
                assert_eq!(line, KEYBOARD_LINE);
                assert!(init.table.gate(vector).enabled());
                assert_eq!(init.table.gate(vector).handler_address(), 0x4000);
            }
            None => assert_ne!(line, KEYBOARD_LINE),
        }
    }
}

#[test]
fn keyboard_interrupt_emits_a_and_acknowledges_the_master_only() {
    assert_eq!(KEYBOARD_DATA, 0x60);
    let service = isr1_handler(0x1E);
    assert_eq!(service.event, KeyEvent::Printable('a'));
    assert_eq!(
        service.event.sink_request(),
        SinkRequest::Char { c: 'a', fg: ForegroundColor::White, bg: BackgroundColor::Black }
    );
    assert_eq!(service.writes, vec![PortWrite { port: 0x20, value: 0x20 }]);
    assert!(service.writes.iter().all(|w| w.port != 0xA0));
    assert!(service.writes.iter().all(|w| w.port != PIC2_CMD));
}

#[test]
fn every_scancode_is_acknowledged() {
    for code in 0..=255u8 {
        let service = isr1_handler(code);
        assert_eq!(service.writes, vec![PortWrite { port: 0x20, value: 0x20 }]);
    }
    assert_eq!(isr1_handler(0xFF).event, KeyEvent::Unhandled);
    assert_eq!(isr1_handler(0x01).event, KeyEvent::Named(NamedKey::Escape));
}

#[test]
fn servicing_returns_the_controllers_to_idle() {
    let mut pair = PicPair::ready(0xFD, 0xFF);
    let idle = pair;
    for code in [0x1Eu8, 0x9E, 0x01, 0xFF] {
        assert_eq!(pair.raise(KEYBOARD_LINE), Some(KEYBOARD_VECTOR));
        assert_eq!(pair.raise(KEYBOARD_LINE), None);
        let service = isr1_handler(code);
        pair.apply(&service.writes);
        assert_eq!(pair, idle);
    }
}
