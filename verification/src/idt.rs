//! The interrupt descriptor table.
//!
//! [`IdtGate64`] and [`IdtDescriptor`] are the two structures that the
//! processor reads. Their layout in memory is fixed by the architecture, so
//! each has a `to_bytes` function that writes it out field by field, in
//! little-endian order, and the contracts speak of those bytes.
//! [`idt_init`] plans the boot-time setup: the table with the keyboard gate
//! installed and the ordered steps that program the interrupt controllers,
//! load the table and enable interrupts.

use vstd::prelude::*;
use crate::io::{PortWrite, PIC1_CMD};
use crate::keyboard::{decode, keyboard_handler, KeyEvent};
use crate::pic::{
    acknowledge, eoi_writes, lemma_acknowledge_retires, lemma_after_writes_concat,
    lemma_only_keyboard_delivered, mask_writes, remap_pic, remap_writes, set_mask, PicPair,
    ALL_MASKED, EOI, KEYBOARD_LINE, KEYBOARD_ONLY_MASK, KEYBOARD_VECTOR,
};

verus! {

/// Number of gates in the table.
pub const GATE_COUNT: usize = 256;

/// Size of one gate in bytes.
pub const GATE_SIZE: usize = 16;

/// Size of the whole table in bytes.
pub const TABLE_SIZE: usize = 4096;

/// Size of the table descriptor in bytes.
pub const DESCRIPTOR_SIZE: usize = 10;

/// Type and attribute byte of an enabled gate: present, ring 0, 64-bit
/// interrupt gate.
pub const INTERRUPT_GATE: u8 = 0x8E;

/// The two bytes of `x`, low byte first.
pub open spec fn le_bytes_u16(x: u16) -> Seq<u8> {
    seq![(x % 0x100) as u8, (x / 0x100) as u8]
}

/// The four bytes of `x`, low byte first.
pub open spec fn le_bytes_u32(x: u32) -> Seq<u8> {
    seq![
        (x % 0x100) as u8,
        (x / 0x100 % 0x100) as u8,
        (x / 0x1_0000 % 0x100) as u8,
        (x / 0x100_0000) as u8,
    ]
}

/// The eight bytes of `x`, low byte first.
pub open spec fn le_bytes_u64(x: u64) -> Seq<u8> {
    seq![
        (x % 0x100) as u8,
        (x / 0x100 % 0x100) as u8,
        (x / 0x1_0000 % 0x100) as u8,
        (x / 0x100_0000 % 0x100) as u8,
        (x / 0x1_0000_0000 % 0x100) as u8,
        (x / 0x100_0000_0000 % 0x100) as u8,
        (x / 0x1_0000_0000_0000 % 0x100) as u8,
        (x / 0x100_0000_0000_0000) as u8,
    ]
}

/// One entry of the table: where the processor transfers control for one
/// vector. The fields stand in the order in which they lie in memory.
#[derive(Clone, Copy, Debug, PartialEq, Eq, Structural)]
pub struct IdtGate64 {
    /// Bits 0 to 15 of the handler address.
    pub offset_low: u16,
    /// Code-segment selector that is active in the handler.
    pub selector: u16,
    /// Index of the stack to switch to, or 0 for none.
    pub ist: u8,
    /// Type and attribute byte.
    pub type_attr: u8,
    /// Bits 16 to 31 of the handler address.
    pub offset_mid: u16,
    /// Bits 32 to 63 of the handler address.
    pub offset_high: u32,
    /// Reserved, zero.
    pub reserved: u32,
}

impl IdtGate64 {
    /// What a vector without a handler has: every field is zero, so that
    /// the processor finds nothing present.
    pub open spec fn spec_missing() -> IdtGate64 {
        IdtGate64 {
            offset_low: 0,
            selector: 0,
            ist: 0,
            type_attr: 0,
            offset_mid: 0,
            offset_high: 0,
            reserved: 0,
        }
    }

    /// The enabled interrupt gate for the handler at address `handler`, run
    /// with code segment `selector` on the current stack.
    pub open spec fn spec_interrupt_gate(handler: u64, selector: u16) -> IdtGate64 {
        IdtGate64 {
            offset_low: (handler % 0x1_0000) as u16,
            selector: selector,
            ist: 0,
            type_attr: INTERRUPT_GATE,
            offset_mid: (handler / 0x1_0000 % 0x1_0000) as u16,
            offset_high: (handler / 0x1_0000_0000) as u32,
            reserved: 0,
        }
    }

    /// The handler address that the three offset fields spell.
    pub open spec fn handler(self) -> int {
        self.offset_low + self.offset_mid * 0x1_0000 + self.offset_high * 0x1_0000_0000
    }

    /// Whether this gate carries the attribute byte of an enabled gate.
    pub open spec fn is_enabled(self) -> bool {
        self.type_attr == INTERRUPT_GATE
    }

    /// The sixteen bytes of this gate as the processor reads them.
    pub open spec fn bytes(self) -> Seq<u8> {
        le_bytes_u16(self.offset_low) + le_bytes_u16(self.selector)
            + seq![self.ist, self.type_attr] + le_bytes_u16(self.offset_mid)
            + le_bytes_u32(self.offset_high) + le_bytes_u32(self.reserved)
    }

    /// A gate for a vector without a handler.
    pub fn missing() -> (gate: IdtGate64)
        ensures
            gate == IdtGate64::spec_missing(),
    {
        IdtGate64 {
            offset_low: 0,
            selector: 0,
            ist: 0,
            type_attr: 0,
            offset_mid: 0,
            offset_high: 0,
            reserved: 0,
        }
    }

    /// Builds the enabled gate for the handler at `handler`, splitting the
    /// address over the three offset fields.
    pub fn interrupt_gate(handler: u64, selector: u16) -> (gate: IdtGate64)
        ensures
            gate == IdtGate64::spec_interrupt_gate(handler, selector),
            gate.handler() == handler,
    {
        proof {
            lemma_split_address(handler);
            lemma_handler_round_trip(handler, selector);
        }
        IdtGate64 {
            offset_low: (handler & 0xFFFF) as u16,
            selector: selector,
            ist: 0,
            type_attr: INTERRUPT_GATE,
            offset_mid: ((handler >> 16) & 0xFFFF) as u16,
            offset_high: (handler >> 32) as u32,
            reserved: 0,
        }
    }

    /// Puts the three offset fields together again.
    pub fn handler_address(&self) -> (address: u64)
        ensures
            address == self.handler(),
    {
        self.offset_low as u64 + self.offset_mid as u64 * 0x1_0000 + self.offset_high as u64
            * 0x1_0000_0000
    }

    /// Whether this gate is an enabled interrupt gate.
    pub fn enabled(&self) -> (enabled: bool)
        ensures
            enabled == self.is_enabled(),
    {
        self.type_attr == INTERRUPT_GATE
    }

    /// Writes this gate out as the processor reads it.
    pub fn to_bytes(&self) -> (bytes: [u8; 16])
        ensures
            bytes@ == self.bytes(),
    {
        let bytes: [u8; 16] = [
            (self.offset_low % 0x100) as u8,
            (self.offset_low / 0x100) as u8,
            (self.selector % 0x100) as u8,
            (self.selector / 0x100) as u8,
            self.ist,
            self.type_attr,
            (self.offset_mid % 0x100) as u8,
            (self.offset_mid / 0x100) as u8,
            (self.offset_high % 0x100) as u8,
            (self.offset_high / 0x100 % 0x100) as u8,
            (self.offset_high / 0x1_0000 % 0x100) as u8,
            (self.offset_high / 0x100_0000) as u8,
            (self.reserved % 0x100) as u8,
            (self.reserved / 0x100 % 0x100) as u8,
            (self.reserved / 0x1_0000 % 0x100) as u8,
            (self.reserved / 0x100_0000) as u8,
        ];
        assert(bytes@ =~= self.bytes());
        bytes
    }
}

proof fn lemma_split_address(handler: u64)
    by (bit_vector)
    ensures
        handler & 0xFFFF == handler % 0x1_0000,
        (handler >> 16) & 0xFFFF == handler / 0x1_0000 % 0x1_0000,
        handler >> 32 == handler / 0x1_0000_0000,
{
}

/// Splitting an address over the offset fields loses nothing: a gate built
/// for a handler spells the address of that handler.
pub proof fn lemma_handler_round_trip(handler: u64, selector: u16)
    ensures
        IdtGate64::spec_interrupt_gate(handler, selector).handler() == handler,
{
}

/// What the table-load instruction is handed: the size of the table and
/// where it lies.
#[derive(Clone, Copy, Debug, PartialEq, Eq, Structural)]
pub struct IdtDescriptor {
    /// Size of the table in bytes, less one.
    pub limit: u16,
    /// Address of the first gate.
    pub base: u64,
}

/// The limit of a table of `gates` gates: its size in bytes, less one.
pub open spec fn table_limit(gates: int) -> int {
    GATE_SIZE * gates - 1
}

impl IdtDescriptor {
    /// The ten bytes of the descriptor as the processor reads them: the
    /// limit, then the base, with no padding between them.
    pub open spec fn bytes(self) -> Seq<u8> {
        le_bytes_u16(self.limit) + le_bytes_u64(self.base)
    }

    /// Describes a table of `gates` gates that lies at `base`. The limit has
    /// sixteen bits, which bounds a table at 4096 gates.
    pub fn new(base: u64, gates: u16) -> (descriptor: IdtDescriptor)
        requires
            1 <= gates <= 4096,
        ensures
            descriptor.limit == table_limit(gates as int),
            descriptor.base == base,
    {
        IdtDescriptor { limit: (gates - 1) * 16 + 15, base: base }
    }

    /// Writes the descriptor out as the processor reads it.
    pub fn to_bytes(&self) -> (bytes: [u8; 10])
        ensures
            bytes@ == self.bytes(),
    {
        let bytes: [u8; 10] = [
            (self.limit % 0x100) as u8,
            (self.limit / 0x100) as u8,
            (self.base % 0x100) as u8,
            (self.base / 0x100 % 0x100) as u8,
            (self.base / 0x1_0000 % 0x100) as u8,
            (self.base / 0x100_0000 % 0x100) as u8,
            (self.base / 0x1_0000_0000 % 0x100) as u8,
            (self.base / 0x100_0000_0000 % 0x100) as u8,
            (self.base / 0x1_0000_0000_0000 % 0x100) as u8,
            (self.base / 0x100_0000_0000_0000) as u8,
        ];
        assert(bytes@ =~= self.bytes());
        bytes
    }
}

/// The bytes of a sequence of gates laid out one after the other.
pub open spec fn table_bytes(gates: Seq<IdtGate64>) -> Seq<u8> {
    Seq::new(
        GATE_SIZE as nat * gates.len(),
        |i: int| gates[i / GATE_SIZE as int].bytes()[i % GATE_SIZE as int],
    )
}

/// The 256 gates of the processor, one per vector.
#[derive(Clone, Copy, Debug)]
pub struct InterruptTable {
    pub gates: [IdtGate64; 256],
}

impl View for InterruptTable {
    type V = Seq<IdtGate64>;

    open spec fn view(&self) -> Seq<IdtGate64> {
        self.gates@
    }
}

impl InterruptTable {
    /// A table in which no vector has a handler.
    pub fn new() -> (table: InterruptTable)
        ensures
            table@.len() == GATE_COUNT,
            forall|vector: int|
                0 <= vector < GATE_COUNT ==> table@[vector] == IdtGate64::spec_missing(),
    {
        InterruptTable { gates: [IdtGate64::missing(); 256] }
    }

    /// Reads the entry of `vector`.
    pub fn gate(&self, vector: u8) -> (gate: IdtGate64)
        ensures
            gate == self@[vector as int],
    {
        self.gates[vector as usize]
    }

    /// Replaces the entry of `vector` and leaves all others alone.
    pub fn set_gate(&mut self, vector: u8, gate: IdtGate64)
        ensures
            final(self)@ == old(self)@.update(vector as int, gate),
    {
        self.gates[vector as usize] = gate;
    }

    /// The descriptor of this table when it lies at address `base`.
    pub fn descriptor(&self, base: u64) -> (descriptor: IdtDescriptor)
        ensures
            descriptor.limit == table_limit(GATE_COUNT as int),
            descriptor.limit == TABLE_SIZE - 1,
            descriptor.base == base,
    {
        IdtDescriptor::new(base, 256)
    }

    /// Writes the table out as the processor reads it, gate after gate.
    pub fn to_bytes(&self) -> (bytes: Vec<u8>)
        ensures
            bytes@ == table_bytes(self@),
            bytes@.len() == TABLE_SIZE,
    {
        let mut bytes: Vec<u8> = Vec::new();
        let mut vector: usize = 0;
        while vector < GATE_COUNT
            invariant
                vector <= GATE_COUNT,
                bytes@ == table_bytes(self@.take(vector as int)),
            decreases GATE_COUNT - vector,
        {
            let gate_bytes = self.gates[vector].to_bytes();
            let ghost before = bytes@;
            let mut i: usize = 0;
            while i < GATE_SIZE
                invariant
                    i <= GATE_SIZE,
                    vector < GATE_COUNT,
                    gate_bytes@ == self@[vector as int].bytes(),
                    bytes@ == before + gate_bytes@.take(i as int),
                decreases GATE_SIZE - i,
            {
                bytes.push(gate_bytes[i]);
                i = i + 1;
            }
            proof {
                lemma_gate_layout(self@[vector as int]);
                assert(bytes@ =~= table_bytes(self@.take(vector + 1)));
            }
            vector = vector + 1;
        }
        proof {
            assert(self@.take(vector as int) == self@);
        }
        bytes
    }
}

/// Every field lies at its documented place: a gate takes sixteen bytes, of
/// which bytes 0 and 1 hold the low part of the handler address, 2 and 3 the
/// selector, 4 the stack index, 5 the type and attribute byte, 6 and 7 the
/// middle part of the address, 8 to 11 its high part and 12 to 15 the
/// reserved field, each field with its low byte first.
pub proof fn lemma_gate_layout(gate: IdtGate64)
    ensures
        gate.bytes().len() == GATE_SIZE,
        gate.bytes().subrange(0, 2) == le_bytes_u16(gate.offset_low),
        gate.bytes().subrange(2, 4) == le_bytes_u16(gate.selector),
        gate.bytes()[4] == gate.ist,
        gate.bytes()[5] == gate.type_attr,
        gate.bytes().subrange(6, 8) == le_bytes_u16(gate.offset_mid),
        gate.bytes().subrange(8, 12) == le_bytes_u32(gate.offset_high),
        gate.bytes().subrange(12, 16) == le_bytes_u32(gate.reserved),
{
    let bytes = gate.bytes();
    assert(bytes.subrange(0, 2) =~= le_bytes_u16(gate.offset_low));
    assert(bytes.subrange(2, 4) =~= le_bytes_u16(gate.selector));
    assert(bytes.subrange(6, 8) =~= le_bytes_u16(gate.offset_mid));
    assert(bytes.subrange(8, 12) =~= le_bytes_u32(gate.offset_high));
    assert(bytes.subrange(12, 16) =~= le_bytes_u32(gate.reserved));
}

/// The bytes of an enabled gate hold the handler address whole: for every
/// address, the eight bytes of the address stand, in order, in bytes 0, 1, 6,
/// 7 and 8 to 11 of a gate built for it.
pub proof fn lemma_gate_holds_address(handler: u64, selector: u16)
    ensures
        IdtGate64::spec_interrupt_gate(handler, selector).bytes()[0] == le_bytes_u64(handler)[0],
        IdtGate64::spec_interrupt_gate(handler, selector).bytes()[1] == le_bytes_u64(handler)[1],
        IdtGate64::spec_interrupt_gate(handler, selector).bytes()[6] == le_bytes_u64(handler)[2],
        IdtGate64::spec_interrupt_gate(handler, selector).bytes()[7] == le_bytes_u64(handler)[3],
        IdtGate64::spec_interrupt_gate(handler, selector).bytes()[8] == le_bytes_u64(handler)[4],
        IdtGate64::spec_interrupt_gate(handler, selector).bytes()[9] == le_bytes_u64(handler)[5],
        IdtGate64::spec_interrupt_gate(handler, selector).bytes()[10] == le_bytes_u64(handler)[6],
        IdtGate64::spec_interrupt_gate(handler, selector).bytes()[11] == le_bytes_u64(handler)[7],
{
    lemma_address_bytes(handler);
}

proof fn lemma_address_bytes(h: u64)
    by (bit_vector)
    ensures
        (h % 0x1_0000) % 0x100 == h % 0x100,
        (h % 0x1_0000) / 0x100 == h / 0x100 % 0x100,
        (h / 0x1_0000 % 0x1_0000) % 0x100 == h / 0x1_0000 % 0x100,
        (h / 0x1_0000 % 0x1_0000) / 0x100 == h / 0x100_0000 % 0x100,
        (h / 0x1_0000_0000) / 0x100 % 0x100 == h / 0x100_0000_0000 % 0x100,
        (h / 0x1_0000_0000) / 0x1_0000 % 0x100 == h / 0x1_0000_0000_0000 % 0x100,
        (h / 0x1_0000_0000) / 0x100_0000 == h / 0x100_0000_0000_0000,
{
}

/// The descriptor takes ten bytes: the limit in bytes 0 and 1, the base in
/// bytes 2 to 9, each with its low byte first.
pub proof fn lemma_descriptor_layout(descriptor: IdtDescriptor)
    ensures
        descriptor.bytes().len() == DESCRIPTOR_SIZE,
        descriptor.bytes().subrange(0, 2) == le_bytes_u16(descriptor.limit),
        descriptor.bytes().subrange(2, 10) == le_bytes_u64(descriptor.base),
{
    assert(descriptor.bytes().subrange(0, 2) =~= le_bytes_u16(descriptor.limit));
    assert(descriptor.bytes().subrange(2, 10) =~= le_bytes_u64(descriptor.base));
}

/// In the bytes of a table the entry of vector `vector` takes the sixteen
/// bytes from offset `16 * vector` on.
pub proof fn lemma_table_layout(gates: Seq<IdtGate64>, vector: int)
    requires
        0 <= vector < gates.len(),
    ensures
        table_bytes(gates).len() == GATE_SIZE * gates.len(),
        table_bytes(gates).subrange(GATE_SIZE * vector, GATE_SIZE * vector + GATE_SIZE)
            == gates[vector].bytes(),
{
    lemma_gate_layout(gates[vector]);
    assert(table_bytes(gates).subrange(GATE_SIZE * vector, GATE_SIZE * vector + GATE_SIZE)
        =~= gates[vector].bytes());
}

/// One action of the boot-time setup, performed by the caller.
#[derive(Clone, Copy, Debug, PartialEq, Eq, Structural)]
pub enum InitStep {
    /// Write a byte to a port.
    Write(PortWrite),
    /// Hand the descriptor to the table-load instruction.
    LoadTable(IdtDescriptor),
    /// Enable interrupts on the processor.
    EnableInterrupts,
}

/// The outcome of [`idt_init`].
#[derive(Debug)]
pub struct IdtInit {
    /// The table to be stored at the address given to [`idt_init`], where it
    /// stays for as long as interrupts can arrive.
    pub table: InterruptTable,
    /// The actions to perform, in this order, once the table is stored.
    pub steps: Vec<InitStep>,
}

/// The gates after setup: the keyboard vector has the enabled gate for
/// `handler`, every other vector has none.
pub open spec fn init_table(handler: u64, selector: u16) -> Seq<IdtGate64> {
    Seq::new(
        GATE_COUNT as nat,
        |vector: int|
            if vector == KEYBOARD_VECTOR {
                IdtGate64::spec_interrupt_gate(handler, selector)
            } else {
                IdtGate64::spec_missing()
            },
    )
}

/// The port writes of setup: the controllers are reinitialised with their
/// masks kept, then masked down to the keyboard line.
pub open spec fn init_writes(master_mask: u8, slave_mask: u8) -> Seq<PortWrite> {
    remap_writes(master_mask, slave_mask) + mask_writes(KEYBOARD_ONLY_MASK, ALL_MASKED)
}

/// The descriptor of the full table at `base`.
pub open spec fn init_descriptor(base: u64) -> IdtDescriptor {
    IdtDescriptor { limit: (TABLE_SIZE - 1) as u16, base: base }
}

/// The steps of setup: every port write, then the table load, and only then
/// the enabling of interrupts.
pub open spec fn init_steps(master_mask: u8, slave_mask: u8, base: u64) -> Seq<InitStep> {
    init_writes(master_mask, slave_mask).map_values(|write: PortWrite| InitStep::Write(write))
        + seq![InitStep::LoadTable(init_descriptor(base)), InitStep::EnableInterrupts]
}

fn push_writes(steps: &mut Vec<InitStep>, writes: &Vec<PortWrite>)
    ensures
        final(steps)@ == old(steps)@ + writes@.map_values(
            |write: PortWrite| InitStep::Write(write),
        ),
{
    let mut i: usize = 0;
    while i < writes.len()
        invariant
            i <= writes.len(),
            steps@ == old(steps)@ + writes@.take(i as int).map_values(
                |write: PortWrite| InitStep::Write(write),
            ),
        decreases writes.len() - i,
    {
        steps.push(InitStep::Write(writes[i]));
        proof {
            assert(writes@.take(i + 1) == writes@.take(i as int).push(writes@[i as int]));
            assert(steps@ =~= old(steps)@ + writes@.take(i + 1).map_values(
                |write: PortWrite| InitStep::Write(write),
            ));
        }
        i = i + 1;
    }
    proof {
        assert(writes@.take(i as int) == writes@);
    }
}

/// Plans the setup of interrupt handling with the keyboard as the only
/// source.
///
/// `handler` is the address of the entry code for the keyboard interrupt and
/// `selector` the kernel's code-segment selector. `master_mask` and
/// `slave_mask` are the bytes read from the data ports of the two interrupt
/// controllers before any step is performed, and `table_base` is the address
/// at which the caller stores the returned table.
pub fn idt_init(
    handler: u64,
    selector: u16,
    master_mask: u8,
    slave_mask: u8,
    table_base: u64,
) -> (init: IdtInit)
    ensures
        init.table@ == init_table(handler, selector),
        init.steps@ == init_steps(master_mask, slave_mask, table_base),
{
    let mut table = InterruptTable::new();
    table.set_gate(KEYBOARD_VECTOR, IdtGate64::interrupt_gate(handler, selector));
    let mut steps: Vec<InitStep> = Vec::new();
    let remap = remap_pic(master_mask, slave_mask);
    push_writes(&mut steps, &remap);
    let mask = set_mask(KEYBOARD_ONLY_MASK, ALL_MASKED);
    push_writes(&mut steps, &mask);
    steps.push(InitStep::LoadTable(table.descriptor(table_base)));
    steps.push(InitStep::EnableInterrupts);
    proof {
        assert(table@ =~= init_table(handler, selector));
        assert(steps@ =~= init_steps(master_mask, slave_mask, table_base));
    }
    IdtInit { table: table, steps: steps }
}

/// What servicing one keyboard interrupt amounts to.
#[derive(Debug)]
pub struct KeyboardService {
    /// The event to hand to the output sink.
    pub event: KeyEvent,
    /// The port writes that end the interrupt, to be performed before the
    /// interrupted program is resumed.
    pub writes: Vec<PortWrite>,
}

/// Services one keyboard interrupt. `code` is the byte read from the keyboard
/// data port. The scancode is decoded, and whatever it was, the interrupt is
/// acknowledged on the keyboard's line.
pub fn isr1_handler(code: u8) -> (service: KeyboardService)
    ensures
        service.event == decode(code),
        service.writes@ == eoi_writes(KEYBOARD_LINE),
        service.writes@ == seq![PortWrite { port: PIC1_CMD, value: EOI }],
{
    let event = keyboard_handler(code);
    let writes = acknowledge(KEYBOARD_LINE);
    KeyboardService { event: event, writes: writes }
}

/// After setup the keyboard vector is the only one with a handler: its gate
/// has the attribute byte of an enabled gate and spells the address of
/// `handler`, and each of the other 255 gates is missing, with every field
/// zero. A handler at address zero is left out, since no code lies there.
pub proof fn lemma_init_enables_only_keyboard(handler: u64, selector: u16)
    requires
        handler != 0,
    ensures
        init_table(handler, selector).len() == GATE_COUNT,
        forall|vector: int|
            0 <= vector < GATE_COUNT ==> (#[trigger] init_table(
                handler,
                selector,
            )[vector].is_enabled() <==> vector == KEYBOARD_VECTOR),
        forall|vector: int|
            0 <= vector < GATE_COUNT && vector != KEYBOARD_VECTOR ==> #[trigger] init_table(
                handler,
                selector,
            )[vector] == IdtGate64::spec_missing(),
        init_table(handler, selector)[KEYBOARD_VECTOR as int].handler() == handler,
        init_table(handler, selector)[KEYBOARD_VECTOR as int].handler() != 0,
        init_table(handler, selector)[KEYBOARD_VECTOR as int].selector == selector,
{
    lemma_handler_round_trip(handler, selector);
}

/// Setup programs the controllers before it lets the processor see the
/// table, and enables interrupts last: of the fourteen steps the first twelve
/// are the port writes, the thirteenth loads the table, whose limit is that
/// of 256 gates, and the fourteenth enables interrupts.
pub proof fn lemma_init_order(master_mask: u8, slave_mask: u8, base: u64)
    ensures
        init_steps(master_mask, slave_mask, base).len() == 14,
        forall|i: int|
            0 <= i < 12 ==> #[trigger] init_steps(master_mask, slave_mask, base)[i]
                == InitStep::Write(init_writes(master_mask, slave_mask)[i]),
        init_steps(master_mask, slave_mask, base)[12] == InitStep::LoadTable(
            IdtDescriptor { limit: table_limit(GATE_COUNT as int) as u16, base: base },
        ),
        init_steps(master_mask, slave_mask, base)[13] == InitStep::EnableInterrupts,
{
}

/// Setup never lets a vector without a handler fire: once the port writes of
/// setup are performed, whatever state the controllers were in, a request on
/// the keyboard line is delivered and a request on any other line is not,
/// and the vector of a delivered request has the enabled gate for `handler`
/// in the table of setup.
pub proof fn lemma_init_routes_keyboard_to_handler(
    pair: PicPair,
    handler: u64,
    selector: u16,
    line: u8,
)
    ensures
        pair.after_writes(init_writes(pair.master.mask, pair.slave.mask)).delivered_vector(line)
            is Some <==> line == KEYBOARD_LINE,
        pair.after_writes(init_writes(pair.master.mask, pair.slave.mask)).delivered_vector(line)
            matches Some(vector) ==> init_table(handler, selector)[vector as int]
            == IdtGate64::spec_interrupt_gate(handler, selector),
{
    lemma_after_writes_concat(
        pair,
        remap_writes(pair.master.mask, pair.slave.mask),
        mask_writes(KEYBOARD_ONLY_MASK, ALL_MASKED),
    );
    lemma_only_keyboard_delivered(pair, line);
}

/// Servicing a keyboard interrupt leaves the controllers ready for the next
/// one: if the keyboard's request was delivered, then after the writes that
/// [`isr1_handler`] returns, for whatever scancode, the controllers are as
/// they were before the request.
pub proof fn lemma_service_ends_interrupt(pair: PicPair)
    requires
        pair.delivered_vector(KEYBOARD_LINE) is Some,
    ensures
        pair.after_request(KEYBOARD_LINE).after_writes(eoi_writes(KEYBOARD_LINE)) == pair,
{
    lemma_acknowledge_retires(pair, KEYBOARD_LINE);
}

} // verus!
