//! The cascaded pair of interrupt controllers.
//!
//! The first half of this module produces the command bytes that program the
//! controllers: [`remap_pic`], [`set_mask`] and [`acknowledge`]. The second
//! half is a register-level model of the controllers, [`PicChip`] and
//! [`PicPair`], against which the effect of those bytes is proved.

use vstd::prelude::*;
use crate::io::{PortWrite, PIC1_CMD, PIC1_DATA, PIC2_CMD, PIC2_DATA};

verus! {

/// Bit of a command byte that marks it as the start of initialisation.
pub const ICW1_INIT: u8 = 0x10;

/// Bit of the initialisation command that announces an operating-mode byte.
pub const ICW1_ICW4: u8 = 0x01;

/// Bit of the initialisation command that declares a controller without a
/// cascade partner, which then expects no cascade byte.
pub const ICW1_SINGLE: u8 = 0x02;

/// The initialisation command sent to both controllers: start, with an
/// operating-mode byte to follow, in cascade.
pub const INIT_COMMAND: u8 = 0x11;

/// Operating-mode byte for 8086-style vectoring.
pub const ICW4_8086: u8 = 0x01;

/// Vector delivered for line 0 of the master controller.
pub const MASTER_VECTOR_BASE: u8 = 0;

/// Vector delivered for line 0 of the slave controller.
pub const SLAVE_VECTOR_BASE: u8 = 8;

/// Cascade byte of the master: a slave hangs on line 2.
pub const MASTER_CASCADE: u8 = 4;

/// Cascade byte of the slave: its identity is 2.
pub const SLAVE_CASCADE: u8 = 2;

/// Line of the master on which the slave is cascaded.
pub const CASCADE_LINE: u8 = 2;

/// The non-specific end-of-interrupt command.
pub const EOI: u8 = 0x20;

/// Number of lines on one controller.
pub const LINES_PER_CHIP: u8 = 8;

/// The interrupt line of the keyboard.
pub const KEYBOARD_LINE: u8 = 1;

/// The vector on which the keyboard interrupt arrives once the controllers
/// are remapped: the master's vector base plus the keyboard line.
pub const KEYBOARD_VECTOR: u8 = 1;

/// Mask byte for the master that leaves only the keyboard line enabled.
pub const KEYBOARD_ONLY_MASK: u8 = 0xFD;

/// Mask byte that disables every line of a controller.
pub const ALL_MASKED: u8 = 0xFF;

/// The writes that reinitialise both controllers and put back the masks
/// `master_mask` and `slave_mask`: the initialisation command, the vector
/// bases, the cascade bytes and the operating mode, each to the master and
/// then to the slave, followed by the two masks.
pub open spec fn remap_writes(master_mask: u8, slave_mask: u8) -> Seq<PortWrite> {
    seq![
        PortWrite { port: PIC1_CMD, value: INIT_COMMAND },
        PortWrite { port: PIC2_CMD, value: INIT_COMMAND },
        PortWrite { port: PIC1_DATA, value: MASTER_VECTOR_BASE },
        PortWrite { port: PIC2_DATA, value: SLAVE_VECTOR_BASE },
        PortWrite { port: PIC1_DATA, value: MASTER_CASCADE },
        PortWrite { port: PIC2_DATA, value: SLAVE_CASCADE },
        PortWrite { port: PIC1_DATA, value: ICW4_8086 },
        PortWrite { port: PIC2_DATA, value: ICW4_8086 },
        PortWrite { port: PIC1_DATA, value: master_mask },
        PortWrite { port: PIC2_DATA, value: slave_mask },
    ]
}

/// The writes that set the two mask registers.
pub open spec fn mask_writes(master: u8, slave: u8) -> Seq<PortWrite> {
    seq![
        PortWrite { port: PIC1_DATA, value: master },
        PortWrite { port: PIC2_DATA, value: slave },
    ]
}

/// Whether `line` belongs to the slave controller and so reaches the
/// processor through the cascade.
pub open spec fn is_cascaded(line: u8) -> bool {
    line >= LINES_PER_CHIP
}

/// The writes that signal the end of the interrupt on `line`: the command to
/// the master, and after it to the slave if the line is cascaded.
pub open spec fn eoi_writes(line: u8) -> Seq<PortWrite> {
    if is_cascaded(line) {
        seq![
            PortWrite { port: PIC1_CMD, value: EOI },
            PortWrite { port: PIC2_CMD, value: EOI },
        ]
    } else {
        seq![PortWrite { port: PIC1_CMD, value: EOI }]
    }
}

/// Reinitialises both controllers with the vector bases of this kernel and
/// restores the masks that were read from the two data ports beforehand.
///
/// `master_mask` and `slave_mask` are the bytes read from [`PIC1_DATA`] and
/// [`PIC2_DATA`] before the first write is issued.
pub fn remap_pic(master_mask: u8, slave_mask: u8) -> (writes: Vec<PortWrite>)
    ensures
        writes@ == remap_writes(master_mask, slave_mask),
{
    let mut writes: Vec<PortWrite> = Vec::new();
    writes.push(PortWrite { port: PIC1_CMD, value: INIT_COMMAND });
    writes.push(PortWrite { port: PIC2_CMD, value: INIT_COMMAND });
    writes.push(PortWrite { port: PIC1_DATA, value: MASTER_VECTOR_BASE });
    writes.push(PortWrite { port: PIC2_DATA, value: SLAVE_VECTOR_BASE });
    writes.push(PortWrite { port: PIC1_DATA, value: MASTER_CASCADE });
    writes.push(PortWrite { port: PIC2_DATA, value: SLAVE_CASCADE });
    writes.push(PortWrite { port: PIC1_DATA, value: ICW4_8086 });
    writes.push(PortWrite { port: PIC2_DATA, value: ICW4_8086 });
    writes.push(PortWrite { port: PIC1_DATA, value: master_mask });
    writes.push(PortWrite { port: PIC2_DATA, value: slave_mask });
    writes
}

/// Sets the mask registers directly; a set bit disables its line.
pub fn set_mask(master: u8, slave: u8) -> (writes: Vec<PortWrite>)
    ensures
        writes@ == mask_writes(master, slave),
{
    let mut writes: Vec<PortWrite> = Vec::new();
    writes.push(PortWrite { port: PIC1_DATA, value: master });
    writes.push(PortWrite { port: PIC2_DATA, value: slave });
    writes
}

/// Signals the end of the interrupt on `line` to the controllers that took
/// part in delivering it.
pub fn acknowledge(line: u8) -> (writes: Vec<PortWrite>)
    ensures
        writes@ == eoi_writes(line),
{
    let mut writes: Vec<PortWrite> = Vec::new();
    writes.push(PortWrite { port: PIC1_CMD, value: EOI });
    if line >= LINES_PER_CHIP {
        writes.push(PortWrite { port: PIC2_CMD, value: EOI });
    }
    writes
}

/// Where a controller stands in its initialisation sequence.
#[derive(Clone, Copy, Debug, PartialEq, Eq, Structural)]
pub enum InitStage {
    /// Initialised: a data byte is a mask.
    Ready,
    /// The initialisation command was received: the next data byte is the
    /// vector base.
    ExpectVectorBase,
    /// The next data byte is the cascade byte.
    ExpectCascade,
    /// The next data byte is the operating mode.
    ExpectMode,
}

/// The registers of one interrupt controller that this kernel programs.
///
/// The model covers the initialisation sequence, the mask register and the
/// non-specific end-of-interrupt command in fully nested priority order,
/// where line 0 has the highest priority. Other command bytes leave the
/// modelled registers as they are.
#[derive(Clone, Copy, Debug, PartialEq, Eq, Structural)]
pub struct PicChip {
    /// Mask register: a set bit disables its line.
    pub mask: u8,
    /// In-service register: a set bit marks a line whose interrupt was
    /// delivered and not yet acknowledged.
    pub in_service: u8,
    /// Vector delivered for line 0. The hardware keeps its low three bits
    /// at zero.
    pub vector_base: u8,
    /// Cascade byte received during initialisation.
    pub cascade: u8,
    /// Operating-mode byte received during initialisation.
    pub mode: u8,
    /// Whether the last initialisation command announced a mode byte.
    pub mode_announced: bool,
    /// Whether the last initialisation command declared a single controller.
    pub single: bool,
    /// Progress of the initialisation sequence.
    pub stage: InitStage,
}

/// `bits` with its lowest set bit cleared.
pub open spec fn without_lowest_bit(bits: u8) -> u8 {
    if bits == 0 {
        0
    } else {
        bits & ((bits - 1) as u8)
    }
}

/// The bits of the lines `0..=line`, for `line < 8`.
pub open spec fn lines_up_to(line: u8) -> u8 {
    0xFFu8 >> ((7 - line) as u8)
}

impl PicChip {
    /// A controller that has completed initialisation with the given mask and
    /// vector base, and has no interrupt in service.
    pub open spec fn spec_ready(mask: u8, vector_base: u8) -> PicChip {
        PicChip {
            mask: mask,
            in_service: 0,
            vector_base: vector_base & 0xF8,
            cascade: 0,
            mode: 0,
            mode_announced: false,
            single: false,
            stage: InitStage::Ready,
        }
    }

    /// The controller after `value` is written to its command port.
    ///
    /// A byte with [`ICW1_INIT`] set restarts initialisation and resets every
    /// register. [`EOI`] retires the in-service line of highest priority.
    pub open spec fn after_command(self, value: u8) -> PicChip {
        if value & ICW1_INIT != 0 {
            PicChip {
                mask: 0,
                in_service: 0,
                vector_base: 0,
                cascade: 0,
                mode: 0,
                mode_announced: value & ICW1_ICW4 != 0,
                single: value & ICW1_SINGLE != 0,
                stage: InitStage::ExpectVectorBase,
            }
        } else if value == EOI {
            PicChip { in_service: without_lowest_bit(self.in_service), ..self }
        } else {
            self
        }
    }

    /// The stage that follows the vector base.
    pub open spec fn stage_after_vector_base(self) -> InitStage {
        if !self.single {
            InitStage::ExpectCascade
        } else if self.mode_announced {
            InitStage::ExpectMode
        } else {
            InitStage::Ready
        }
    }

    /// The stage that follows the cascade byte.
    pub open spec fn stage_after_cascade(self) -> InitStage {
        if self.mode_announced {
            InitStage::ExpectMode
        } else {
            InitStage::Ready
        }
    }

    /// The controller after `value` is written to its data port: the next
    /// byte of a running initialisation, or else a new mask.
    pub open spec fn after_data(self, value: u8) -> PicChip {
        match self.stage {
            InitStage::Ready => PicChip { mask: value, ..self },
            InitStage::ExpectVectorBase => PicChip {
                vector_base: value & 0xF8,
                stage: self.stage_after_vector_base(),
                ..self
            },
            InitStage::ExpectCascade => PicChip {
                cascade: value,
                stage: self.stage_after_cascade(),
                ..self
            },
            InitStage::ExpectMode => PicChip { mode: value, stage: InitStage::Ready, ..self },
        }
    }

    /// Whether the controller passes a request on its line `line` on: it is
    /// initialised, the line exists and is not masked, and no line of equal
    /// or higher priority is in service.
    pub open spec fn accepts(self, line: u8) -> bool {
        &&& self.stage == InitStage::Ready
        &&& line < LINES_PER_CHIP
        &&& self.mask & (1u8 << line) == 0
        &&& self.in_service & lines_up_to(line) == 0
    }

    /// The controller after a request on `line`: the line is in service if
    /// the request was accepted.
    pub open spec fn after_request(self, line: u8) -> PicChip {
        if self.accepts(line) {
            PicChip { in_service: self.in_service | (1u8 << line), ..self }
        } else {
            self
        }
    }

    /// The vector the controller delivers for its line `line`, for `line < 8`.
    pub open spec fn vector_of(self, line: u8) -> u8 {
        self.vector_base | line
    }

    /// An initialised controller with the given mask and vector base. The low
    /// three bits of `vector_base` are dropped, as the hardware does.
    pub fn ready(mask: u8, vector_base: u8) -> (chip: PicChip)
        ensures
            chip == PicChip::spec_ready(mask, vector_base),
    {
        PicChip {
            mask: mask,
            in_service: 0,
            vector_base: vector_base & 0xF8,
            cascade: 0,
            mode: 0,
            mode_announced: false,
            single: false,
            stage: InitStage::Ready,
        }
    }

    /// Writes `value` to the command port.
    pub fn write_command(&mut self, value: u8)
        ensures
            *final(self) == old(self).after_command(value),
    {
        if value & ICW1_INIT != 0 {
            self.mask = 0;
            self.in_service = 0;
            self.vector_base = 0;
            self.cascade = 0;
            self.mode = 0;
            self.mode_announced = value & ICW1_ICW4 != 0;
            self.single = value & ICW1_SINGLE != 0;
            self.stage = InitStage::ExpectVectorBase;
        } else if value == EOI {
            if self.in_service != 0 {
                self.in_service = self.in_service & (self.in_service - 1);
            }
        }
    }

    /// Writes `value` to the data port.
    pub fn write_data(&mut self, value: u8)
        ensures
            *final(self) == old(self).after_data(value),
    {
        match self.stage {
            InitStage::Ready => {
                self.mask = value;
            },
            InitStage::ExpectVectorBase => {
                self.vector_base = value & 0xF8;
                self.stage = if !self.single {
                    InitStage::ExpectCascade
                } else if self.mode_announced {
                    InitStage::ExpectMode
                } else {
                    InitStage::Ready
                };
            },
            InitStage::ExpectCascade => {
                self.cascade = value;
                self.stage = if self.mode_announced {
                    InitStage::ExpectMode
                } else {
                    InitStage::Ready
                };
            },
            InitStage::ExpectMode => {
                self.mode = value;
                self.stage = InitStage::Ready;
            },
        }
    }

    /// Presents a request on line `line` and reports whether the controller
    /// passed it on; if so the line is now in service.
    pub fn request(&mut self, line: u8) -> (accepted: bool)
        ensures
            accepted == old(self).accepts(line),
            *final(self) == old(self).after_request(line),
    {
        if self.stage == InitStage::Ready && line < LINES_PER_CHIP {
            let bit: u8 = 1u8 << line;
            let blocking: u8 = 0xFFu8 >> (7 - line);
            if self.mask & bit == 0 && self.in_service & blocking == 0 {
                self.in_service = self.in_service | bit;
                return true;
            }
        }
        false
    }

    /// Reads the data port, which shows the mask register.
    pub fn read_data(&self) -> (value: u8)
        ensures
            value == self.mask,
    {
        self.mask
    }
}

/// The master and the slave controller behind their four ports.
#[derive(Clone, Copy, Debug, PartialEq, Eq, Structural)]
pub struct PicPair {
    pub master: PicChip,
    pub slave: PicChip,
}

impl PicPair {
    /// The pair after one port write. Writes to other ports do not reach the
    /// controllers.
    pub open spec fn after_write(self, write: PortWrite) -> PicPair {
        if write.port == PIC1_CMD {
            PicPair { master: self.master.after_command(write.value), ..self }
        } else if write.port == PIC1_DATA {
            PicPair { master: self.master.after_data(write.value), ..self }
        } else if write.port == PIC2_CMD {
            PicPair { slave: self.slave.after_command(write.value), ..self }
        } else if write.port == PIC2_DATA {
            PicPair { slave: self.slave.after_data(write.value), ..self }
        } else {
            self
        }
    }

    /// The pair after the writes of `writes`, performed in order.
    pub open spec fn after_writes(self, writes: Seq<PortWrite>) -> PicPair
        decreases writes.len(),
    {
        if writes.len() == 0 {
            self
        } else {
            self.after_writes(writes.drop_last()).after_write(writes.last())
        }
    }

    /// The pair after [`remap_pic`] has read its masks and its writes were
    /// performed.
    pub open spec fn remapped(self) -> PicPair {
        self.after_writes(remap_writes(self.master.mask, self.slave.mask))
    }

    /// The pair after the writes of [`set_mask`] were performed.
    pub open spec fn masked(self, master: u8, slave: u8) -> PicPair {
        self.after_writes(mask_writes(master, slave))
    }

    /// The pair after the writes of [`acknowledge`] were performed.
    pub open spec fn acknowledged(self, line: u8) -> PicPair {
        self.after_writes(eoi_writes(line))
    }

    /// Whether both controllers have completed initialisation.
    pub open spec fn is_ready(self) -> bool {
        self.master.stage == InitStage::Ready && self.slave.stage == InitStage::Ready
    }

    /// Whether the mask registers leave `line` (0 to 15) enabled.
    pub open spec fn line_enabled(self, line: u8) -> bool {
        if line < LINES_PER_CHIP {
            self.master.mask & (1u8 << line) == 0
        } else if line < 2 * LINES_PER_CHIP {
            self.slave.mask & (1u8 << ((line - LINES_PER_CHIP) as u8)) == 0
        } else {
            false
        }
    }

    /// The vector that reaches the processor when the device on `line`
    /// requests an interrupt, or `None` if the request is held back. A line
    /// of the slave must pass the slave and the cascade line of the master.
    pub open spec fn delivered_vector(self, line: u8) -> Option<u8> {
        if line < LINES_PER_CHIP {
            if self.master.accepts(line) {
                Some(self.master.vector_of(line))
            } else {
                None
            }
        } else if line < 2 * LINES_PER_CHIP {
            let local = (line - LINES_PER_CHIP) as u8;
            if self.slave.accepts(local) && self.master.accepts(CASCADE_LINE) {
                Some(self.slave.vector_of(local))
            } else {
                None
            }
        } else {
            None
        }
    }

    /// The pair after the device on `line` requested an interrupt: if a
    /// vector was delivered, the line is in service on every controller it
    /// passed.
    pub open spec fn after_request(self, line: u8) -> PicPair {
        if self.delivered_vector(line) is None {
            self
        } else if line < LINES_PER_CHIP {
            PicPair { master: self.master.after_request(line), ..self }
        } else {
            PicPair {
                master: self.master.after_request(CASCADE_LINE),
                slave: self.slave.after_request((line - LINES_PER_CHIP) as u8),
            }
        }
    }

    /// A pair of initialised controllers with the given masks, delivering
    /// the vectors of this kernel.
    pub fn ready(master_mask: u8, slave_mask: u8) -> (pair: PicPair)
        ensures
            pair.master == PicChip::spec_ready(master_mask, MASTER_VECTOR_BASE),
            pair.slave == PicChip::spec_ready(slave_mask, SLAVE_VECTOR_BASE),
    {
        PicPair {
            master: PicChip::ready(master_mask, MASTER_VECTOR_BASE),
            slave: PicChip::ready(slave_mask, SLAVE_VECTOR_BASE),
        }
    }

    /// Performs one port write.
    pub fn outb(&mut self, port: u16, val: u8)
        ensures
            *final(self) == old(self).after_write(PortWrite { port: port, value: val }),
    {
        if port == PIC1_CMD {
            self.master.write_command(val);
        } else if port == PIC1_DATA {
            self.master.write_data(val);
        } else if port == PIC2_CMD {
            self.slave.write_command(val);
        } else if port == PIC2_DATA {
            self.slave.write_data(val);
        }
    }

    /// Reads one of the two data ports, which show the mask registers. Other
    /// ports are not readable through the pair.
    pub fn inb(&self, port: u16) -> (value: Option<u8>)
        ensures
            port == PIC1_DATA ==> value == Some(self.master.mask),
            port == PIC2_DATA ==> value == Some(self.slave.mask),
            port != PIC1_DATA && port != PIC2_DATA ==> value is None,
    {
        if port == PIC1_DATA {
            Some(self.master.read_data())
        } else if port == PIC2_DATA {
            Some(self.slave.read_data())
        } else {
            None
        }
    }

    /// Performs the writes of `writes` in order.
    pub fn apply(&mut self, writes: &Vec<PortWrite>)
        ensures
            *final(self) == old(self).after_writes(writes@),
    {
        let mut i: usize = 0;
        while i < writes.len()
            invariant
                i <= writes.len(),
                *self == old(self).after_writes(writes@.take(i as int)),
            decreases writes.len() - i,
        {
            let write = writes[i];
            self.outb(write.port, write.value);
            proof {
                assert(writes@.take(i + 1).drop_last() == writes@.take(i as int));
            }
            i = i + 1;
        }
        proof {
            assert(writes@.take(i as int) == writes@);
        }
    }

    /// Presents an interrupt request of the device on `line` and returns the
    /// vector that reaches the processor, if any.
    pub fn raise(&mut self, line: u8) -> (vector: Option<u8>)
        ensures
            vector == old(self).delivered_vector(line),
            *final(self) == old(self).after_request(line),
    {
        if line < LINES_PER_CHIP {
            if self.master.request(line) {
                Some(self.master.vector_base | line)
            } else {
                None
            }
        } else if line < 2 * LINES_PER_CHIP {
            let local: u8 = line - LINES_PER_CHIP;
            let mut slave = self.slave;
            let mut master = self.master;
            if slave.request(local) && master.request(CASCADE_LINE) {
                self.slave = slave;
                self.master = master;
                Some(self.slave.vector_base | local)
            } else {
                None
            }
        } else {
            None
        }
    }
}

proof fn lemma_command_bits()
    by (bit_vector)
    ensures
        INIT_COMMAND & ICW1_INIT != 0,
        INIT_COMMAND & ICW1_ICW4 != 0,
        INIT_COMMAND & ICW1_SINGLE == 0,
        EOI & ICW1_INIT == 0,
        MASTER_VECTOR_BASE & 0xF8 == MASTER_VECTOR_BASE,
        SLAVE_VECTOR_BASE & 0xF8 == SLAVE_VECTOR_BASE,
{
}

proof fn lemma_after_writes_push(pair: PicPair, writes: Seq<PortWrite>, write: PortWrite)
    ensures
        pair.after_writes(writes.push(write)) == pair.after_writes(writes).after_write(write),
{
    assert(writes.push(write).drop_last() == writes);
}

/// Performing two lists of writes one after the other is performing their
/// concatenation.
pub proof fn lemma_after_writes_concat(pair: PicPair, first: Seq<PortWrite>, second: Seq<PortWrite>)
    ensures
        pair.after_writes(first + second) == pair.after_writes(first).after_writes(second),
    decreases second.len(),
{
    if second.len() == 0 {
        assert(first + second == first);
    } else {
        lemma_after_writes_concat(pair, first, second.drop_last());
        assert((first + second).drop_last() == first + second.drop_last());
    }
}

/// Reinitialising the controllers leaves the enabled lines as they were: after
/// the writes of [`remap_pic`], computed from the masks the pair showed
/// before, both controllers are initialised with the vector bases, cascade
/// bytes and operating mode of this kernel, nothing is in service, and both
/// mask registers hold what they held before. This holds from every state of
/// the pair, also from the middle of an earlier initialisation.
pub proof fn lemma_remap_keeps_masks(pair: PicPair)
    ensures
        pair.remapped().master == (PicChip {
            mask: pair.master.mask,
            in_service: 0,
            vector_base: MASTER_VECTOR_BASE,
            cascade: MASTER_CASCADE,
            mode: ICW4_8086,
            mode_announced: true,
            single: false,
            stage: InitStage::Ready,
        }),
        pair.remapped().slave == (PicChip {
            mask: pair.slave.mask,
            in_service: 0,
            vector_base: SLAVE_VECTOR_BASE,
            cascade: SLAVE_CASCADE,
            mode: ICW4_8086,
            mode_announced: true,
            single: false,
            stage: InitStage::Ready,
        }),
{
    lemma_command_bits();
    let w = remap_writes(pair.master.mask, pair.slave.mask);
    let s0 = Seq::<PortWrite>::empty();
    let s1 = s0.push(w[0]);
    let s2 = s1.push(w[1]);
    let s3 = s2.push(w[2]);
    let s4 = s3.push(w[3]);
    let s5 = s4.push(w[4]);
    let s6 = s5.push(w[5]);
    let s7 = s6.push(w[6]);
    let s8 = s7.push(w[7]);
    let s9 = s8.push(w[8]);
    let s10 = s9.push(w[9]);
    assert(s10 == w);
    lemma_after_writes_push(pair, s0, w[0]);
    lemma_after_writes_push(pair, s1, w[1]);
    lemma_after_writes_push(pair, s2, w[2]);
    lemma_after_writes_push(pair, s3, w[3]);
    lemma_after_writes_push(pair, s4, w[4]);
    lemma_after_writes_push(pair, s5, w[5]);
    lemma_after_writes_push(pair, s6, w[6]);
    lemma_after_writes_push(pair, s7, w[7]);
    lemma_after_writes_push(pair, s8, w[8]);
    lemma_after_writes_push(pair, s9, w[9]);
}

/// On initialised controllers the writes of [`set_mask`] replace the two mask
/// registers by the given bytes and change nothing else.
pub proof fn lemma_set_mask_sets_masks(pair: PicPair, master: u8, slave: u8)
    requires
        pair.is_ready(),
    ensures
        pair.masked(master, slave).master == (PicChip { mask: master, ..pair.master }),
        pair.masked(master, slave).slave == (PicChip { mask: slave, ..pair.slave }),
{
    let w = mask_writes(master, slave);
    let s0 = Seq::<PortWrite>::empty();
    let s1 = s0.push(w[0]);
    assert(s1.push(w[1]) == w);
    lemma_after_writes_push(pair, s0, w[0]);
    lemma_after_writes_push(pair, s1, w[1]);
}

/// Reinitialising and then masking gives the same controllers every time:
/// whatever state the pair is in, [`remap_pic`] followed by [`set_mask`]
/// leaves the mask registers at the given bytes, and doing both once more on
/// the result changes nothing at all.
pub proof fn lemma_remap_then_mask_repeatable(pair: PicPair, master: u8, slave: u8)
    ensures
        pair.remapped().masked(master, slave).master.mask == master,
        pair.remapped().masked(master, slave).slave.mask == slave,
        pair.remapped().masked(master, slave).remapped().masked(master, slave)
            == pair.remapped().masked(master, slave),
{
    let once = pair.remapped().masked(master, slave);
    lemma_remap_keeps_masks(pair);
    lemma_set_mask_sets_masks(pair.remapped(), master, slave);
    lemma_remap_keeps_masks(once);
    lemma_set_mask_sets_masks(once.remapped(), master, slave);
}

proof fn lemma_keyboard_mask_bits(line: u8)
    by (bit_vector)
    requires
        line < 8,
    ensures
        (KEYBOARD_ONLY_MASK & (1u8 << line) == 0) <==> line == KEYBOARD_LINE,
        ALL_MASKED & (1u8 << line) != 0,
{
}

proof fn lemma_idle_bits(line: u8)
    by (bit_vector)
    requires
        line < 8,
    ensures
        0u8 & lines_up_to(line) == 0,
        MASTER_VECTOR_BASE | line == line,
{
}

proof fn lemma_service_bits(in_service: u8, line: u8)
    by (bit_vector)
    requires
        line < 8,
        in_service & lines_up_to(line) == 0,
    ensures
        (in_service | (1u8 << line)) & lines_up_to(line) != 0,
        without_lowest_bit(in_service | (1u8 << line)) == in_service,
{
}

/// With the masks that [`crate::idt::idt_init`] sets, the keyboard line is
/// the only enabled line: on initialised controllers, after the writes of
/// `set_mask(0xFD, 0xFF)`, line 1 of the master is enabled and each of the
/// other fifteen lines is disabled.
pub proof fn lemma_keyboard_only_mask(pair: PicPair)
    requires
        pair.is_ready(),
    ensures
        forall|line: u8|
            pair.masked(KEYBOARD_ONLY_MASK, ALL_MASKED).line_enabled(line) <==> line
                == KEYBOARD_LINE,
{
    lemma_set_mask_sets_masks(pair, KEYBOARD_ONLY_MASK, ALL_MASKED);
    let masked = pair.masked(KEYBOARD_ONLY_MASK, ALL_MASKED);
    assert forall|line: u8| masked.line_enabled(line) <==> line == KEYBOARD_LINE by {
        if line < LINES_PER_CHIP {
            lemma_keyboard_mask_bits(line);
        } else if line < 2 * LINES_PER_CHIP {
            lemma_keyboard_mask_bits((line - LINES_PER_CHIP) as u8);
        }
    }
}

/// After the controllers are reinitialised and masked for the keyboard, a
/// request of the keyboard reaches the processor on [`KEYBOARD_VECTOR`], and
/// a request on any other line reaches it on no vector. This holds whatever
/// state the pair was in before.
pub proof fn lemma_only_keyboard_delivered(pair: PicPair, line: u8)
    ensures
        pair.remapped().masked(KEYBOARD_ONLY_MASK, ALL_MASKED).delivered_vector(line) == if line
            == KEYBOARD_LINE {
            Some(KEYBOARD_VECTOR)
        } else {
            None
        },
{
    lemma_remap_keeps_masks(pair);
    lemma_set_mask_sets_masks(pair.remapped(), KEYBOARD_ONLY_MASK, ALL_MASKED);
    if line < LINES_PER_CHIP {
        lemma_keyboard_mask_bits(line);
        lemma_idle_bits(line);
    } else if line < 2 * LINES_PER_CHIP {
        lemma_keyboard_mask_bits((line - LINES_PER_CHIP) as u8);
    }
}

/// An interrupt that was delivered holds its line until it is acknowledged:
/// a second request on the line is held back, and after the writes of
/// [`acknowledge`] for that line the pair is exactly as it was before the
/// interrupt, so that the next request is delivered again.
pub proof fn lemma_acknowledge_retires(pair: PicPair, line: u8)
    requires
        pair.delivered_vector(line) is Some,
    ensures
        pair.after_request(line).delivered_vector(line) is None,
        pair.after_request(line).acknowledged(line) == pair,
{
    lemma_command_bits();
    let busy = pair.after_request(line);
    let w = eoi_writes(line);
    let s0 = Seq::<PortWrite>::empty();
    lemma_after_writes_push(busy, s0, w[0]);
    if line < LINES_PER_CHIP {
        lemma_service_bits(pair.master.in_service, line);
        assert(s0.push(w[0]) == w);
    } else {
        lemma_service_bits(pair.master.in_service, CASCADE_LINE);
        lemma_service_bits(pair.slave.in_service, (line - LINES_PER_CHIP) as u8);
        let s1 = s0.push(w[0]);
        assert(s1.push(w[1]) == w);
        lemma_after_writes_push(busy, s1, w[1]);
    }
}

} // verus!
