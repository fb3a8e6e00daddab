//! The i.MX6 UART: its registers, and the serial port configured on them.
use vstd::prelude::*;

verus! {

/// The UART registers that the serial port uses, by name.
#[derive(Clone, Copy, Debug, PartialEq, Eq, Structural)]
pub enum Reg {
    Rx,
    Tx,
    Ctl1,
    Ctl2,
    Ctl3,
    Ctl4,
    Fctl,
    Stat2,
    Bir,
    Bmr,
    Test,
}

/// Control 1: UART enable.
pub const CTL1_ENABLE: u32 = 0x1;

/// Control 1: receive-ready interrupt enable.
pub const CTL1_RECV_READY_INTERRUPT: u32 = 0x200;

/// Control 2: software reset (a reset runs while it is clear).
pub const CTL2_SOFTWARE_RESET: u32 = 0x1;

/// Control 2: receiver enable, transmitter enable, 8-bit words, ignore RTS.
pub const CTL2_LINE_SETUP: u32 = 0x4026;

/// Control 3: RXD muxed input, auto-baud off, RI, DCD and DSR lines.
pub const CTL3_LINE_SETUP: u32 = 0x784;

/// Control 4: the CTS trigger level field (bits 10 to 15).
pub const CTL4_CTS_LEVEL_MASK: u32 = 0xFC00;

/// Control 4: CTS trigger level of 32 characters.
pub const CTL4_CTS_LEVEL_32: u32 = 0x8000;

/// FIFO control: trigger levels, DCE/DTE mode and reference divider (bits 0 to 15).
pub const FCTL_MASK: u32 = 0xFFFF;

/// FIFO control: RX trigger at 1 character, DCE mode, divide by 2, TX trigger at 2 characters.
pub const FCTL_SETUP: u32 = 0xA01;

/// A 16-bit field at bit 0 (baud rate increment and modulator).
pub const LOW_HALF_MASK: u32 = 0xFFFF;

/// Baud rate increment numerator.
pub const BAUD_INCREMENT: u32 = 0xF;

/// Baud rate modulator denominator.
pub const BAUD_MODULATOR: u32 = 0x15B;

/// Status 2: a received character is ready.
pub const STAT2_RX_READY: u32 = 0x1;

/// Status 2: the transmit FIFO is empty.
pub const STAT2_TX_EMPTY: u32 = 0x4000;

/// Rx and Tx: the data byte field.
pub const DATA_MASK: u32 = 0xFF;

/// Test: a software reset is running.
pub const TEST_SOFTWARE_RESET: u32 = 0x1;

/// The values of the UART registers that the serial port uses.
#[derive(Clone, Copy, Debug, PartialEq, Eq, Default, Structural)]
pub struct RegisterBlock {
    pub rx: u32,
    pub tx: u32,
    pub ctl1: u32,
    pub ctl2: u32,
    pub ctl3: u32,
    pub ctl4: u32,
    pub fctl: u32,
    pub stat2: u32,
    pub bir: u32,
    pub bmr: u32,
    pub test: u32,
}

impl RegisterBlock {
    /// The value of register `r`.
    pub open spec fn get(self, r: Reg) -> u32 {
        match r {
            Reg::Rx => self.rx,
            Reg::Tx => self.tx,
            Reg::Ctl1 => self.ctl1,
            Reg::Ctl2 => self.ctl2,
            Reg::Ctl3 => self.ctl3,
            Reg::Ctl4 => self.ctl4,
            Reg::Fctl => self.fctl,
            Reg::Stat2 => self.stat2,
            Reg::Bir => self.bir,
            Reg::Bmr => self.bmr,
            Reg::Test => self.test,
        }
    }

    /// The same registers with `r` set to `v`.
    pub open spec fn with(self, r: Reg, v: u32) -> RegisterBlock {
        match r {
            Reg::Rx => RegisterBlock { rx: v, ..self },
            Reg::Tx => RegisterBlock { tx: v, ..self },
            Reg::Ctl1 => RegisterBlock { ctl1: v, ..self },
            Reg::Ctl2 => RegisterBlock { ctl2: v, ..self },
            Reg::Ctl3 => RegisterBlock { ctl3: v, ..self },
            Reg::Ctl4 => RegisterBlock { ctl4: v, ..self },
            Reg::Fctl => RegisterBlock { fctl: v, ..self },
            Reg::Stat2 => RegisterBlock { stat2: v, ..self },
            Reg::Bir => RegisterBlock { bir: v, ..self },
            Reg::Bmr => RegisterBlock { bmr: v, ..self },
            Reg::Test => RegisterBlock { test: v, ..self },
        }
    }
}

/// Access to a UART's registers.
///
/// A software reset leaves the control and FIFO control registers as they
/// were and clears the test register's reset flag when it is over; the
/// other registers may change during it.
pub trait UartRegisters {
    spec fn registers(&self) -> RegisterBlock;

    /// Reads register `r`.
    fn read_register(&self, r: Reg) -> (v: u32)
        ensures
            v == self.registers().get(r),
    ;

    /// Writes `v` to register `r`.
    fn write_register(&mut self, r: Reg, v: u32)
        ensures
            final(self).registers() == old(self).registers().with(r, v),
    ;

    /// Waits until a software reset is over.
    fn await_reset_done(&mut self)
        ensures
            final(self).registers().test & TEST_SOFTWARE_RESET == 0,
            final(self).registers().ctl1 == old(self).registers().ctl1,
            final(self).registers().ctl2 == old(self).registers().ctl2,
            final(self).registers().ctl3 == old(self).registers().ctl3,
            final(self).registers().ctl4 == old(self).registers().ctl4,
            final(self).registers().fctl == old(self).registers().fctl,
    ;
}

/// A register file held in memory, where a reset is over at once.
impl UartRegisters for RegisterBlock {
    open spec fn registers(&self) -> RegisterBlock {
        *self
    }

    fn read_register(&self, r: Reg) -> (v: u32) {
        match r {
            Reg::Rx => self.rx,
            Reg::Tx => self.tx,
            Reg::Ctl1 => self.ctl1,
            Reg::Ctl2 => self.ctl2,
            Reg::Ctl3 => self.ctl3,
            Reg::Ctl4 => self.ctl4,
            Reg::Fctl => self.fctl,
            Reg::Stat2 => self.stat2,
            Reg::Bir => self.bir,
            Reg::Bmr => self.bmr,
            Reg::Test => self.test,
        }
    }

    fn write_register(&mut self, r: Reg, v: u32) {
        match r {
            Reg::Rx => self.rx = v,
            Reg::Tx => self.tx = v,
            Reg::Ctl1 => self.ctl1 = v,
            Reg::Ctl2 => self.ctl2 = v,
            Reg::Ctl3 => self.ctl3 = v,
            Reg::Ctl4 => self.ctl4 = v,
            Reg::Fctl => self.fctl = v,
            Reg::Stat2 => self.stat2 = v,
            Reg::Bir => self.bir = v,
            Reg::Bmr => self.bmr = v,
            Reg::Test => self.test = v,
        }
    }

    fn await_reset_done(&mut self) {
        let t = self.test;
        self.test = t & !TEST_SOFTWARE_RESET;
        assert((t & !1u32) & 1u32 == 0) by (bit_vector);
    }
}

/// Clears the bits of `clear` in register `r` and then sets those of `set`.
fn modify<U: UartRegisters>(uart: &mut U, r: Reg, clear: u32, set: u32)
    ensures
        final(uart).registers() == old(uart).registers().with(
            r,
            (old(uart).registers().get(r) & !clear) | set,
        ),
{
    let v = uart.read_register(r);
    uart.write_register(r, (v & !clear) | set);
}

/// The registers once a reset has been started from `s`: the UART enable
/// cleared and set again, and the software reset bit cleared.
pub open spec fn reset_started(s: RegisterBlock) -> RegisterBlock {
    RegisterBlock { ctl1: s.ctl1 | CTL1_ENABLE, ctl2: s.ctl2 & !CTL2_SOFTWARE_RESET, ..s }
}

/// What a finished reset may leave from `before`: control and FIFO control
/// registers as they were and the test register's reset flag clear; the
/// other registers are the hardware's.
pub open spec fn reset_done(before: RegisterBlock, after: RegisterBlock) -> bool {
    &&& after.ctl1 == before.ctl1
    &&& after.ctl2 == before.ctl2
    &&& after.ctl3 == before.ctl3
    &&& after.ctl4 == before.ctl4
    &&& after.fctl == before.fctl
    &&& after.test & TEST_SOFTWARE_RESET == 0
}

/// The registers once the line is configured from `a`, the registers after
/// the reset: only the named fields change, every other bit and register
/// (Rx, Tx, Status 2, Test) keeps its value.
pub open spec fn configured(a: RegisterBlock) -> RegisterBlock {
    RegisterBlock {
        ctl2: a.ctl2 | CTL2_LINE_SETUP,
        ctl3: a.ctl3 | CTL3_LINE_SETUP,
        ctl4: (a.ctl4 & !CTL4_CTS_LEVEL_MASK) | CTL4_CTS_LEVEL_32,
        fctl: (a.fctl & !FCTL_MASK) | FCTL_SETUP,
        bir: (a.bir & !LOW_HALF_MASK) | BAUD_INCREMENT,
        bmr: (a.bmr & !LOW_HALF_MASK) | BAUD_MODULATOR,
        ..a
    }
}

/// The registers that `Serial::new` may leave when it starts from `start`.
pub open spec fn set_up_from(start: RegisterBlock, end: RegisterBlock) -> bool {
    exists|after: RegisterBlock|
        #[trigger] reset_done(reset_started(start), after) && end == configured(after)
}

proof fn set_up_via(start: RegisterBlock, after: RegisterBlock, end: RegisterBlock)
    requires
        reset_done(reset_started(start), after),
        end == configured(after),
    ensures
        set_up_from(start, end),
{
}

/// Interrupt events of the serial port.
#[derive(Clone, Copy, Debug, PartialEq, Eq, Structural)]
pub enum Event {
    /// A character has been received.
    Receive,
}

/// A serial port on a UART.
pub struct Serial<U> {
    uart: U,
}

impl<U: UartRegisters> Serial<U> {
    /// The registers of the UART.
    pub closed spec fn registers(&self) -> RegisterBlock {
        self.uart.registers()
    }

    /// Resets and configures the UART: enabled, receiver and transmitter on,
    /// 8-bit words, RTS ignored, RXD muxed, CTS trigger at 32 characters,
    /// FIFO triggers at 1 (RX) and 2 (TX), DCE mode, reference clock divided
    /// by 2, and the baud rate increment and modulator set. Bits outside
    /// these fields keep their values.
    pub fn new(uart: U) -> (r: Self)
        ensures
            r.registers().ctl1 == uart.registers().ctl1 | CTL1_ENABLE,
            r.registers().ctl2 == (uart.registers().ctl2 & !CTL2_SOFTWARE_RESET) | CTL2_LINE_SETUP,
            r.registers().ctl3 == uart.registers().ctl3 | CTL3_LINE_SETUP,
            r.registers().ctl4 == (uart.registers().ctl4 & !CTL4_CTS_LEVEL_MASK) | CTL4_CTS_LEVEL_32,
            r.registers().fctl == (uart.registers().fctl & !FCTL_MASK) | FCTL_SETUP,
            r.registers().bir & LOW_HALF_MASK == BAUD_INCREMENT,
            r.registers().bmr & LOW_HALF_MASK == BAUD_MODULATOR,
            r.registers().test & TEST_SOFTWARE_RESET == 0,
            set_up_from(uart.registers(), r.registers()),
    {
        let ghost start = uart.registers();
        let mut uart = uart;
        modify(&mut uart, Reg::Ctl1, CTL1_ENABLE, 0);
        modify(&mut uart, Reg::Ctl1, CTL1_ENABLE, CTL1_ENABLE);
        modify(&mut uart, Reg::Ctl2, CTL2_SOFTWARE_RESET, 0);
        uart.await_reset_done();
        let ghost after = uart.registers();
        modify(&mut uart, Reg::Ctl2, CTL2_LINE_SETUP, CTL2_LINE_SETUP);
        modify(&mut uart, Reg::Ctl3, CTL3_LINE_SETUP, CTL3_LINE_SETUP);
        modify(&mut uart, Reg::Ctl4, CTL4_CTS_LEVEL_MASK, CTL4_CTS_LEVEL_32);
        modify(&mut uart, Reg::Fctl, FCTL_MASK, FCTL_SETUP);
        let ghost bi = uart.registers().bir;
        modify(&mut uart, Reg::Bir, LOW_HALF_MASK, BAUD_INCREMENT);
        let ghost bm = uart.registers().bmr;
        modify(&mut uart, Reg::Bmr, LOW_HALF_MASK, BAUD_MODULATOR);
        proof {
            let c1 = start.ctl1;
            let c2 = start.ctl2;
            let c3 = start.ctl3;
            assert((((c1 & !1u32) | 0u32) & !1u32) | 1u32 == c1 | 1u32) by (bit_vector);
            assert((((c2 & !1u32) | 0u32) & !0x4026u32) | 0x4026u32 == (c2 & !1u32) | 0x4026u32)
                by (bit_vector);
            assert((c3 & !0x784u32) | 0x784u32 == c3 | 0x784u32) by (bit_vector);
            assert(((bi & !0xFFFFu32) | 0xFu32) & 0xFFFFu32 == 0xFu32) by (bit_vector);
            assert(((bm & !0xFFFFu32) | 0x15Bu32) & 0xFFFFu32 == 0x15Bu32) by (bit_vector);
            assert((c2 & !1u32) | 0u32 == c2 & !1u32) by (bit_vector);
            let a2 = after.ctl2;
            let a3 = after.ctl3;
            assert((a2 & !0x4026u32) | 0x4026u32 == a2 | 0x4026u32) by (bit_vector);
            assert((a3 & !0x784u32) | 0x784u32 == a3 | 0x784u32) by (bit_vector);
            set_up_via(start, after, uart.registers());
        }
        Serial { uart }
    }

    /// Turns on the interrupt for `event`; nothing else changes.
    pub fn listen(&mut self, event: Event)
        ensures
            final(self).registers() == old(self).registers().with(
                Reg::Ctl1,
                old(self).registers().ctl1 | CTL1_RECV_READY_INTERRUPT,
            ),
    {
        match event {
            Event::Receive => {
                let ghost c1 = self.uart.registers().ctl1;
                modify(&mut self.uart, Reg::Ctl1, CTL1_RECV_READY_INTERRUPT, CTL1_RECV_READY_INTERRUPT);
                assert((c1 & !0x200u32) | 0x200u32 == c1 | 0x200u32) by (bit_vector);
            },
        }
    }

    /// The received character, or `None` when none is ready.
    pub fn read(&mut self) -> (r: Option<u8>)
        ensures
            final(self).registers() == old(self).registers(),
            old(self).registers().stat2 & STAT2_RX_READY != 0 ==> r == Some(
                (old(self).registers().rx & DATA_MASK) as u8,
            ),
            old(self).registers().stat2 & STAT2_RX_READY == 0 ==> r is None,
    {
        let status = self.uart.read_register(Reg::Stat2);
        if status & STAT2_RX_READY != 0 {
            let data = self.uart.read_register(Reg::Rx);
            Some((data & DATA_MASK) as u8)
        } else {
            None
        }
    }

    /// Whether everything written has left the transmit FIFO.
    pub fn flush(&mut self) -> (r: bool)
        ensures
            final(self).registers() == old(self).registers(),
            r == (old(self).registers().stat2 & STAT2_TX_EMPTY != 0),
    {
        let status = self.uart.read_register(Reg::Stat2);
        status & STAT2_TX_EMPTY != 0
    }

    /// Hands `byte` to the transmitter when its FIFO is empty, and says
    /// whether it did.
    pub fn write(&mut self, byte: u8) -> (r: bool)
        ensures
            r == (old(self).registers().stat2 & STAT2_TX_EMPTY != 0),
            r ==> final(self).registers() == old(self).registers().with(
                Reg::Tx,
                (old(self).registers().tx & !DATA_MASK) | byte as u32,
            ),
            !r ==> final(self).registers() == old(self).registers(),
    {
        let status = self.uart.read_register(Reg::Stat2);
        if status & STAT2_TX_EMPTY != 0 {
            modify(&mut self.uart, Reg::Tx, DATA_MASK, byte as u32);
            true
        } else {
            false
        }
    }

    /// Gives the UART back.
    pub fn free(self) -> (r: U)
        ensures
            r.registers() == self.registers(),
    {
        self.uart
    }
}

/// Text bytes as a terminal takes them: each `\n` becomes `\r\n`.
pub open spec fn crlf(bytes: Seq<u8>) -> Seq<u8>
    decreases bytes.len(),
{
    if bytes.len() == 0 {
        Seq::empty()
    } else if bytes.last() == 10 {
        crlf(bytes.drop_last()) + seq![13u8, 10u8]
    } else {
        crlf(bytes.drop_last()).push(bytes.last())
    }
}

/// The bytes to send for `text`, with each `\n` turned into `\r\n`.
pub fn terminal_bytes(text: &[u8]) -> (r: Vec<u8>)
    ensures
        r@ == crlf(text@),
{
    let mut out: Vec<u8> = Vec::new();
    let n: usize = text.len();
    let mut i: usize = 0;
    while i < n
        invariant
            n == text@.len(),
            i <= n,
            out@ == crlf(text@.subrange(0, i as int)),
        decreases n - i,
    {
        let b = text[i];
        proof {
            let next = text@.subrange(0, i + 1);
            assert(next.drop_last() =~= text@.subrange(0, i as int));
            assert(next.last() == b);
        }
        if b == 10 {
            out.push(13);
            out.push(10);
        } else {
            out.push(b);
        }
        i += 1;
        proof {
            assert(out@ =~= crlf(text@.subrange(0, i as int)));
        }
    }
    assert(text@.subrange(0, n as int) =~= text@);
    out
}

} // verus!
