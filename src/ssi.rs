//! Driver for one synchronous serial interface (SSI) unit.
//!
//! The driver reaches the unit's registers through an [`SsiPort`], which on
//! the target reads and writes the memory-mapped register block and in a test
//! may be a simulated one. Every register access the driver makes is recorded
//! in a ghost trace, and the contracts state the trace each operation leaves.

use vstd::prelude::*;
use crate::reg::{
    field_of, fits, get_field, lemma_get_set, lemma_low_masks, lemma_set_keeps_disjoint_field,
    set_field, valid_field, with_field,
};

verus! {

/// Offset of control register 0 in the register block.
pub const CR0_OFFSET: u32 = 0x00;

/// Offset of control register 1.
pub const CR1_OFFSET: u32 = 0x04;

/// Offset of the data register.
pub const DR_OFFSET: u32 = 0x08;

/// Offset of the status register.
pub const SR_OFFSET: u32 = 0x0c;

/// Offset of the clock prescale register.
pub const CPSR_OFFSET: u32 = 0x10;

/// Control register 0, data size select: word width minus one.
pub const CR0_DSS_LO: u32 = 0;
pub const CR0_DSS_WIDTH: u32 = 4;

/// Control register 0, frame format select.
pub const CR0_FRF_LO: u32 = 4;
pub const CR0_FRF_WIDTH: u32 = 2;

/// Frame formats: Freescale SPI, TI synchronous serial, Microwire.
pub const FRF_SPI: u32 = 0;
pub const FRF_TI_SS: u32 = 1;
pub const FRF_MICROWIRE: u32 = 2;

/// Control register 0, clock polarity (bit 6) and clock phase (bit 7).
pub const CR0_SPO_LO: u32 = 6;
pub const CR0_SPH_LO: u32 = 7;

/// Control register 0, serial clock rate.
pub const CR0_SCR_LO: u32 = 8;
pub const CR0_SCR_WIDTH: u32 = 8;

/// Control register 1: loopback, port enable, role select, end of
/// transmission.
pub const CR1_LBM_LO: u32 = 0;
pub const CR1_SSE_LO: u32 = 1;
pub const CR1_MS_LO: u32 = 2;
pub const CR1_EOT_LO: u32 = 4;

/// Roles: controller (master) or target (slave).
pub const MS_MASTER: u32 = 0;
pub const MS_SLAVE: u32 = 1;

/// Data register: the transmitted or received word.
pub const DR_DATA_LO: u32 = 0;
pub const DR_DATA_WIDTH: u32 = 16;

/// Status register: transmit FIFO empty, transmit FIFO not full, receive FIFO
/// not empty, receive FIFO full, busy.
pub const SR_TFE_LO: u32 = 0;
pub const SR_TNF_LO: u32 = 1;
pub const SR_RNE_LO: u32 = 2;
pub const SR_RFF_LO: u32 = 3;
pub const SR_BSY_LO: u32 = 4;

/// Clock prescale register: the prescale divisor.
pub const CPSR_CPSDVSR_LO: u32 = 0;
pub const CPSR_CPSDVSR_WIDTH: u32 = 8;

/// Clock prescale divisor the driver programs.
pub const PRESCALE: u32 = 2;

/// Serial clock rate the driver programs.
pub const CLOCK_RATE: u32 = 14;

/// Largest word width the unit supports.
pub const MAX_DATA_SIZE: u32 = 16;

/// The four SSI units.
#[derive(Clone, Copy, PartialEq, Eq, Structural, Debug)]
pub enum SsiId {
    Ssi0,
    Ssi1,
    Ssi2,
    Ssi3,
}

/// Base address of a unit's register block.
pub open spec fn base_address_of(id: SsiId) -> u32 {
    match id {
        SsiId::Ssi0 => 0x4000_8000,
        SsiId::Ssi1 => 0x4000_9000,
        SsiId::Ssi2 => 0x4000_a000,
        SsiId::Ssi3 => 0x4000_b000,
    }
}

impl SsiId {
    /// Base address of this unit's register block.
    pub fn base_address(&self) -> (r: u32)
        ensures
            r == base_address_of(*self),
    {
        match self {
            SsiId::Ssi0 => 0x4000_8000,
            SsiId::Ssi1 => 0x4000_9000,
            SsiId::Ssi2 => 0x4000_a000,
            SsiId::Ssi3 => 0x4000_b000,
        }
    }
}

/// The registers of an SSI unit.
#[derive(Clone, Copy, PartialEq, Eq, Structural, Debug)]
pub enum SsiReg {
    Cr0,
    Cr1,
    Dr,
    Sr,
    Cpsr,
}

/// Offset of a register from the unit's base address.
pub open spec fn offset_of(reg: SsiReg) -> u32 {
    match reg {
        SsiReg::Cr0 => CR0_OFFSET,
        SsiReg::Cr1 => CR1_OFFSET,
        SsiReg::Dr => DR_OFFSET,
        SsiReg::Sr => SR_OFFSET,
        SsiReg::Cpsr => CPSR_OFFSET,
    }
}

impl SsiReg {
    /// Offset of this register from the unit's base address.
    pub fn offset(&self) -> (r: u32)
        ensures
            r == offset_of(*self),
    {
        match self {
            SsiReg::Cr0 => CR0_OFFSET,
            SsiReg::Cr1 => CR1_OFFSET,
            SsiReg::Dr => DR_OFFSET,
            SsiReg::Sr => SR_OFFSET,
            SsiReg::Cpsr => CPSR_OFFSET,
        }
    }
}

/// One access the driver makes through its port.
pub enum Access {
    /// The unit's clock gate was switched on.
    EnableClock,
    /// A register was read and gave a value.
    Read(SsiReg, u32),
    /// A value was written to a register.
    Write(SsiReg, u32),
}

/// Access to the registers of one SSI unit.
pub trait SsiPort {
    /// Switches on the unit's clock gate, if it is not on yet.
    fn enable_clock(&mut self);

    /// Reads a whole register.
    fn read(&mut self, reg: SsiReg) -> u32;

    /// Writes a whole register.
    fn write(&mut self, reg: SsiReg, value: u32);
}

/// Holds when the transmit-FIFO-not-full flag is set in a status value.
pub open spec fn tx_not_full(status: u32) -> bool {
    field_of(status, SR_TNF_LO, 1) == 1
}

/// Control register 0 as configuration leaves it: clock rate 14, SPI frame
/// format, clock phase and polarity zero, data size `data_size - 1`, all other
/// bits as in `reg`.
pub open spec fn cr0_config(reg: u32, data_size: u32) -> u32 {
    with_field(
        with_field(
            with_field(
                with_field(
                    with_field(reg, CR0_SCR_LO, CR0_SCR_WIDTH, CLOCK_RATE),
                    CR0_FRF_LO,
                    CR0_FRF_WIDTH,
                    FRF_SPI,
                ),
                CR0_SPH_LO,
                1,
                0,
            ),
            CR0_SPO_LO,
            1,
            0,
        ),
        CR0_DSS_LO,
        CR0_DSS_WIDTH,
        (data_size - 1) as u32,
    )
}

/// Configuration for `data_size`-bit words leaves control register 0 with
/// data size field `data_size - 1`, clock rate 14, the SPI frame format and
/// clock phase and polarity zero, whatever the register held before.
pub proof fn lemma_configured_cr0(reg: u32, data_size: u32)
    requires
        1 <= data_size <= MAX_DATA_SIZE,
    ensures
        field_of(cr0_config(reg, data_size), CR0_DSS_LO, CR0_DSS_WIDTH) == data_size - 1,
        field_of(cr0_config(reg, data_size), CR0_SCR_LO, CR0_SCR_WIDTH) == CLOCK_RATE,
        field_of(cr0_config(reg, data_size), CR0_FRF_LO, CR0_FRF_WIDTH) == FRF_SPI,
        field_of(cr0_config(reg, data_size), CR0_SPH_LO, 1) == 0,
        field_of(cr0_config(reg, data_size), CR0_SPO_LO, 1) == 0,
{
    lemma_low_masks();
    let r1 = with_field(reg, CR0_SCR_LO, CR0_SCR_WIDTH, CLOCK_RATE);
    let r2 = with_field(r1, CR0_FRF_LO, CR0_FRF_WIDTH, FRF_SPI);
    let r3 = with_field(r2, CR0_SPH_LO, 1, 0);
    let r4 = with_field(r3, CR0_SPO_LO, 1, 0);
    let ds = (data_size - 1) as u32;
    lemma_get_set(reg, CR0_SCR_LO, CR0_SCR_WIDTH, CLOCK_RATE);
    lemma_set_keeps_disjoint_field(r1, CR0_FRF_LO, CR0_FRF_WIDTH, FRF_SPI, CR0_SCR_LO, CR0_SCR_WIDTH);
    lemma_set_keeps_disjoint_field(r2, CR0_SPH_LO, 1, 0, CR0_SCR_LO, CR0_SCR_WIDTH);
    lemma_set_keeps_disjoint_field(r3, CR0_SPO_LO, 1, 0, CR0_SCR_LO, CR0_SCR_WIDTH);
    lemma_set_keeps_disjoint_field(r4, CR0_DSS_LO, CR0_DSS_WIDTH, ds, CR0_SCR_LO, CR0_SCR_WIDTH);

    lemma_get_set(r1, CR0_FRF_LO, CR0_FRF_WIDTH, FRF_SPI);
    lemma_set_keeps_disjoint_field(r2, CR0_SPH_LO, 1, 0, CR0_FRF_LO, CR0_FRF_WIDTH);
    lemma_set_keeps_disjoint_field(r3, CR0_SPO_LO, 1, 0, CR0_FRF_LO, CR0_FRF_WIDTH);
    lemma_set_keeps_disjoint_field(r4, CR0_DSS_LO, CR0_DSS_WIDTH, ds, CR0_FRF_LO, CR0_FRF_WIDTH);

    lemma_get_set(r2, CR0_SPH_LO, 1, 0);
    lemma_set_keeps_disjoint_field(r3, CR0_SPO_LO, 1, 0, CR0_SPH_LO, 1);
    lemma_set_keeps_disjoint_field(r4, CR0_DSS_LO, CR0_DSS_WIDTH, ds, CR0_SPH_LO, 1);

    lemma_get_set(r3, CR0_SPO_LO, 1, 0);
    lemma_set_keeps_disjoint_field(r4, CR0_DSS_LO, CR0_DSS_WIDTH, ds, CR0_SPO_LO, 1);

    lemma_get_set(r4, CR0_DSS_LO, CR0_DSS_WIDTH, ds);
}

/// Holds when `t[i]` reads `reg` and `t[i + 1]` writes back `f` of the value
/// read: a read-modify-write of `reg`.
pub open spec fn is_rmw(t: Seq<Access>, i: int, reg: SsiReg, f: spec_fn(u32) -> u32) -> bool {
    &&& t[i] is Read
    &&& t[i]->Read_0 == reg
    &&& t[i + 1] == Access::Write(reg, f(t[i]->Read_1))
}

/// The accesses of one configuration for words of `data_size` bits: disable
/// the port, select the controller role, set the prescale divisor, set up
/// control register 0 in one write, enable the port.
pub open spec fn configure_trace(t: Seq<Access>, data_size: u32) -> bool {
    &&& t.len() == 10
    &&& is_rmw(t, 0, SsiReg::Cr1, |v: u32| with_field(v, CR1_SSE_LO, 1, 0))
    &&& is_rmw(t, 2, SsiReg::Cr1, |v: u32| with_field(v, CR1_MS_LO, 1, MS_MASTER))
    &&& is_rmw(
        t,
        4,
        SsiReg::Cpsr,
        |v: u32| with_field(v, CPSR_CPSDVSR_LO, CPSR_CPSDVSR_WIDTH, PRESCALE),
    )
    &&& is_rmw(t, 6, SsiReg::Cr0, |v: u32| cr0_config(v, data_size))
    &&& is_rmw(t, 8, SsiReg::Cr1, |v: u32| with_field(v, CR1_SSE_LO, 1, 1))
}

/// The accesses of one transmit attempt of `data`: a read of the status
/// register, and, exactly when that read shows room in the transmit FIFO, a
/// write of `data` to the data register.
pub open spec fn transmit_trace(t: Seq<Access>, data: u16, sent: bool) -> bool {
    &&& t.len() == if sent {
        2int
    } else {
        1int
    }
    &&& t[0] is Read
    &&& t[0]->Read_0 == SsiReg::Sr
    &&& tx_not_full(t[0]->Read_1) == sent
    &&& sent ==> t[1] == Access::Write(SsiReg::Dr, data as u32)
}

/// The accesses of a complete send of `data` during which the transmit FIFO
/// was found full `n` times: `n` status reads showing no room, one showing
/// room, then the one write of `data` to the data register.
pub open spec fn send_trace(t: Seq<Access>, data: u16, n: nat) -> bool {
    &&& t.len() == n + 2
    &&& forall|i: int|
        0 <= i < n ==> {
            &&& #[trigger] t[i] is Read
            &&& t[i]->Read_0 == SsiReg::Sr
            &&& !tx_not_full(t[i]->Read_1)
        }
    &&& t[n as int] is Read
    &&& t[n as int]->Read_0 == SsiReg::Sr
    &&& tx_not_full(t[n as int]->Read_1)
    &&& t[n + 1int] == Access::Write(SsiReg::Dr, data as u32)
}

/// Repeating transmit attempts of one word until one succeeds makes one
/// status read per attempt and a single data write, after the read that found
/// room: attempts that found the FIFO full `n` times leave `n + 1` status
/// reads, then the write.
pub proof fn lemma_attempts_until_sent(attempts: Seq<Seq<Access>>, data: u16)
    requires
        attempts.len() >= 1,
        forall|i: int|
            0 <= i < attempts.len() - 1 ==> transmit_trace(#[trigger] attempts[i], data, false),
        transmit_trace(attempts.last(), data, true),
    ensures
        send_trace(attempts.flatten(), data, (attempts.len() - 1) as nat),
    decreases attempts.len(),
{
    if attempts.len() == 1 {
        assert(attempts.drop_first().flatten() =~= Seq::<Access>::empty());
        assert(attempts.flatten() =~= attempts[0]);
    } else {
        let rest = attempts.drop_first();
        assert(rest.last() == attempts.last());
        assert forall|i: int| 0 <= i < rest.len() - 1 implies transmit_trace(
            #[trigger] rest[i],
            data,
            false,
        ) by {
            assert(rest[i] == attempts[i + 1]);
        }
        lemma_attempts_until_sent(rest, data);
        let t = attempts.flatten();
        let first = attempts[0];
        assert(transmit_trace(first, data, false));
        assert(t == first + rest.flatten());
        assert forall|i: int| 0 <= i < attempts.len() - 1 implies {
            &&& #[trigger] t[i] is Read
            &&& t[i]->Read_0 == SsiReg::Sr
            &&& !tx_not_full(t[i]->Read_1)
        } by {
            if i > 0 {
                assert(t[i] == rest.flatten()[i - 1]);
            }
        }
    }
}

/// A driver for one SSI unit.
pub struct Ssi<P: SsiPort> {
    id: SsiId,
    port: P,
    trace: Ghost<Seq<Access>>,
}

impl<P: SsiPort> Ssi<P> {
    /// Every access made through the port so far, oldest first.
    pub closed spec fn trace(&self) -> Seq<Access> {
        self.trace@
    }

    /// The port, with whatever state it holds.
    pub closed spec fn port_state(&self) -> P {
        self.port
    }

    /// The unit this driver owns.
    pub closed spec fn unit(&self) -> SsiId {
        self.id
    }

    /// Switches on the unit's clock and configures it for words of
    /// `data_size` bits.
    pub fn new(id: SsiId, port: P, data_size: u32) -> (r: Ssi<P>)
        requires
            1 <= data_size <= MAX_DATA_SIZE,
        ensures
            r.unit() == id,
            r.trace().len() == 11,
            r.trace()[0] == Access::EnableClock,
            configure_trace(r.trace().subrange(1, 11), data_size),
    {
        let mut ssi = Ssi { id, port, trace: Ghost(Seq::empty()) };
        ssi.port.enable_clock();
        proof {
            ssi.trace@ = ssi.trace@.push(Access::EnableClock);
        }
        ssi.configure(data_size);
        assert(ssi.trace()[0] == ssi.trace().subrange(0, 1)[0]);
        ssi
    }

    /// The unit this driver owns.
    pub fn id(&self) -> (r: SsiId)
        ensures
            r == self.unit(),
    {
        self.id
    }

    /// The port the driver reaches its registers through.
    pub fn port(&self) -> (r: &P)
        ensures
            *r == self.port_state(),
    {
        &self.port
    }

    fn read_reg(&mut self, reg: SsiReg) -> (v: u32)
        ensures
            final(self).id == old(self).id,
            final(self).trace() == old(self).trace().push(Access::Read(reg, v)),
    {
        let v = self.port.read(reg);
        proof {
            self.trace@ = self.trace@.push(Access::Read(reg, v));
        }
        v
    }

    fn write_reg(&mut self, reg: SsiReg, value: u32)
        ensures
            final(self).id == old(self).id,
            final(self).trace() == old(self).trace().push(Access::Write(reg, value)),
    {
        self.port.write(reg, value);
        proof {
            self.trace@ = self.trace@.push(Access::Write(reg, value));
        }
    }

    /// Read-modify-write of the field `(lo, width)` of `reg`.
    fn update_field(&mut self, reg: SsiReg, lo: u32, width: u32, value: u32)
        requires
            valid_field(lo, width),
            fits(value, width),
        ensures
            final(self).id == old(self).id,
            final(self).trace().len() == old(self).trace().len() + 2,
            final(self).trace().subrange(0, old(self).trace().len() as int) == old(self).trace(),
            is_rmw(
                final(self).trace(),
                old(self).trace().len() as int,
                reg,
                |v: u32| with_field(v, lo, width, value),
            ),
    {
        let v = self.read_reg(reg);
        self.write_reg(reg, set_field(v, lo, width, value));
        assert(self.trace().subrange(0, old(self).trace().len() as int) =~= old(self).trace());
    }

    /// Disables the unit, makes it the controller, sets the bit rate and an
    /// SPI frame format with clock phase and polarity zero and `data_size`-bit
    /// words, and enables it again.
    pub fn configure(&mut self, data_size: u32)
        requires
            1 <= data_size <= MAX_DATA_SIZE,
        ensures
            final(self).unit() == old(self).unit(),
            final(self).trace().len() == old(self).trace().len() + 10,
            final(self).trace().subrange(0, old(self).trace().len() as int) == old(self).trace(),
            configure_trace(
                final(self).trace().subrange(
                    old(self).trace().len() as int,
                    final(self).trace().len() as int,
                ),
                data_size,
            ),
    {
        let ghost start = self.trace().len() as int;
        proof {
            lemma_low_masks();
        }
        self.update_field(SsiReg::Cr1, CR1_SSE_LO, 1, 0);
        let ghost t1 = self.trace();
        self.update_field(SsiReg::Cr1, CR1_MS_LO, 1, MS_MASTER);
        let ghost t2 = self.trace();
        self.update_field(SsiReg::Cpsr, CPSR_CPSDVSR_LO, CPSR_CPSDVSR_WIDTH, PRESCALE);
        let ghost t3 = self.trace();

        let cr0 = self.read_reg(SsiReg::Cr0);
        let ghost read0 = cr0;
        let cr0 = set_field(cr0, CR0_SCR_LO, CR0_SCR_WIDTH, CLOCK_RATE);
        let cr0 = set_field(cr0, CR0_FRF_LO, CR0_FRF_WIDTH, FRF_SPI);
        let cr0 = set_field(cr0, CR0_SPH_LO, 1, 0);
        let cr0 = set_field(cr0, CR0_SPO_LO, 1, 0);
        let cr0 = set_field(cr0, CR0_DSS_LO, CR0_DSS_WIDTH, data_size - 1);
        assert(cr0 == cr0_config(read0, data_size));
        self.write_reg(SsiReg::Cr0, cr0);
        let ghost t4 = self.trace();

        self.update_field(SsiReg::Cr1, CR1_SSE_LO, 1, 1);
        proof {
            let t = self.trace();
            assert(t1[start] == t2[start] && t1[start + 1] == t2[start + 1]) by {
                assert(t2.subrange(0, start + 2)[start] == t2[start]);
                assert(t2.subrange(0, start + 2)[start + 1] == t2[start + 1]);
            }
            assert(forall|i: int| 0 <= i < start + 4 ==> t2[i] == t3[i]) by {
                assert(forall|i: int| 0 <= i < start + 4 ==> t3.subrange(0, start + 4)[i] == t3[i]);
            }
            assert(forall|i: int| 0 <= i < start + 6 ==> t3[i] == t4[i]);
            assert(forall|i: int| 0 <= i < start + 8 ==> t4[i] == t[i]) by {
                assert(forall|i: int| 0 <= i < start + 8 ==> t.subrange(0, start + 8)[i] == t[i]);
            }
            let s = t.subrange(start, t.len() as int);
            assert(t.subrange(0, start) =~= old(self).trace()) by {
                assert(forall|i: int| 0 <= i < start ==> t1.subrange(0, start)[i] == t1[i]);
                assert(forall|i: int| 0 <= i < start ==> old(self).trace()[i] == t1[i]);
            }
            assert(is_rmw(s, 0, SsiReg::Cr1, |v: u32| with_field(v, CR1_SSE_LO, 1, 0)));
            assert(is_rmw(s, 2, SsiReg::Cr1, |v: u32| with_field(v, CR1_MS_LO, 1, MS_MASTER)));
            assert(is_rmw(
                s,
                4,
                SsiReg::Cpsr,
                |v: u32| with_field(v, CPSR_CPSDVSR_LO, CPSR_CPSDVSR_WIDTH, PRESCALE),
            ));
            assert(is_rmw(s, 6, SsiReg::Cr0, |v: u32| cr0_config(v, data_size)));
            assert(is_rmw(s, 8, SsiReg::Cr1, |v: u32| with_field(v, CR1_SSE_LO, 1, 1)));
        }
    }

    /// One attempt to send `data`: reads the status register and, only when
    /// the transmit FIFO has room, writes `data` to the data register.
    /// Returns whether the word was written; a caller that must send the word
    /// repeats the attempt until it is.
    pub fn transmit(&mut self, data: u16) -> (sent: bool)
        ensures
            final(self).unit() == old(self).unit(),
            final(self).trace().subrange(0, old(self).trace().len() as int) == old(self).trace(),
            transmit_trace(
                final(self).trace().subrange(
                    old(self).trace().len() as int,
                    final(self).trace().len() as int,
                ),
                data,
                sent,
            ),
    {
        let status = self.read_reg(SsiReg::Sr);
        let sent = get_field(status, SR_TNF_LO, 1) == 1;
        if sent {
            self.write_reg(SsiReg::Dr, data as u32);
        }
        proof {
            let t = self.trace();
            let n = old(self).trace().len() as int;
            assert(t.subrange(0, n) =~= old(self).trace());
            assert(t.subrange(n, t.len() as int)[0] == t[n]);
            if sent {
                assert(t.subrange(n, t.len() as int)[1] == t[n + 1]);
            }
        }
        sent
    }
}

} // verus!
