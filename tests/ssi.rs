use rgb_strip::ssi::{Ssi, SsiId, SsiPort, SsiReg};

/// A simulated register block that reports a full transmit FIFO for a given
/// number of status reads, and logs every access.
struct MockPort {
    cr0: u32,
    cr1: u32,
    cpsr: u32,
    busy_polls: usize,
    status_reads: usize,
    data_writes: Vec<u32>,
    log: Vec<(char, SsiReg, u32)>,
    clock_enabled: bool,
}

impl MockPort {
    fn new(busy_polls: usize) -> MockPort {
        MockPort {
            cr0: 0,
            cr1: 0,
            cpsr: 0,
            busy_polls,
            status_reads: 0,
            data_writes: Vec::new(),
            log: Vec::new(),
            clock_enabled: false,
        }
    }
}

impl SsiPort for MockPort {
    fn enable_clock(&mut self) {
        self.clock_enabled = true;
    }

    fn read(&mut self, reg: SsiReg) -> u32 {
        let v = match reg {
            SsiReg::Cr0 => self.cr0,
            SsiReg::Cr1 => self.cr1,
            SsiReg::Cpsr => self.cpsr,
            SsiReg::Dr => 0,
            SsiReg::Sr => {
                self.status_reads += 1;
                if self.status_reads > self.busy_polls {
                    0b0000_0011
                } else {
                    0b0000_0001
                }
            }
        };
        self.log.push(('r', reg, v));
        v
    }

    fn write(&mut self, reg: SsiReg, value: u32) {
        match reg {
            SsiReg::Cr0 => self.cr0 = value,
            SsiReg::Cr1 => self.cr1 = value,
            SsiReg::Cpsr => self.cpsr = value,
            SsiReg::Dr => self.data_writes.push(value),
            SsiReg::Sr => {}
        }
        self.log.push(('w', reg, value));
    }
}

fn send(ssi: &mut Ssi<MockPort>, word: u16) {
    while !ssi.transmit(word) {}
}

#[test]
fn transmit_waits_for_room() {
    for n in 0..5usize {
        let mut ssi = Ssi::new(SsiId::Ssi0, MockPort::new(n), 16);
        send(&mut ssi, 0xE8E8);
        assert_eq!(ssi.port().status_reads, n + 1);
        assert_eq!(ssi.port().data_writes, vec![0xE8E8u32]);
    }
}

#[test]
fn transmit_attempt_on_full_fifo_writes_nothing() {
    let mut ssi = Ssi::new(SsiId::Ssi1, MockPort::new(1), 16);
    assert!(!ssi.transmit(0x1234));
    assert!(ssi.port().data_writes.is_empty());
    assert!(ssi.transmit(0x1234));
    assert_eq!(ssi.port().data_writes, vec![0x1234u32]);
}

#[test]
fn transmit_reads_status_before_writing() {
    let mut ssi = Ssi::new(SsiId::Ssi0, MockPort::new(2), 16);
    let before = ssi.port().log.len();
    send(&mut ssi, 0x8888);
    let log = &ssi.port().log[before..];
    assert_eq!(log.len(), 4);
    assert_eq!(log[0], ('r', SsiReg::Sr, 1));
    assert_eq!(log[1], ('r', SsiReg::Sr, 1));
    assert_eq!(log[2], ('r', SsiReg::Sr, 3));
    assert_eq!(log[3], ('w', SsiReg::Dr, 0x8888));
}

#[test]
fn configure_sets_data_size() {
    let ssi = Ssi::new(SsiId::Ssi0, MockPort::new(0), 16);
    assert_eq!(ssi.port().cr0 & 0xf, 15);
    let ssi = Ssi::new(SsiId::Ssi0, MockPort::new(0), 8);
    assert_eq!(ssi.port().cr0 & 0xf, 7);
}

#[test]
fn configure_register_values() {
    let mut port = MockPort::new(0);
    port.cr0 = 0xFFFF_FFFF;
    port.cr1 = 0b1_0101;
    port.cpsr = 0xFFFF_FFFF;
    let ssi = Ssi::new(SsiId::Ssi2, port, 16);
    assert!(ssi.port().clock_enabled);
    assert_eq!(ssi.port().cr0, 0xFFFF_0E0F);
    assert_eq!(ssi.port().cr1, 0b1_0011);
    assert_eq!(ssi.port().cpsr, 0xFFFF_FF02);
    assert_eq!(ssi.id(), SsiId::Ssi2);
}

#[test]
fn configure_disables_first_and_enables_last() {
    let mut port = MockPort::new(0);
    port.cr1 = 0b10;
    let ssi = Ssi::new(SsiId::Ssi3, port, 16);
    let log = &ssi.port().log;
    assert_eq!(log.len(), 10);
    assert_eq!(log[0], ('r', SsiReg::Cr1, 0b10));
    assert_eq!(log[1], ('w', SsiReg::Cr1, 0b00));
    assert_eq!(log[9], ('w', SsiReg::Cr1, 0b10));
    let cr0_writes = log.iter().filter(|e| e.0 == 'w' && e.1 == SsiReg::Cr0).count();
    assert_eq!(cr0_writes, 1);
}

#[test]
fn reconfigure_changes_word_width() {
    let mut ssi = Ssi::new(SsiId::Ssi0, MockPort::new(0), 16);
    ssi.configure(4);
    assert_eq!(ssi.port().cr0 & 0xf, 3);
    assert_eq!(ssi.port().cr1 & 0b10, 0b10);
}

#[test]
fn unit_base_addresses() {
    assert_eq!(SsiId::Ssi0.base_address(), 0x4000_8000);
    assert_eq!(SsiId::Ssi1.base_address(), 0x4000_9000);
    assert_eq!(SsiId::Ssi2.base_address(), 0x4000_A000);
    assert_eq!(SsiId::Ssi3.base_address(), 0x4000_B000);
}

#[test]
fn register_offsets() {
    assert_eq!(SsiReg::Cr0.offset(), 0x00);
    assert_eq!(SsiReg::Cr1.offset(), 0x04);
    assert_eq!(SsiReg::Dr.offset(), 0x08);
    assert_eq!(SsiReg::Sr.offset(), 0x0c);
    assert_eq!(SsiReg::Cpsr.offset(), 0x10);
}
