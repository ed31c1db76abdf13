use daxo_os::ata::{
    AtaAction, AtaBus, ReadOutcome, ReadPhase, SectorRead, ATA_COMMAND_STATUS_PORT, ATA_DRIVE_HEAD_PORT,
    ATA_LBA_HIGH_PORT, ATA_LBA_LOW_PORT, ATA_LBA_MID_PORT, ATA_SECTOR_COUNT_PORT, IO_DELAY_PORT,
    MAX_READ_STEPS, POLL_LIMIT,
};

fn write(port: u16, value: u8) -> AtaAction {
    AtaAction::Write { port, value }
}

/// Drives a read until it reaches its first data-status poll, with an idle
/// controller; returns the writes it issued.
fn run_to_data_poll(m: &mut SectorRead) -> Vec<AtaAction> {
    assert_eq!(m.step(0), AtaAction::ReadStatus);
    assert_eq!(m.step(0x50), AtaAction::ReadStatus);
    let mut writes = vec![m.step(0x50)];
    loop {
        let a = m.step(0);
        if a == AtaAction::ReadStatus {
            break;
        }
        writes.push(a);
    }
    writes
}

#[test]
fn bus_ports() {
    let b = AtaBus::new();
    assert_eq!(b.data_port, 0x1F0);
    assert_eq!(b.sector_count, 0x1F2);
    assert_eq!(b.lba_low, 0x1F3);
    assert_eq!(b.lba_mid, 0x1F4);
    assert_eq!(b.lba_high, 0x1F5);
    assert_eq!(b.drive_head, 0x1F6);
    assert_eq!(b.command_status, 0x1F7);
}

#[test]
fn command_writes_encode_lba() {
    let mut m = SectorRead::start(AtaBus::new(), 0x1234_5678, [0u8; 512]);
    let writes = run_to_data_poll(&mut m);
    assert_eq!(
        writes,
        vec![
            write(ATA_DRIVE_HEAD_PORT, 0xE2),
            write(IO_DELAY_PORT, 0),
            write(ATA_SECTOR_COUNT_PORT, 1),
            write(ATA_LBA_LOW_PORT, 0x78),
            write(ATA_LBA_MID_PORT, 0x56),
            write(ATA_LBA_HIGH_PORT, 0x34),
            write(ATA_COMMAND_STATUS_PORT, 0x20),
            write(IO_DELAY_PORT, 0),
        ]
    );
    assert_eq!(m.phase, ReadPhase::PollingData { polls: 1 });
}

#[test]
fn lba_zero_selects_master_in_lba_mode() {
    let mut m = SectorRead::start(AtaBus::new(), 0, [0u8; 512]);
    let writes = run_to_data_poll(&mut m);
    assert_eq!(writes[0], write(ATA_DRIVE_HEAD_PORT, 0xE0));
}

#[test]
fn complete_read_stores_words_little_endian() {
    let mut m = SectorRead::start(AtaBus::new(), 7, [0xAA; 512]);
    run_to_data_poll(&mut m);
    // Busy once, then data ready.
    assert_eq!(m.step(0x80), AtaAction::Spin);
    assert_eq!(m.step(0), AtaAction::ReadStatus);
    assert_eq!(m.step(0x58), AtaAction::ReadData);
    for k in 0..256u16 {
        let word = k.wrapping_mul(0x0101) ^ 0x1234;
        let a = m.step(word);
        if k < 255 {
            assert_eq!(a, AtaAction::ReadData);
        } else {
            assert_eq!(a, AtaAction::Finished { outcome: ReadOutcome::Complete });
        }
    }
    for k in 0..256usize {
        let word = (k as u16).wrapping_mul(0x0101) ^ 0x1234;
        assert_eq!(m.buffer[2 * k], (word & 0xFF) as u8);
        assert_eq!(m.buffer[2 * k + 1], (word >> 8) as u8);
    }
    // A finished read stays finished.
    assert_eq!(m.step(0), AtaAction::Finished { outcome: ReadOutcome::Complete });
}

#[test]
fn no_controller() {
    let mut m = SectorRead::start(AtaBus::new(), 0, [3u8; 512]);
    assert_eq!(m.step(0), AtaAction::ReadStatus);
    assert_eq!(m.step(0xFF), AtaAction::Finished { outcome: ReadOutcome::NoController });
    assert_eq!(m.buffer, [3u8; 512]);
}

#[test]
fn busy_timeout_after_poll_limit() {
    let mut m = SectorRead::start(AtaBus::new(), 0, [5u8; 512]);
    assert_eq!(m.step(0), AtaAction::ReadStatus);
    assert_eq!(m.step(0x80), AtaAction::ReadStatus);
    let mut polls = 0u32;
    loop {
        polls += 1;
        assert_eq!(m.step(0x80), AtaAction::Spin);
        let a = m.step(0);
        if a != AtaAction::ReadStatus {
            assert_eq!(a, AtaAction::Finished { outcome: ReadOutcome::BusyTimeout });
            break;
        }
    }
    assert_eq!(polls, POLL_LIMIT);
    assert_eq!(m.buffer, [5u8; 512]);
}

#[test]
fn drive_error_stops_the_read() {
    let mut m = SectorRead::start(AtaBus::new(), 9, [1u8; 512]);
    run_to_data_poll(&mut m);
    assert_eq!(m.step(0x09), AtaAction::Finished { outcome: ReadOutcome::DataNotReady });
    assert_eq!(m.buffer, [1u8; 512]);
}

#[test]
fn data_never_ready() {
    let mut m = SectorRead::start(AtaBus::new(), 9, [1u8; 512]);
    run_to_data_poll(&mut m);
    let mut polls = 0u32;
    loop {
        polls += 1;
        assert_eq!(m.step(0x40), AtaAction::Spin);
        let a = m.step(0);
        if a != AtaAction::ReadStatus {
            assert_eq!(a, AtaAction::Finished { outcome: ReadOutcome::DataNotReady });
            break;
        }
    }
    assert_eq!(polls, POLL_LIMIT);
    assert_eq!(m.buffer, [1u8; 512]);
}

#[test]
fn slowest_read_finishes_within_bound() {
    let mut m = SectorRead::start(AtaBus::new(), 1, [0u8; 512]);
    let mut steps: u32 = 0;
    let mut last = AtaAction::Spin;
    let mut busy_polls = 0u32;
    let mut data_polls = 0u32;
    let mut input: u16 = 0;
    loop {
        let a = m.step(input);
        steps += 1;
        if let AtaAction::Finished { outcome } = a {
            assert_eq!(outcome, ReadOutcome::Complete);
            break;
        }
        input = match (a, m.phase) {
            (AtaAction::ReadStatus, ReadPhase::PollingReady { .. }) => {
                busy_polls += 1;
                if busy_polls < POLL_LIMIT { 0x80 } else { 0x00 }
            }
            (AtaAction::ReadStatus, ReadPhase::PollingData { .. }) => {
                data_polls += 1;
                if data_polls < POLL_LIMIT { 0x00 } else { 0x08 }
            }
            (AtaAction::ReadData, _) => 0xBEEF,
            _ => 0x50,
        };
        last = a;
    }
    assert_eq!(last, AtaAction::ReadData);
    assert!(steps <= MAX_READ_STEPS);
    assert_eq!(m.buffer[0], 0xEF);
    assert_eq!(m.buffer[511], 0xBE);
}

#[test]
fn lba_upper_bits_make_no_difference() {
    let mut a = SectorRead::start(AtaBus::new(), 0xF123_4567, [9u8; 512]);
    let mut b = SectorRead::start(AtaBus::new(), 0xF123_4567 & 0x0FFF_FFFF, [9u8; 512]);
    let inputs: Vec<u16> = [0u16, 0x50, 0x80, 0, 0x50, 0, 0, 0, 0, 0, 0, 0, 0, 0x58]
        .iter()
        .copied()
        .chain((0..256u16).map(|w| w.wrapping_mul(77)))
        .collect();
    for &i in &inputs {
        assert_eq!(a.step(i), b.step(i));
        assert_eq!(a.phase, b.phase);
    }
    assert_eq!(a.phase, ReadPhase::Done { outcome: ReadOutcome::Complete });
    assert_eq!(a.buffer, b.buffer);
}
