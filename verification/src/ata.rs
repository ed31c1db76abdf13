use vstd::prelude::*;

verus! {

/// I/O port of the 16-bit data register of the primary ATA bus.
pub const ATA_DATA_PORT: u16 = 0x1F0;
/// I/O port of the sector-count register.
pub const ATA_SECTOR_COUNT_PORT: u16 = 0x1F2;
/// I/O port of the LBA bits 0..8.
pub const ATA_LBA_LOW_PORT: u16 = 0x1F3;
/// I/O port of the LBA bits 8..16.
pub const ATA_LBA_MID_PORT: u16 = 0x1F4;
/// I/O port of the LBA bits 16..24.
pub const ATA_LBA_HIGH_PORT: u16 = 0x1F5;
/// I/O port of the drive/head register (LBA bits 24..28 and drive select).
pub const ATA_DRIVE_HEAD_PORT: u16 = 0x1F6;
/// I/O port of the command register (write) and status register (read).
pub const ATA_COMMAND_STATUS_PORT: u16 = 0x1F7;
/// The unused POST port; a write to it is a short I/O delay.
pub const IO_DELAY_PORT: u16 = 0x80;

/// The "read sectors with retry" PIO command.
pub const ATA_CMD_READ_PIO: u8 = 0x20;

/// Status bit: the controller is busy.
pub const ATA_STATUS_BSY: u8 = 0x80;
/// Status bit: the drive has data to transfer.
pub const ATA_STATUS_DRQ: u8 = 0x08;
/// Status bit: the last command failed.
pub const ATA_STATUS_ERR: u8 = 0x01;

/// Status value read back when no controller answers on the bus.
pub const ATA_NO_CONTROLLER: u8 = 0xFF;

/// How many times the status register is polled before giving up.
pub const POLL_LIMIT: u32 = 50000;

/// Number of 16-bit words in one 512-byte sector.
pub const SECTOR_WORDS: u16 = 256;

/// At most this many steps take a sector read from its start to `Finished`.
pub const MAX_READ_STEPS: u32 = 200267;

/// Number of port writes that set up one read command.
pub const COMMAND_WRITES: u8 = 8;

/// The I/O ports of one ATA bus.
#[derive(Clone, Copy, Debug)]
pub struct AtaBus {
    pub data_port: u16,
    pub sector_count: u16,
    pub lba_low: u16,
    pub lba_mid: u16,
    pub lba_high: u16,
    pub drive_head: u16,
    pub command_status: u16,
}

impl AtaBus {
    /// The primary ATA bus, at ports 0x1F0 to 0x1F7.
    pub fn new() -> (b: Self)
        ensures
            b.data_port == ATA_DATA_PORT,
            b.sector_count == ATA_SECTOR_COUNT_PORT,
            b.lba_low == ATA_LBA_LOW_PORT,
            b.lba_mid == ATA_LBA_MID_PORT,
            b.lba_high == ATA_LBA_HIGH_PORT,
            b.drive_head == ATA_DRIVE_HEAD_PORT,
            b.command_status == ATA_COMMAND_STATUS_PORT,
    {
        AtaBus {
            data_port: ATA_DATA_PORT,
            sector_count: ATA_SECTOR_COUNT_PORT,
            lba_low: ATA_LBA_LOW_PORT,
            lba_mid: ATA_LBA_MID_PORT,
            lba_high: ATA_LBA_HIGH_PORT,
            drive_head: ATA_DRIVE_HEAD_PORT,
            command_status: ATA_COMMAND_STATUS_PORT,
        }
    }
}

/// Drive/head byte for `lba`: LBA mode, master drive, LBA bits 24..28.
pub open spec fn drive_head_byte(lba: u32) -> u8 {
    (0xE0u32 | ((lba >> 24u32) & 0x0Fu32)) as u8
}

/// LBA bits 0..8.
pub open spec fn lba_low_byte(lba: u32) -> u8 {
    (lba & 0xFFu32) as u8
}

/// LBA bits 8..16.
pub open spec fn lba_mid_byte(lba: u32) -> u8 {
    ((lba >> 8u32) & 0xFFu32) as u8
}

/// LBA bits 16..24.
pub open spec fn lba_high_byte(lba: u32) -> u8 {
    ((lba >> 16u32) & 0xFFu32) as u8
}

/// The `k`-th port write (0 to 7) that sets up a one-sector read of `lba`:
/// drive/head, a delay, the sector count 1, the three LBA bytes, the read
/// command and a delay.
pub open spec fn command_write(bus: AtaBus, lba: u32, k: int) -> (u16, u8) {
    if k == 0 {
        (bus.drive_head, drive_head_byte(lba))
    } else if k == 1 {
        (IO_DELAY_PORT, 0u8)
    } else if k == 2 {
        (bus.sector_count, 1u8)
    } else if k == 3 {
        (bus.lba_low, lba_low_byte(lba))
    } else if k == 4 {
        (bus.lba_mid, lba_mid_byte(lba))
    } else if k == 5 {
        (bus.lba_high, lba_high_byte(lba))
    } else if k == 6 {
        (bus.command_status, ATA_CMD_READ_PIO)
    } else {
        (IO_DELAY_PORT, 0u8)
    }
}

/// Low byte of a data word: it goes to the even buffer position.
pub open spec fn word_low(w: u16) -> u8 {
    (w & 0xFFu16) as u8
}

/// High byte of a data word: it goes to the odd buffer position.
pub open spec fn word_high(w: u16) -> u8 {
    ((w >> 8u16) & 0xFFu16) as u8
}

/// The drive/head, LBA high, mid and low bytes of a read command carry the
/// low 28 bits of the LBA, and the drive/head byte selects LBA mode on the
/// master drive.
pub proof fn lemma_lba_encoding(lba: u32)
    ensures
        drive_head_byte(lba) & 0xF0u8 == 0xE0u8,
        lba & 0x0FFF_FFFFu32 == ((((drive_head_byte(lba) & 0x0Fu8) as u32) << 24u32) | ((
        lba_high_byte(lba) as u32) << 16u32) | ((lba_mid_byte(lba) as u32) << 8u32) | (lba_low_byte(
            lba,
        ) as u32)),
{
    assert(((0xE0u32 | ((lba >> 24u32) & 0x0Fu32)) as u8) & 0xF0u8 == 0xE0u8) by (bit_vector);
    assert(lba & 0x0FFF_FFFFu32 == (((((0xE0u32 | ((lba >> 24u32) & 0x0Fu32)) as u8) & 0x0Fu8) as u32)
        << 24u32) | (((((lba >> 16u32) & 0xFFu32) as u8) as u32) << 16u32) | (((((lba >> 8u32)
        & 0xFFu32) as u8) as u32) << 8u32) | (((lba & 0xFFu32) as u8) as u32)) by (bit_vector);
}

/// The read command that a read issues once the controller is no longer
/// busy: the drive/head register gets LBA mode on the master drive, then an
/// I/O delay, a sector count of 1, the LBA-low, LBA-mid and LBA-high
/// registers, the read command 0x20 and a last I/O delay. The drive/head,
/// high, mid and low bytes written put back together give the low 28 bits
/// of `lba`.
pub proof fn lemma_read_command_writes(bus: AtaBus, lba: u32, polls: u32, status: u16, input: u16)
    requires
        (status as u8) & ATA_STATUS_BSY == 0,
    ensures
        ({
            let w0 = next_step(bus, lba, ReadPhase::PollingReady { polls }, status).1;
            let w1 = next_step(bus, lba, ReadPhase::Commanding { sent: 0 }, input).1;
            let w2 = next_step(bus, lba, ReadPhase::Commanding { sent: 1 }, input).1;
            let w3 = next_step(bus, lba, ReadPhase::Commanding { sent: 2 }, input).1;
            let w4 = next_step(bus, lba, ReadPhase::Commanding { sent: 3 }, input).1;
            let w5 = next_step(bus, lba, ReadPhase::Commanding { sent: 4 }, input).1;
            let w6 = next_step(bus, lba, ReadPhase::Commanding { sent: 5 }, input).1;
            let w7 = next_step(bus, lba, ReadPhase::Commanding { sent: 6 }, input).1;
            &&& w0 is Write && w0->port == bus.drive_head
            &&& w1 == (AtaAction::Write { port: IO_DELAY_PORT, value: 0 })
            &&& w2 == (AtaAction::Write { port: bus.sector_count, value: 1 })
            &&& w3 is Write && w3->port == bus.lba_low
            &&& w4 is Write && w4->port == bus.lba_mid
            &&& w5 is Write && w5->port == bus.lba_high
            &&& w6 == (AtaAction::Write { port: bus.command_status, value: 0x20 })
            &&& w7 == (AtaAction::Write { port: IO_DELAY_PORT, value: 0 })
            &&& w0->value & 0xF0u8 == 0xE0u8
            &&& w3->value == (lba & 0xFFu32) as u8
            &&& w4->value == ((lba >> 8u32) & 0xFFu32) as u8
            &&& w5->value == ((lba >> 16u32) & 0xFFu32) as u8
            &&& w0->value == (0xE0u32 | ((lba >> 24u32) & 0x0Fu32)) as u8
            &&& lba & 0x0FFF_FFFFu32 == ((((w0->value & 0x0Fu8) as u32) << 24u32) | ((w5->value as u32)
                << 16u32) | ((w4->value as u32) << 8u32) | (w3->value as u32))
            &&& next_step(bus, lba, ReadPhase::Commanding { sent: 7 }, input).0
                == (ReadPhase::PollingData { polls: 1 })
        }),
{
    lemma_lba_encoding(lba);
}

/// How a read answers the status register: 0xFF means no controller; while
/// waiting for the controller, bit 7 (busy) keeps it waiting; while waiting
/// for data, bit 0 (error) ends the read, else bit 3 (data request) starts
/// the transfer; each wait gives up after the 50000th poll, and not before.
pub proof fn lemma_status_handling(bus: AtaBus, lba: u32, polls: u32, status: u16)
    requires
        1 <= polls <= 50000,
    ensures
        next_step(bus, lba, ReadPhase::Probing, status).1 == (if status as u8 == 0xFFu8 {
            AtaAction::Finished { outcome: ReadOutcome::NoController }
        } else {
            AtaAction::ReadStatus
        }),
        (next_step(bus, lba, ReadPhase::PollingReady { polls }, status).1 == AtaAction::Spin) <==> (
        status as u8) & 0x80u8 != 0,
        next_step(bus, lba, ReadPhase::PollingData { polls }, status).1 == (if (status as u8)
            & 0x01u8 != 0 {
            AtaAction::Finished { outcome: ReadOutcome::DataNotReady }
        } else if (status as u8) & 0x08u8 != 0 {
            AtaAction::ReadData
        } else {
            AtaAction::Spin
        }),
        next_step(bus, lba, ReadPhase::SpinningReady { polls }, status).1 == (if polls < 50000 {
            AtaAction::ReadStatus
        } else {
            AtaAction::Finished { outcome: ReadOutcome::BusyTimeout }
        }),
        next_step(bus, lba, ReadPhase::SpinningData { polls }, status).1 == (if polls < 50000 {
            AtaAction::ReadStatus
        } else {
            AtaAction::Finished { outcome: ReadOutcome::DataNotReady }
        }),
{
}

/// The two bytes stored for a data word give the word back, little-endian.
pub proof fn lemma_word_bytes(w: u16)
    ensures
        word_low(w) as int + 256 * (word_high(w) as int) == w as int,
{
    assert(((w & 0xFFu16) as u8) as u16 + 256u16 * (((w >> 8u16) & 0xFFu16) as u8) as u16 == w)
        by (bit_vector);
}


/// How a sector read ended.
#[derive(Clone, Copy, Debug, PartialEq, Eq, Structural)]
pub enum ReadOutcome {
    /// All 256 words were transferred into the buffer.
    Complete,
    /// The status register read 0xFF: no controller on the bus.
    NoController,
    /// The controller stayed busy for the whole polling budget.
    BusyTimeout,
    /// The drive reported an error, or never had data ready.
    DataNotReady,
}

/// What the driver must do next on the hardware.
#[derive(Clone, Copy, Debug, PartialEq, Eq, Structural)]
pub enum AtaAction {
    /// Read the status register and report the byte.
    ReadStatus,
    /// Give the processor a spin-loop hint.
    Spin,
    /// Write `value` to the byte port `port`.
    Write { port: u16, value: u8 },
    /// Read one word from the data register and report it.
    ReadData,
    /// The read is over.
    Finished { outcome: ReadOutcome },
}

/// Where a sector read stands: what the last action asked for.
#[derive(Clone, Copy, Debug, PartialEq, Eq, Structural)]
pub enum ReadPhase {
    /// Nothing done yet.
    Start,
    /// The status was read once to see whether a controller is there.
    Probing,
    /// The status was read for the `polls`-th time while waiting for BSY to clear.
    PollingReady { polls: u32 },
    /// A spin hint followed the `polls`-th busy status.
    SpinningReady { polls: u32 },
    /// The `sent`-th write (from 0) of the read command was issued.
    Commanding { sent: u8 },
    /// The status was read for the `polls`-th time while waiting for data.
    PollingData { polls: u32 },
    /// A spin hint followed the `polls`-th status without data.
    SpinningData { polls: u32 },
    /// Data word number `words` (from 0) was asked for.
    Transferring { words: u16 },
    /// The read ended.
    Done { outcome: ReadOutcome },
}

/// The next phase and action of a read of `lba` on `bus` in `phase`, given
/// what the last action read (a status byte in its low 8 bits, or a data
/// word; ignored after a write or a spin).
pub open spec fn next_step(bus: AtaBus, lba: u32, phase: ReadPhase, input: u16) -> (
    ReadPhase,
    AtaAction,
) {
    let status = input as u8;
    match phase {
        ReadPhase::Start => (ReadPhase::Probing, AtaAction::ReadStatus),
        ReadPhase::Probing => if status == ATA_NO_CONTROLLER {
            (
                ReadPhase::Done { outcome: ReadOutcome::NoController },
                AtaAction::Finished { outcome: ReadOutcome::NoController },
            )
        } else {
            (ReadPhase::PollingReady { polls: 1 }, AtaAction::ReadStatus)
        },
        ReadPhase::PollingReady { polls } => if status & ATA_STATUS_BSY == 0 {
            (
                ReadPhase::Commanding { sent: 0 },
                AtaAction::Write {
                    port: command_write(bus, lba, 0).0,
                    value: command_write(bus, lba, 0).1,
                },
            )
        } else {
            (ReadPhase::SpinningReady { polls }, AtaAction::Spin)
        },
        ReadPhase::SpinningReady { polls } => if polls < POLL_LIMIT {
            (ReadPhase::PollingReady { polls: (polls + 1) as u32 }, AtaAction::ReadStatus)
        } else {
            (
                ReadPhase::Done { outcome: ReadOutcome::BusyTimeout },
                AtaAction::Finished { outcome: ReadOutcome::BusyTimeout },
            )
        },
        ReadPhase::Commanding { sent } => if sent + 1 < COMMAND_WRITES {
            (
                ReadPhase::Commanding { sent: (sent + 1) as u8 },
                AtaAction::Write {
                    port: command_write(bus, lba, sent + 1).0,
                    value: command_write(bus, lba, sent + 1).1,
                },
            )
        } else {
            (ReadPhase::PollingData { polls: 1 }, AtaAction::ReadStatus)
        },
        ReadPhase::PollingData { polls } => if status & ATA_STATUS_ERR != 0 {
            (
                ReadPhase::Done { outcome: ReadOutcome::DataNotReady },
                AtaAction::Finished { outcome: ReadOutcome::DataNotReady },
            )
        } else if status & ATA_STATUS_DRQ != 0 {
            (ReadPhase::Transferring { words: 0 }, AtaAction::ReadData)
        } else {
            (ReadPhase::SpinningData { polls }, AtaAction::Spin)
        },
        ReadPhase::SpinningData { polls } => if polls < POLL_LIMIT {
            (ReadPhase::PollingData { polls: (polls + 1) as u32 }, AtaAction::ReadStatus)
        } else {
            (
                ReadPhase::Done { outcome: ReadOutcome::DataNotReady },
                AtaAction::Finished { outcome: ReadOutcome::DataNotReady },
            )
        },
        ReadPhase::Transferring { words } => if words + 1 < SECTOR_WORDS {
            (ReadPhase::Transferring { words: (words + 1) as u16 }, AtaAction::ReadData)
        } else {
            (
                ReadPhase::Done { outcome: ReadOutcome::Complete },
                AtaAction::Finished { outcome: ReadOutcome::Complete },
            )
        },
        ReadPhase::Done { outcome } => (ReadPhase::Done { outcome }, AtaAction::Finished { outcome }),
    }
}

/// An upper bound on the steps a read still takes from `phase` before it
/// reports `Finished`; every step lowers it until the read is done.
pub open spec fn steps_left(phase: ReadPhase) -> int {
    let data_poll = |n: u32| 259 + 2 * (POLL_LIMIT - n);
    let command = |s: u8| data_poll(1) + 8 - s;
    let ready_poll = |n: u32| command(0) + 2 + 2 * (POLL_LIMIT - n);
    match phase {
        ReadPhase::Start => ready_poll(1) + 2,
        ReadPhase::Probing => ready_poll(1) + 1,
        ReadPhase::PollingReady { polls } => ready_poll(polls),
        ReadPhase::SpinningReady { polls } => ready_poll(polls) - 1,
        ReadPhase::Commanding { sent } => command(sent),
        ReadPhase::PollingData { polls } => data_poll(polls),
        ReadPhase::SpinningData { polls } => data_poll(polls) - 1,
        ReadPhase::Transferring { words } => 256 - words,
        ReadPhase::Done { .. } => 0,
    }
}

/// The counters of a phase are in range.
pub open spec fn phase_in_range(phase: ReadPhase) -> bool {
    match phase {
        ReadPhase::PollingReady { polls } => 1 <= polls <= POLL_LIMIT,
        ReadPhase::SpinningReady { polls } => 1 <= polls <= POLL_LIMIT,
        ReadPhase::Commanding { sent } => sent < COMMAND_WRITES,
        ReadPhase::PollingData { polls } => 1 <= polls <= POLL_LIMIT,
        ReadPhase::SpinningData { polls } => 1 <= polls <= POLL_LIMIT,
        ReadPhase::Transferring { words } => words < SECTOR_WORDS,
        _ => true,
    }
}

/// How many data words a read in `phase` has stored so far.
pub open spec fn words_stored(phase: ReadPhase) -> int {
    match phase {
        ReadPhase::Transferring { words } => words as int,
        ReadPhase::Done { outcome: ReadOutcome::Complete } => 256,
        _ => 0,
    }
}

/// `buffer` holds the `words` little-endian from its start, and the bytes of
/// `initial` after them.
pub open spec fn buffer_holds(buffer: Seq<u8>, initial: Seq<u8>, words: Seq<u16>) -> bool {
    &&& buffer.len() == 512
    &&& initial.len() == 512
    &&& words.len() <= 256
    &&& forall|i: int|
        #![trigger words[i]]
        0 <= i < words.len() ==> buffer[2 * i] == word_low(words[i]) && buffer[2 * i + 1]
            == word_high(words[i])
    &&& forall|j: int| 2 * words.len() <= j < 512 ==> buffer[j] == initial[j]
}

/// A one-sector PIO read in progress: the decisions of the driver, which the
/// caller carries out on the hardware one action at a time.
pub struct SectorRead {
    pub bus: AtaBus,
    pub lba: u32,
    pub phase: ReadPhase,
    pub buffer: [u8; 512],
    /// The buffer as it was handed in.
    pub initial: Ghost<Seq<u8>>,
    /// The data words read so far, in order.
    pub words: Ghost<Seq<u16>>,
}

impl SectorRead {
    /// The invariant of a read in progress.
    pub open spec fn wf(&self) -> bool {
        &&& phase_in_range(self.phase)
        &&& self.words@.len() == words_stored(self.phase)
        &&& buffer_holds(self.buffer@, self.initial@, self.words@)
    }

    /// Starts reading sector `lba` of the master drive on `bus` into `buffer`.
    pub fn start(bus: AtaBus, lba: u32, buffer: [u8; 512]) -> (r: Self)
        ensures
            r.wf(),
            r.bus == bus,
            r.lba == lba,
            r.phase == ReadPhase::Start,
            r.buffer@ == buffer@,
            r.initial@ == buffer@,
            r.words@ == Seq::<u16>::empty(),
            steps_left(r.phase) <= MAX_READ_STEPS,
    {
        SectorRead {
            bus,
            lba,
            phase: ReadPhase::Start,
            buffer,
            initial: Ghost(buffer@),
            words: Ghost(Seq::empty()),
        }
    }

    /// The `k`-th write of the read command.
    fn command_write_at(&self, k: u8) -> (w: (u16, u8))
        requires
            k < COMMAND_WRITES,
        ensures
            w == command_write(self.bus, self.lba, k as int),
    {
        let lba = self.lba;
        if k == 0 {
            (self.bus.drive_head, (0xE0u32 | ((lba >> 24u32) & 0x0Fu32)) as u8)
        } else if k == 1 {
            (IO_DELAY_PORT, 0u8)
        } else if k == 2 {
            (self.bus.sector_count, 1u8)
        } else if k == 3 {
            (self.bus.lba_low, (lba & 0xFFu32) as u8)
        } else if k == 4 {
            (self.bus.lba_mid, ((lba >> 8u32) & 0xFFu32) as u8)
        } else if k == 5 {
            (self.bus.lba_high, ((lba >> 16u32) & 0xFFu32) as u8)
        } else if k == 6 {
            (self.bus.command_status, ATA_CMD_READ_PIO)
        } else {
            (IO_DELAY_PORT, 0u8)
        }
    }

    /// Takes what the last action read (a status byte in the low 8 bits or a
    /// data word; anything after a write or a spin) and returns the next
    /// action. A data word is stored little-endian at its place in the buffer.
    pub fn step(&mut self, input: u16) -> (action: AtaAction)
        requires
            old(self).wf(),
        ensures
            final(self).wf(),
            (final(self).phase, action) == next_step(old(self).bus, old(self).lba, old(self).phase, input),
            final(self).bus == old(self).bus,
            final(self).lba == old(self).lba,
            final(self).initial@ == old(self).initial@,
            old(self).phase matches ReadPhase::Transferring { .. } ==> final(self).words@ == old(
                self,
            ).words@.push(input),
            !(old(self).phase is Transferring) ==> final(self).words@ == old(self).words@,
            !(old(self).phase is Transferring) ==> final(self).buffer@ == old(self).buffer@,
            !(old(self).phase is Done) ==> steps_left(final(self).phase) < steps_left(
                old(self).phase,
            ),
            old(self).phase is Done ==> final(self).phase == old(self).phase,
    {
        let status = input as u8;
        match self.phase {
            ReadPhase::Start => {
                self.phase = ReadPhase::Probing;
                AtaAction::ReadStatus
            },
            ReadPhase::Probing => {
                if status == ATA_NO_CONTROLLER {
                    self.phase = ReadPhase::Done { outcome: ReadOutcome::NoController };
                    AtaAction::Finished { outcome: ReadOutcome::NoController }
                } else {
                    self.phase = ReadPhase::PollingReady { polls: 1 };
                    AtaAction::ReadStatus
                }
            },
            ReadPhase::PollingReady { polls } => {
                if status & ATA_STATUS_BSY == 0 {
                    let (port, value) = self.command_write_at(0);
                    self.phase = ReadPhase::Commanding { sent: 0 };
                    AtaAction::Write { port, value }
                } else {
                    self.phase = ReadPhase::SpinningReady { polls };
                    AtaAction::Spin
                }
            },
            ReadPhase::SpinningReady { polls } => {
                if polls < POLL_LIMIT {
                    self.phase = ReadPhase::PollingReady { polls: polls + 1 };
                    AtaAction::ReadStatus
                } else {
                    self.phase = ReadPhase::Done { outcome: ReadOutcome::BusyTimeout };
                    AtaAction::Finished { outcome: ReadOutcome::BusyTimeout }
                }
            },
            ReadPhase::Commanding { sent } => {
                if sent + 1 < COMMAND_WRITES {
                    let (port, value) = self.command_write_at(sent + 1);
                    self.phase = ReadPhase::Commanding { sent: sent + 1 };
                    AtaAction::Write { port, value }
                } else {
                    self.phase = ReadPhase::PollingData { polls: 1 };
                    AtaAction::ReadStatus
                }
            },
            ReadPhase::PollingData { polls } => {
                if status & ATA_STATUS_ERR != 0 {
                    self.phase = ReadPhase::Done { outcome: ReadOutcome::DataNotReady };
                    AtaAction::Finished { outcome: ReadOutcome::DataNotReady }
                } else if status & ATA_STATUS_DRQ != 0 {
                    self.phase = ReadPhase::Transferring { words: 0 };
                    AtaAction::ReadData
                } else {
                    self.phase = ReadPhase::SpinningData { polls };
                    AtaAction::Spin
                }
            },
            ReadPhase::SpinningData { polls } => {
                if polls < POLL_LIMIT {
                    self.phase = ReadPhase::PollingData { polls: polls + 1 };
                    AtaAction::ReadStatus
                } else {
                    self.phase = ReadPhase::Done { outcome: ReadOutcome::DataNotReady };
                    AtaAction::Finished { outcome: ReadOutcome::DataNotReady }
                }
            },
            ReadPhase::Transferring { words } => {
                let i: usize = 2 * (words as usize);
                let low = (input & 0xFFu16) as u8;
                let high = ((input >> 8u16) & 0xFFu16) as u8;
                let ghost old_buffer = self.buffer@;
                let ghost ws = self.words@;
                self.buffer[i] = low;
                self.buffer[i + 1] = high;
                self.words = Ghost(ws.push(input));
                assert(buffer_holds(self.buffer@, self.initial@, self.words@)) by {
                    assert forall|k: int| 0 <= k < self.words@.len() implies #[trigger] self.buffer@[2 * k]
                        == word_low(self.words@[k]) && self.buffer@[2 * k + 1] == word_high(
                        self.words@[k],
                    ) by {
                        if k < ws.len() {
                            assert(old_buffer[2 * k] == word_low(ws[k]));
                        }
                    }
                }
                if words + 1 < SECTOR_WORDS {
                    self.phase = ReadPhase::Transferring { words: words + 1 };
                    AtaAction::ReadData
                } else {
                    self.phase = ReadPhase::Done { outcome: ReadOutcome::Complete };
                    AtaAction::Finished { outcome: ReadOutcome::Complete }
                }
            },
            ReadPhase::Done { outcome } => AtaAction::Finished { outcome },
        }
    }
}


/// The phase a read reaches from `phase` when the hardware answers its
/// actions with `inputs`, one per step.
pub open spec fn run_read(bus: AtaBus, lba: u32, phase: ReadPhase, inputs: Seq<u16>) -> ReadPhase
    decreases inputs.len(),
{
    if inputs.len() == 0 {
        phase
    } else {
        run_read(bus, lba, next_step(bus, lba, phase, inputs[0]).0, inputs.drop_first())
    }
}

/// The actions a read takes from `phase` when the hardware answers them
/// with `inputs`, one per step.
pub open spec fn run_actions(bus: AtaBus, lba: u32, phase: ReadPhase, inputs: Seq<u16>) -> Seq<AtaAction>
    decreases inputs.len(),
{
    if inputs.len() == 0 {
        Seq::empty()
    } else {
        let (next, action) = next_step(bus, lba, phase, inputs[0]);
        seq![action] + run_actions(bus, lba, next, inputs.drop_first())
    }
}

/// The data words a read stores from `phase` on when the hardware answers
/// its actions with `inputs`: the answers given while it is transferring.
pub open spec fn run_stored_words(bus: AtaBus, lba: u32, phase: ReadPhase, inputs: Seq<u16>) -> Seq<u16>
    decreases inputs.len(),
{
    if inputs.len() == 0 {
        Seq::empty()
    } else {
        let rest = run_stored_words(bus, lba, next_step(bus, lba, phase, inputs[0]).0, inputs.drop_first());
        if phase is Transferring {
            seq![inputs[0]] + rest
        } else {
            rest
        }
    }
}

/// Two reads in progress that started from the same buffer and have stored
/// the same data words hold the same buffer.
pub proof fn lemma_buffer_determined_by_words(a: SectorRead, b: SectorRead)
    requires
        a.wf(),
        b.wf(),
        a.initial@ == b.initial@,
        a.words@ == b.words@,
    ensures
        a.buffer@ == b.buffer@,
{
    assert forall|j: int| 0 <= j < 512 implies a.buffer@[j] == b.buffer@[j] by {
        if j < 2 * a.words@.len() {
            let i = j / 2;
            assert(0 <= i < a.words@.len());
            assert(a.words@[i] == b.words@[i]);
            assert(buffer_holds(a.buffer@, a.initial@, a.words@));
            assert(a.buffer@[2 * i] == word_low(a.words@[i]));
            assert(a.buffer@[2 * i] == b.buffer@[2 * i]);
            assert(a.buffer@[2 * i + 1] == b.buffer@[2 * i + 1]);
            assert(j == 2 * i || j == 2 * i + 1);
        }
    }
    assert(a.buffer@ =~= b.buffer@);
}

/// Bits 28 to 31 of the LBA play no part in a read: a read of `lba` and a
/// read of `lba & 0x0FFF_FFFF` take the same step from any phase.
pub proof fn lemma_step_ignores_lba_upper_bits(bus: AtaBus, lba: u32, phase: ReadPhase, input: u16)
    ensures
        next_step(bus, lba, phase, input) == next_step(bus, lba & 0x0FFF_FFFFu32, phase, input),
{
    let low = lba & 0x0FFF_FFFFu32;
    assert(drive_head_byte(lba) == drive_head_byte(low)) by {
        assert(((0xE0u32 | ((lba >> 24u32) & 0x0Fu32)) as u8) == ((0xE0u32 | (((lba
            & 0x0FFF_FFFFu32) >> 24u32) & 0x0Fu32)) as u8)) by (bit_vector);
    }
    assert(lba_low_byte(lba) == lba_low_byte(low)) by {
        assert(((lba & 0xFFu32) as u8) == (((lba & 0x0FFF_FFFFu32) & 0xFFu32) as u8)) by (bit_vector);
    }
    assert(lba_mid_byte(lba) == lba_mid_byte(low)) by {
        assert((((lba >> 8u32) & 0xFFu32) as u8) == ((((lba & 0x0FFF_FFFFu32) >> 8u32) & 0xFFu32)
            as u8)) by (bit_vector);
    }
    assert(lba_high_byte(lba) == lba_high_byte(low)) by {
        assert((((lba >> 16u32) & 0xFFu32) as u8) == ((((lba & 0x0FFF_FFFFu32) >> 16u32)
            & 0xFFu32) as u8)) by (bit_vector);
    }
    assert forall|k: int| command_write(bus, lba, k) == command_write(bus, low, k) by {}
}

/// Whatever the hardware answers, a read of `lba` and a read of
/// `lba & 0x0FFF_FFFF` make the same port writes and reads in the same
/// order, end in the same phase and store the same data words; with
/// `lemma_buffer_determined_by_words`, reads started from the same buffer
/// end with the same buffer.
pub proof fn lemma_read_ignores_lba_upper_bits(bus: AtaBus, lba: u32, phase: ReadPhase, inputs: Seq<u16>)
    ensures
        run_actions(bus, lba, phase, inputs) == run_actions(bus, lba & 0x0FFF_FFFFu32, phase, inputs),
        run_read(bus, lba, phase, inputs) == run_read(bus, lba & 0x0FFF_FFFFu32, phase, inputs),
        run_stored_words(bus, lba, phase, inputs) == run_stored_words(bus, lba & 0x0FFF_FFFFu32, phase, inputs),
    decreases inputs.len(),
{
    if inputs.len() > 0 {
        lemma_step_ignores_lba_upper_bits(bus, lba, phase, inputs[0]);
        let next = next_step(bus, lba, phase, inputs[0]).0;
        lemma_read_ignores_lba_upper_bits(bus, lba, next, inputs.drop_first());
    }
}

/// One step keeps the counters in range and, until the read is done, lowers
/// the bound on the steps left; a phase with no steps left is done.
pub proof fn lemma_step_progress(bus: AtaBus, lba: u32, phase: ReadPhase, input: u16)
    requires
        phase_in_range(phase),
    ensures
        phase_in_range(next_step(bus, lba, phase, input).0),
        !(phase is Done) ==> 0 <= steps_left(next_step(bus, lba, phase, input).0) < steps_left(phase),
        phase is Done ==> next_step(bus, lba, phase, input).0 == phase,
        steps_left(phase) >= 0,
        steps_left(phase) == 0 <==> phase is Done,
{
}

/// Whatever the hardware answers, steps never leave the counters' ranges,
/// and each step before the end uses up at least one of the steps left.
proof fn lemma_run_progress(bus: AtaBus, lba: u32, phase: ReadPhase, inputs: Seq<u16>)
    requires
        phase_in_range(phase),
    ensures
        phase_in_range(run_read(bus, lba, phase, inputs)),
        steps_left(run_read(bus, lba, phase, inputs)) <= if steps_left(phase) > inputs.len() {
            steps_left(phase) - inputs.len()
        } else {
            0
        },
    decreases inputs.len(),
{
    if inputs.len() > 0 {
        let next = next_step(bus, lba, phase, inputs[0]).0;
        lemma_step_progress(bus, lba, phase, inputs[0]);
        lemma_run_progress(bus, lba, next, inputs.drop_first());
    }
}

/// A sector read always ends: whatever the hardware answers, a read that
/// starts takes at most `MAX_READ_STEPS` steps to reach `Done`, and stays
/// there.
pub proof fn lemma_read_always_finishes(bus: AtaBus, lba: u32, inputs: Seq<u16>)
    requires
        inputs.len() >= MAX_READ_STEPS,
    ensures
        run_read(bus, lba, ReadPhase::Start, inputs) is Done,
{
    lemma_run_progress(bus, lba, ReadPhase::Start, inputs);
    lemma_step_progress(bus, lba, run_read(bus, lba, ReadPhase::Start, inputs), 0);
}

/// A read that ends in anything but `Complete` leaves the buffer exactly as
/// it was handed in.
pub proof fn lemma_failed_read_keeps_buffer(r: SectorRead)
    requires
        r.wf(),
        r.phase is Done,
        r.phase->outcome != ReadOutcome::Complete,
    ensures
        r.buffer@ == r.initial@,
{
    assert(r.buffer@ =~= r.initial@);
}

/// A read that ends `Complete` has read 256 data words, and its buffer holds
/// word `i` little-endian at bytes `2i` and `2i + 1`.
pub proof fn lemma_complete_read_holds_words(r: SectorRead)
    requires
        r.wf(),
        r.phase == (ReadPhase::Done { outcome: ReadOutcome::Complete }),
    ensures
        r.words@.len() == 256,
        forall|i: int|
            #![trigger r.words@[i]]
            0 <= i < 256 ==> r.buffer@[2 * i] as int + 256 * (r.buffer@[2 * i + 1] as int)
                == r.words@[i] as int,
{
    assert forall|i: int| 0 <= i < 256 implies r.buffer@[2 * i] as int + 256 * (r.buffer@[2 * i
        + 1] as int) == #[trigger] r.words@[i] as int by {
        lemma_word_bytes(r.words@[i]);
    }
}

} // verus!
