use blflash::chip::Bl602;
use blflash::elf::RomSegment;
use blflash::flasher::{Flasher, Notice, Step};
use blflash::transport::{Action, Event, Poll};
use blflash::Error;
use sha2::{Digest, Sha256};
use std::collections::VecDeque;

/// A BL602 as seen through its serial port: boot ROM, stub and flash.
struct Device {
    flash: Vec<u8>,
    tx: VecDeque<u8>,
    /// Every action that was performed, in order.
    actions: Vec<String>,
    /// Every command that was received: identifier and body.
    commands: Vec<(u8, Vec<u8>)>,
    /// What a dump has written out.
    output: Vec<u8>,
    timeout: u64,
    baud: usize,
    /// Whether the device answers a handshake burst.
    answers: bool,
    /// Whether every read gives zeros.
    zeros: bool,
    /// Whether the stub corrupts what it programs.
    corrupts: bool,
    bursts: usize,
}

impl Device {
    fn new() -> Device {
        Device {
            flash: vec![0xFF; 0x20_0000],
            tx: VecDeque::new(),
            actions: Vec::new(),
            commands: Vec::new(),
            output: Vec::new(),
            timeout: 1000,
            baud: 0,
            answers: true,
            zeros: false,
            corrupts: false,
            bursts: 0,
        }
    }

    fn ok(&mut self) {
        self.tx.extend(b"OK");
    }

    fn ok_with(&mut self, payload: &[u8]) {
        self.ok();
        self.tx.extend((payload.len() as u16).to_le_bytes());
        self.tx.extend(payload);
    }

    fn word(body: &[u8], at: usize) -> usize {
        u32::from_le_bytes([body[at], body[at + 1], body[at + 2], body[at + 3]]) as usize
    }

    fn receive(&mut self, bytes: &[u8]) {
        if !bytes.is_empty() && bytes.iter().all(|b| *b == 0x55) {
            self.bursts += 1;
            if self.answers {
                self.ok();
            }
            return;
        }
        assert!(bytes.len() >= 4);
        let id = bytes[0];
        assert_eq!(bytes[1], 0);
        let len = u16::from_le_bytes([bytes[2], bytes[3]]) as usize;
        let body = bytes[4..].to_vec();
        assert_eq!(len, body.len());
        self.commands.push((id, body.clone()));
        match id {
            0x10 => {
                let mut info = vec![1, 0, 0, 0];
                info.extend(0..16u8);
                self.ok_with(&info);
            }
            0x11 | 0x18 | 0x19 | 0x1a => self.ok(),
            0x17 => self.ok_with(&body),
            0x30 => {
                let (start, end) = (Self::word(&body, 0), Self::word(&body, 4));
                for b in &mut self.flash[start..end] {
                    *b = 0xFF;
                }
                self.ok();
            }
            0x31 => {
                let addr = Self::word(&body, 0);
                let data = &body[4..];
                self.flash[addr..addr + data.len()].copy_from_slice(data);
                if self.corrupts {
                    self.flash[addr] ^= 1;
                }
                self.ok();
            }
            0x32 => {
                let (addr, size) = (Self::word(&body, 0), Self::word(&body, 4));
                let data = self.flash[addr..addr + size].to_vec();
                self.ok_with(&data);
            }
            0x3d => {
                let (addr, len) = (Self::word(&body, 0), Self::word(&body, 4));
                let digest = Sha256::digest(&self.flash[addr..addr + len]);
                self.ok_with(&digest);
            }
            _ => {
                self.tx.extend(b"FL");
                self.tx.extend([0x04, 0x01]);
            }
        }
    }

    fn perform(&mut self, action: Action) -> Event {
        match action {
            Action::Write(bytes) => {
                self.actions.push(format!("write {}", bytes.len()));
                self.receive(&bytes);
                Event::Done
            }
            Action::Flush => {
                self.actions.push("flush".to_string());
                Event::Done
            }
            Action::Read(n) => {
                self.actions.push(format!("read {}", n));
                if self.zeros {
                    return Event::Data(vec![0; n]);
                }
                if self.tx.len() < n {
                    return Event::Failed(Error::IO);
                }
                Event::Data(self.tx.drain(..n).collect())
            }
            Action::SetRts(level) => {
                self.actions.push(format!("rts {}", level));
                Event::Done
            }
            Action::SetDtr(level) => {
                self.actions.push(format!("dtr {}", level));
                Event::Done
            }
            Action::Sleep(ms) => {
                self.actions.push(format!("sleep {}", ms));
                Event::Done
            }
            Action::SetBaud(speed) => {
                self.actions.push(format!("baud {}", speed));
                self.baud = speed;
                Event::Done
            }
            Action::SetTimeout(ms) => {
                self.actions.push(format!("timeout {}", ms));
                self.timeout = ms;
                Event::Done
            }
            Action::GetTimeout => Event::Timeout(self.timeout),
            Action::Output(bytes) => {
                self.output.extend(bytes);
                Event::Done
            }
        }
    }

    fn run(&mut self, flasher: &mut Flasher, first: Step) -> Result<(), Error> {
        let mut step = first;
        loop {
            match step {
                Poll::Do(action) => {
                    let event = self.perform(action);
                    step = flasher.step(event);
                }
                Poll::Ready(result) => return result,
            }
        }
    }

    fn count(&self, id: u8) -> usize {
        self.commands.iter().filter(|c| c.0 == id).count()
    }

    fn erased(&self) -> Vec<(usize, usize)> {
        self.commands
            .iter()
            .filter(|c| c.0 == 0x30)
            .map(|c| (Self::word(&c.1, 0), Self::word(&c.1, 4)))
            .collect()
    }
}

fn loader() -> Vec<u8> {
    (0..9000u32).map(|i| (i % 251) as u8).collect()
}

fn chip() -> Bl602 {
    Bl602::new(loader(), vec![0xB2; 100])
}

fn connected(device: &mut Device) -> Flasher {
    let (mut flasher, first) = Flasher::connect(&chip(), 115200, 1_000_000);
    assert_eq!(device.run(&mut flasher, first), Ok(()));
    flasher
}

fn data_a() -> Vec<u8> {
    (0..1024u32).map(|i| (i * 7 % 256) as u8).collect()
}

fn data_b() -> Vec<u8> {
    (0..2048u32).map(|i| (i * 13 % 256) as u8).collect()
}

fn two_segments() -> Vec<RomSegment> {
    vec![RomSegment::from_vec(0x0, data_a()), RomSegment::from_vec(0x10000, data_b())]
}

#[test]
fn connect_resets_handshakes_and_asks_for_boot_info() {
    let mut device = Device::new();
    let flasher = connected(&mut device);
    assert!(flasher.is_idle());
    assert_eq!(flasher.boot_info().bootrom_version, 1);
    assert_eq!(flasher.boot_info().len, 20);
    assert_eq!(flasher.boot_info().otp_info.to_vec(), (0..16u8).collect::<Vec<u8>>());
    let expected = [
        "baud 115200",
        "rts true",
        "sleep 50",
        "dtr true",
        "sleep 50",
        "dtr false",
        "sleep 50",
        "rts false",
        "sleep 50",
        "flush",
        "timeout 200",
        "write 55",
        "flush",
        "sleep 200",
        "read 2",
        "timeout 1000",
        "timeout 10000",
        "write 4",
        "flush",
        "read 2",
        "read 2",
        "read 20",
    ];
    assert_eq!(device.actions, expected);
    assert_eq!(device.commands, vec![(0x10, vec![])]);
    assert_eq!(device.timeout, 10_000);
}

#[test]
fn handshake_failure_gives_connection_failed_after_ten_attempts() {
    let mut device = Device::new();
    device.zeros = true;
    device.answers = false;
    let (mut flasher, first) = Flasher::connect(&chip(), 115200, 1_000_000);
    assert_eq!(device.run(&mut flasher, first), Err(Error::ConnectionFailed));
    assert_eq!(device.bursts, 10);
    assert_eq!(device.actions.iter().filter(|a| *a == "read 2").count(), 50);
    assert_eq!(device.actions.iter().filter(|a| *a == "timeout 200").count(), 10);
    assert_eq!(device.actions.iter().filter(|a| *a == "timeout 1000").count(), 10);
    assert!(device.commands.is_empty());
    assert!(flasher.is_idle());
}

#[test]
fn silent_device_gives_connection_failed() {
    let mut device = Device::new();
    device.answers = false;
    let (mut flasher, first) = Flasher::connect(&chip(), 115200, 1_000_000);
    assert_eq!(device.run(&mut flasher, first), Err(Error::ConnectionFailed));
    assert_eq!(device.bursts, 10);
}

#[test]
fn serial_failure_during_reset_ends_connect() {
    let (mut flasher, first) = Flasher::connect(&chip(), 115200, 1_000_000);
    assert!(matches!(first, Poll::Do(Action::SetBaud(115200))));
    let step = flasher.step(Event::Done);
    assert!(matches!(step, Poll::Do(Action::SetRts(true))));
    let step = flasher.step(Event::Failed(Error::Serial));
    assert!(matches!(step, Poll::Ready(Err(Error::Serial))));
    assert!(flasher.is_idle());
}

#[test]
fn event_that_answers_nothing_is_an_io_error() {
    let (mut flasher, _first) = Flasher::connect(&chip(), 115200, 1_000_000);
    let step = flasher.step(Event::Data(vec![1, 2]));
    assert!(matches!(step, Poll::Ready(Err(Error::IO))));
    let step = flasher.step(Event::Done);
    assert!(matches!(step, Poll::Ready(Err(Error::IO))));
}

#[test]
fn elf_flash_default_layout() {
    let mut device = Device::new();
    let mut flasher = connected(&mut device);
    device.commands.clear();
    let first = flasher.load_segments(false, two_segments());
    assert_eq!(device.run(&mut flasher, first), Ok(()));
    // the stub goes first: boot header, segment header, data, check, run
    let ids: Vec<u8> = device.commands.iter().map(|c| c.0).collect();
    assert_eq!(
        ids,
        vec![
            0x11, 0x17, 0x18, 0x18, 0x18, 0x19, 0x1a, // stub
            0x3d, 0x30, 0x31, 0x3d, // segment A
            0x3d, 0x30, 0x31, 0x3d, // segment B
        ]
    );
    assert_eq!(device.commands[0].1, loader()[..176].to_vec());
    assert_eq!(device.commands[1].1, loader()[176..192].to_vec());
    assert_eq!(device.commands[2].1, loader()[192..4192].to_vec());
    assert_eq!(device.commands[3].1, loader()[4192..8192].to_vec());
    assert_eq!(device.commands[4].1, loader()[8192..].to_vec());
    assert_eq!(device.erased(), vec![(0x0, 0x400), (0x10000, 0x10800)]);
    assert_eq!(device.flash[..0x400].to_vec(), data_a());
    assert_eq!(device.flash[0x10000..0x10800].to_vec(), data_b());
    assert_eq!(device.flash[0x400], 0xFF);
    assert_eq!(device.baud, 1_000_000);
    assert!(flasher.take_notices().is_empty());
    assert!(device.actions.contains(&"sleep 500".to_string()));
}

#[test]
fn skip_by_hash() {
    let mut device = Device::new();
    device.flash[..0x400].copy_from_slice(&data_a());
    let mut flasher = connected(&mut device);
    device.commands.clear();
    let first = flasher.load_segments(false, two_segments());
    assert_eq!(device.run(&mut flasher, first), Ok(()));
    assert_eq!(device.erased(), vec![(0x10000, 0x10800)]);
    assert_eq!(device.count(0x31), 1);
    assert_eq!(device.commands.iter().find(|c| c.0 == 0x31).unwrap().1[..4], [0, 0, 1, 0]);
    assert_eq!(flasher.take_notices(), vec![Notice::Skipped { addr: 0, size: 1024 }]);
    assert_eq!(device.flash[0x10000..0x10800].to_vec(), data_b());
}

#[test]
fn force_overwrite() {
    let mut device = Device::new();
    device.flash[..0x400].copy_from_slice(&data_a());
    let mut flasher = connected(&mut device);
    device.commands.clear();
    let first = flasher.load_segments(true, two_segments());
    assert_eq!(device.run(&mut flasher, first), Ok(()));
    assert_eq!(device.erased(), vec![(0x0, 0x400), (0x10000, 0x10800)]);
    assert_eq!(device.count(0x31), 2);
    // with force the hash is read only after each write
    assert_eq!(device.count(0x3d), 2);
    assert!(flasher.take_notices().is_empty());
}

#[test]
fn second_run_writes_nothing_and_check_finds_no_mismatch() {
    let mut device = Device::new();
    let mut flasher = connected(&mut device);
    let first = flasher.load_segments(false, two_segments());
    assert_eq!(device.run(&mut flasher, first), Ok(()));
    flasher.take_notices();
    device.commands.clear();
    let first = flasher.load_segments(false, two_segments());
    assert_eq!(device.run(&mut flasher, first), Ok(()));
    assert_eq!(device.count(0x30), 0);
    assert_eq!(device.count(0x31), 0);
    assert_eq!(
        flasher.take_notices(),
        vec![
            Notice::Skipped { addr: 0, size: 1024 },
            Notice::Skipped { addr: 0x10000, size: 2048 }
        ]
    );
    let first = flasher.check_segments(two_segments());
    assert_eq!(device.run(&mut flasher, first), Ok(()));
    assert_eq!(
        flasher.take_notices(),
        vec![Notice::HashMatch { addr: 0 }, Notice::HashMatch { addr: 0x10000 }]
    );
}

#[test]
fn check_reports_mismatch_and_writes_nothing() {
    let mut device = Device::new();
    device.flash[..0x400].copy_from_slice(&data_a());
    let mut flasher = connected(&mut device);
    device.commands.clear();
    let first = flasher.check_segments(two_segments());
    assert_eq!(device.run(&mut flasher, first), Ok(()));
    assert_eq!(device.count(0x30), 0);
    assert_eq!(device.count(0x31), 0);
    assert_eq!(device.count(0x3d), 2);
    assert_eq!(
        flasher.take_notices(),
        vec![Notice::HashMatch { addr: 0 }, Notice::HashMismatch { addr: 0x10000 }]
    );
}

#[test]
fn mismatch_after_write_is_noted_not_raised() {
    let mut device = Device::new();
    device.corrupts = true;
    let mut flasher = connected(&mut device);
    let first = flasher.load_segments(false, two_segments());
    assert_eq!(device.run(&mut flasher, first), Ok(()));
    assert_eq!(
        flasher.take_notices(),
        vec![Notice::HashMismatch { addr: 0 }, Notice::HashMismatch { addr: 0x10000 }]
    );
}

#[test]
fn large_segment_is_programmed_in_chunks_of_4000() {
    let mut device = Device::new();
    let mut flasher = connected(&mut device);
    device.commands.clear();
    let data: Vec<u8> = (0..9001u32).map(|i| (i % 253) as u8).collect();
    let first = flasher.load_segments(false, vec![RomSegment::from_vec(0x2000, data.clone())]);
    assert_eq!(device.run(&mut flasher, first), Ok(()));
    let programs: Vec<(usize, usize)> = device
        .commands
        .iter()
        .filter(|c| c.0 == 0x31)
        .map(|c| (Device::word(&c.1, 0), c.1.len() - 4))
        .collect();
    assert_eq!(programs, vec![(0x2000, 4000), (0x2000 + 4000, 4000), (0x2000 + 8000, 1001)]);
    assert_eq!(device.erased(), vec![(0x2000, 0x2000 + 9001)]);
    assert_eq!(device.flash[0x2000..0x2000 + 9001].to_vec(), data);
}

#[test]
fn dump_reads_blocks_of_4096() {
    let mut device = Device::new();
    for (i, b) in device.flash.iter_mut().enumerate() {
        *b = (i % 256) as u8;
    }
    let mut flasher = connected(&mut device);
    device.commands.clear();
    let first = flasher.dump_flash(0, 0x2000);
    assert_eq!(device.run(&mut flasher, first), Ok(()));
    assert_eq!(device.output.len(), 8192);
    assert!(device.output.iter().enumerate().all(|(i, b)| *b == (i % 256) as u8));
    let reads: Vec<(usize, usize)> = device
        .commands
        .iter()
        .filter(|c| c.0 == 0x32)
        .map(|c| (Device::word(&c.1, 0), Device::word(&c.1, 4)))
        .collect();
    assert_eq!(reads, vec![(0, 4096), (4096, 4096)]);
}

#[test]
fn dump_of_a_ragged_range() {
    let mut device = Device::new();
    for (i, b) in device.flash.iter_mut().enumerate() {
        *b = (i % 256) as u8;
    }
    let mut flasher = connected(&mut device);
    device.commands.clear();
    let first = flasher.dump_flash(0x10, 0x1111);
    assert_eq!(device.run(&mut flasher, first), Ok(()));
    assert_eq!(device.output, device.flash[0x10..0x1111].to_vec());
    let reads: Vec<(usize, usize)> = device
        .commands
        .iter()
        .filter(|c| c.0 == 0x32)
        .map(|c| (Device::word(&c.1, 0), Device::word(&c.1, 4)))
        .collect();
    assert_eq!(reads, vec![(0x10, 4096), (0x1010, 0x101)]);
}

#[test]
fn dump_of_an_empty_range_reads_nothing() {
    let mut device = Device::new();
    let mut flasher = connected(&mut device);
    device.commands.clear();
    let first = flasher.dump_flash(0x100, 0x100);
    assert_eq!(device.run(&mut flasher, first), Ok(()));
    assert_eq!(device.count(0x32), 0);
    assert!(device.output.is_empty());
}

#[test]
fn reset_sequence_is_performed_in_order() {
    let mut device = Device::new();
    let mut flasher = connected(&mut device);
    device.actions.clear();
    let first = flasher.reset();
    assert_eq!(device.run(&mut flasher, first), Ok(()));
    assert_eq!(
        device.actions,
        ["rts false", "sleep 50", "dtr true", "sleep 50", "dtr false", "sleep 50"]
    );
}

#[test]
fn stub_that_does_not_answer_gives_timeout() {
    let mut device = Device::new();
    let mut flasher = connected(&mut device);
    device.answers = false;
    device.actions.clear();
    let first = flasher.load_eflash_loader();
    assert_eq!(device.run(&mut flasher, first), Err(Error::Timeout));
    assert_eq!(device.bursts, 2);
    // five reads, then the timeout is set back
    let tail: Vec<&str> = device.actions.iter().rev().take(7).map(|s| s.as_str()).collect();
    assert_eq!(
        tail,
        ["timeout 10000", "read 2", "read 2", "read 2", "read 2", "read 2", "sleep 200"]
    );
}

#[test]
fn load_eflash_loader_alone() {
    let mut device = Device::new();
    let mut flasher = connected(&mut device);
    device.commands.clear();
    let first = flasher.load_eflash_loader();
    assert_eq!(device.run(&mut flasher, first), Ok(()));
    let ids: Vec<u8> = device.commands.iter().map(|c| c.0).collect();
    assert_eq!(ids, vec![0x11, 0x17, 0x18, 0x18, 0x18, 0x19, 0x1a]);
    // at 1 Mbit/s the burst of 5 ms is 500 bytes
    assert!(device.actions.contains(&"write 500".to_string()));
}

#[test]
fn stub_shorter_than_its_headers_is_an_io_error() {
    let mut device = Device::new();
    let short = Bl602::new(vec![0; 180], vec![]);
    let (mut flasher, first) = Flasher::connect(&short, 115200, 1_000_000);
    assert_eq!(device.run(&mut flasher, first), Ok(()));
    let first = flasher.load_eflash_loader();
    assert_eq!(device.run(&mut flasher, first), Err(Error::IO));
    let tiny = Bl602::new(vec![0; 10], vec![]);
    let (mut flasher, first) = Flasher::connect(&tiny, 115200, 1_000_000);
    assert_eq!(device.run(&mut flasher, first), Ok(()));
    let first = flasher.load_eflash_loader();
    assert!(matches!(first, Poll::Ready(Err(Error::IO))));
}

#[test]
fn rom_error_ends_the_operation() {
    let mut device = Device::new();
    let mut flasher = connected(&mut device);
    let first = flasher.load_eflash_loader();
    // perform by hand up to the first command, then answer "FL" 0x0104
    let Poll::Do(Action::Write(frame)) = first else { panic!("no frame") };
    assert_eq!(frame[0], 0x11);
    let step = flasher.step(Event::Done);
    assert!(matches!(step, Poll::Do(Action::Flush)));
    let step = flasher.step(Event::Done);
    assert!(matches!(step, Poll::Do(Action::Read(2))));
    let step = flasher.step(Event::Data(b"FL".to_vec()));
    assert!(matches!(step, Poll::Do(Action::Read(2))));
    let step = flasher.step(Event::Data(vec![0x04, 0x01]));
    assert!(matches!(
        step,
        Poll::Ready(Err(Error::RomError(blflash::RomError::Other(0x0104))))
    ));
    assert!(flasher.is_idle());
}

#[test]
fn segment_beyond_the_flash_offsets_is_refused() {
    let mut device = Device::new();
    let mut flasher = connected(&mut device);
    let first = flasher.load_segments(false, vec![RomSegment::from_vec(0xFFFF_FFFF, vec![1, 2])]);
    assert!(matches!(first, Poll::Ready(Err(Error::OverSizedPacket))));
    let first = flasher.check_segments(vec![RomSegment::from_vec(0xFFFF_FFFF, vec![1, 2])]);
    assert!(matches!(first, Poll::Ready(Err(Error::OverSizedPacket))));
}

#[test]
fn into_inner_keeps_the_baud_rate() {
    let mut device = Device::new();
    let mut flasher = connected(&mut device);
    let first = flasher.load_eflash_loader();
    assert_eq!(device.run(&mut flasher, first), Ok(()));
    let connection = flasher.into_inner();
    assert_eq!(connection.baud_rate(), Some(1_000_000));
    assert!(connection.is_idle());
}
