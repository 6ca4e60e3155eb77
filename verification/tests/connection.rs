use blflash::bootrom::BootRom;
use blflash::connection::{reset_step, reset_to_flash_step, Connection};
use blflash::eflash_loader::EflashLoader;
use blflash::image::BinReader;
use blflash::protocol::{FlashErase, LoadSegmentData, Sha256Read};
use blflash::transport::{Action, Event, Poll};
use blflash::{Error, RomError};

fn show(actions: &[Action]) -> Vec<String> {
    actions.iter().map(|a| format!("{:?}", a)).collect()
}

fn write_of(action: Action) -> Vec<u8> {
    match action {
        Action::Write(bytes) => bytes,
        other => panic!("{:?} is no write", other),
    }
}

#[test]
fn reset_is_rts_low_then_a_pulse_on_dtr() {
    let connection = Connection::new();
    assert_eq!(
        show(&connection.reset()),
        ["SetRts(false)", "Sleep(50)", "SetDtr(true)", "Sleep(50)", "SetDtr(false)", "Sleep(50)"]
    );
    assert_eq!(format!("{:?}", reset_step(4)), "SetDtr(false)");
}

#[test]
fn reset_to_flash_holds_rts_high_during_the_pulse() {
    let connection = Connection::new();
    assert_eq!(
        show(&connection.reset_to_flash()),
        [
            "SetRts(true)",
            "Sleep(50)",
            "SetDtr(true)",
            "Sleep(50)",
            "SetDtr(false)",
            "Sleep(50)",
            "SetRts(false)",
            "Sleep(50)"
        ]
    );
    assert_eq!(format!("{:?}", reset_to_flash_step(6)), "SetRts(false)");
}

#[test]
fn duration_length_goes_by_the_baud_rate() {
    let mut connection = Connection::new();
    assert_eq!(connection.baud_rate(), None);
    // 115200 / 10 / 1000 = 11 bytes per millisecond
    assert_eq!(connection.calc_duration_length(5), 55);
    assert_eq!(connection.calc_duration_length(0), 0);
    assert!(matches!(connection.set_baud(1_000_000), Action::SetBaud(1_000_000)));
    assert_eq!(connection.baud_rate(), Some(1_000_000));
    assert_eq!(connection.calc_duration_length(5), 500);
    assert_eq!(connection.calc_duration_length(1), 100);
    connection.set_baud(2_000_000);
    assert_eq!(connection.calc_duration_length(5), 1000);
    connection.set_baud(9600);
    assert_eq!(connection.calc_duration_length(1_000_000), 0);
    connection.set_baud(19999);
    assert_eq!(connection.calc_duration_length(7), 7);
}

#[test]
fn plain_actions() {
    let connection = Connection::new();
    assert!(matches!(connection.set_timeout(200), Action::SetTimeout(200)));
    assert!(matches!(connection.flush(), Action::Flush));
    assert_eq!(write_of(connection.write_all(&[1, 2, 3])), vec![1, 2, 3]);
}

#[test]
fn command_without_payload() {
    let mut connection = Connection::new();
    let action = connection.command(&FlashErase { start: 0, end: 0x400 }).unwrap();
    assert_eq!(write_of(action), vec![0x30, 0, 8, 0, 0, 0, 0, 0, 0, 4, 0, 0]);
    assert!(!connection.is_idle());
    assert!(matches!(connection.step(Event::Done), Poll::Do(Action::Flush)));
    assert!(matches!(connection.step(Event::Done), Poll::Do(Action::Read(2))));
    match connection.step(Event::Data(b"OK".to_vec())) {
        Poll::Ready(Ok(reply)) => assert!(reply.is_empty()),
        other => panic!("{:?}", other),
    }
    assert!(connection.is_idle());
}

#[test]
fn command_with_payload_reads_exactly_what_is_declared() {
    let mut connection = Connection::new();
    let action = connection.command(&Sha256Read { addr: 0, len: 16 }).unwrap();
    assert_eq!(write_of(action)[..4], [0x3d, 0, 8, 0]);
    connection.step(Event::Done);
    connection.step(Event::Done);
    assert!(matches!(connection.step(Event::Data(b"OK".to_vec())), Poll::Do(Action::Read(2))));
    assert!(matches!(
        connection.step(Event::Data(vec![0x20, 0x00])),
        Poll::Do(Action::Read(32))
    ));
    match connection.step(Event::Data(vec![7; 32])) {
        Poll::Ready(Ok(reply)) => {
            assert_eq!(reply[..2], [0x20, 0x00]);
            assert_eq!(reply[2..], [7; 32]);
        }
        other => panic!("{:?}", other),
    }
    assert!(connection.is_idle());
}

#[test]
fn declared_length_is_little_endian() {
    let mut connection = Connection::new();
    connection.command(&Sha256Read { addr: 0, len: 16 }).unwrap();
    connection.step(Event::Done);
    connection.step(Event::Done);
    connection.step(Event::Data(b"OK".to_vec()));
    assert!(matches!(
        connection.step(Event::Data(vec![0x34, 0x12])),
        Poll::Do(Action::Read(0x1234))
    ));
    // a payload of another length than declared is an error
    assert!(matches!(
        connection.step(Event::Data(vec![0; 0x1233])),
        Poll::Ready(Err(Error::IO))
    ));
    assert!(connection.is_idle());
}

#[test]
fn empty_payload_is_still_read() {
    let mut connection = Connection::new();
    connection.command(&Sha256Read { addr: 0, len: 0 }).unwrap();
    connection.step(Event::Done);
    connection.step(Event::Done);
    connection.step(Event::Data(b"OK".to_vec()));
    assert!(matches!(connection.step(Event::Data(vec![0, 0])), Poll::Do(Action::Read(0))));
    match connection.step(Event::Data(vec![])) {
        Poll::Ready(Ok(reply)) => assert_eq!(reply, vec![0, 0]),
        other => panic!("{:?}", other),
    }
}

#[test]
fn failure_code_is_read_little_endian() {
    let mut connection = Connection::new();
    assert!(matches!(connection.read_response(0), Action::Read(2)));
    assert!(matches!(connection.step(Event::Data(b"FL".to_vec())), Poll::Do(Action::Read(2))));
    assert!(matches!(
        connection.step(Event::Data(vec![0x02, 0x01])),
        Poll::Ready(Err(Error::RomError(RomError::Other(0x0102))))
    ));
    connection.read_response(0);
    connection.step(Event::Data(b"FL".to_vec()));
    assert!(matches!(
        connection.step(Event::Data(vec![0, 0])),
        Poll::Ready(Err(Error::RomError(RomError::Success)))
    ));
}

#[test]
fn unknown_status_is_a_response_error() {
    let mut connection = Connection::new();
    connection.read_response(0);
    assert!(matches!(
        connection.step(Event::Data(vec![0, 0])),
        Poll::Ready(Err(Error::RespError))
    ));
    connection.read_response(0);
    assert!(matches!(
        connection.step(Event::Data(b"OL".to_vec())),
        Poll::Ready(Err(Error::RespError))
    ));
    connection.read_response(0);
    assert!(matches!(
        connection.step(Event::Data(b"FK".to_vec())),
        Poll::Ready(Err(Error::RespError))
    ));
}

#[test]
fn read_response_with_a_length() {
    let mut connection = Connection::new();
    connection.read_response(3);
    assert!(matches!(connection.step(Event::Data(b"OK".to_vec())), Poll::Do(Action::Read(3))));
    match connection.step(Event::Data(vec![1, 2, 3])) {
        Poll::Ready(Ok(reply)) => assert_eq!(reply, vec![1, 2, 3]),
        other => panic!("{:?}", other),
    }
}

#[test]
fn failures_end_the_exchange() {
    let mut connection = Connection::new();
    connection.command(&FlashErase { start: 0, end: 1 }).unwrap();
    assert!(matches!(
        connection.step(Event::Failed(Error::Serial)),
        Poll::Ready(Err(Error::Serial))
    ));
    assert!(connection.is_idle());
    // nothing in flight
    assert!(matches!(connection.step(Event::Done), Poll::Ready(Err(Error::IO))));
    // a status of the wrong length
    connection.read_response(0);
    assert!(matches!(connection.step(Event::Data(vec![0x4f])), Poll::Ready(Err(Error::IO))));
    // an event that answers no read
    connection.read_response(0);
    assert!(matches!(connection.step(Event::Done), Poll::Ready(Err(Error::IO))));
    connection.read_response(0);
    assert!(matches!(connection.step(Event::Timeout(5)), Poll::Ready(Err(Error::IO))));
}

#[test]
fn oversized_command_begins_nothing() {
    let mut connection = Connection::new();
    let command = LoadSegmentData { segment_data: vec![0; 70000] };
    assert!(matches!(connection.command(&command), Err(Error::OverSizedPacket)));
    assert!(connection.is_idle());
}

#[test]
fn boot_rom_draws_from_the_reader() {
    let mut connection = Connection::new();
    let image: Vec<u8> = (0..4300u32).map(|i| (i % 256) as u8).collect();
    let mut reader = BinReader::new(image.clone());
    let frame = write_of(BootRom::load_boot_header(&mut connection, &mut reader).unwrap());
    assert_eq!(frame[..4], [0x11, 0, 176, 0]);
    assert_eq!(frame[4..], image[..176]);
    let (action, sent) = BootRom::load_segment_header(&mut connection, &mut reader).unwrap();
    let frame = write_of(action);
    assert_eq!(frame[..4], [0x17, 0, 16, 0]);
    assert_eq!(frame[4..], image[176..192]);
    assert_eq!(sent, image[176..192]);
    let (action, size) = BootRom::load_segment_data(&mut connection, &mut reader);
    assert_eq!(size, 4000);
    assert_eq!(write_of(action.unwrap())[4..], image[192..4192]);
    let (action, size) = BootRom::load_segment_data(&mut connection, &mut reader);
    assert_eq!(size, 108);
    assert_eq!(write_of(action.unwrap())[4..], image[4192..]);
    let (action, size) = BootRom::load_segment_data(&mut connection, &mut reader);
    assert_eq!(size, 0);
    assert!(action.is_none());
}

#[test]
fn boot_rom_needs_whole_headers() {
    let mut connection = Connection::new();
    let mut reader = BinReader::new(vec![0; 175]);
    assert!(matches!(
        BootRom::load_boot_header(&mut connection, &mut reader),
        Err(Error::IO)
    ));
    assert!(connection.is_idle());
    let mut reader = BinReader::new(vec![0; 15]);
    assert!(matches!(
        BootRom::load_segment_header(&mut connection, &mut reader),
        Err(Error::IO)
    ));
}

#[test]
fn boot_rom_commands() {
    let mut connection = Connection::new();
    assert_eq!(write_of(BootRom::run_image(&mut connection)), vec![0x1a, 0, 0, 0]);
    assert_eq!(write_of(BootRom::check_image(&mut connection)), vec![0x19, 0, 0, 0]);
    assert_eq!(write_of(BootRom::get_boot_info(&mut connection)), vec![0x10, 0, 0, 0]);
    assert_eq!(BootRom::segment_header_echoed(&[1, 2], &[2, 0, 1, 2]), Ok(true));
    assert_eq!(BootRom::segment_header_echoed(&[1, 2], &[2, 0, 1, 3]), Ok(false));
    assert_eq!(BootRom::segment_header_echoed(&[1, 2], &[1, 0, 1]), Ok(false));
    assert_eq!(BootRom::segment_header_echoed(&[1, 2], &[3, 0, 1]), Err(Error::ParseError));
}

#[test]
fn flash_loader_commands() {
    let mut connection = Connection::new();
    assert_eq!(
        write_of(EflashLoader::flash_erase(&mut connection, 0x10000, 0x10800)),
        vec![0x30, 0, 8, 0, 0, 0, 1, 0, 0, 8, 1, 0]
    );
    assert_eq!(
        write_of(EflashLoader::sha256_read(&mut connection, 0x10000, 2048)),
        vec![0x3d, 0, 8, 0, 0, 0, 1, 0, 0, 8, 0, 0]
    );
    assert_eq!(
        write_of(EflashLoader::flash_read(&mut connection, 4096, 4096)),
        vec![0x32, 0, 8, 0, 0, 0x10, 0, 0, 0, 0x10, 0, 0]
    );
    let mut reader = BinReader::new(vec![9, 8, 7]);
    let (action, size) = EflashLoader::flash_program(&mut connection, 0x400, &mut reader);
    assert_eq!(size, 3);
    assert_eq!(write_of(action.unwrap()), vec![0x31, 0, 7, 0, 0, 4, 0, 0, 9, 8, 7]);
    let (action, size) = EflashLoader::flash_program(&mut connection, 0x403, &mut reader);
    assert_eq!((action.is_none(), size), (true, 0));
    let mut reply = vec![0x20, 0];
    reply.extend(0..32u8);
    assert_eq!(
        EflashLoader::sha256_digest(&reply).unwrap().to_vec(),
        (0..32u8).collect::<Vec<u8>>()
    );
    assert!(matches!(EflashLoader::sha256_digest(&[0x20, 0, 1]), Err(Error::ParseError)));
    assert_eq!(EflashLoader::flash_data(&[2, 0, 5, 6]), Ok(vec![5, 6]));
    assert_eq!(EflashLoader::flash_data(&[3, 0, 5, 6]), Err(Error::ParseError));
}

#[test]
fn reader_hands_out_pieces() {
    let mut reader = BinReader::new((0..10u8).collect());
    assert_eq!(reader.len(), 10);
    assert_eq!(reader.read(4), vec![0, 1, 2, 3]);
    assert_eq!(reader.read_exact(3), Ok(vec![4, 5, 6]));
    assert_eq!(reader.len(), 3);
    assert_eq!(reader.read(0), Vec::<u8>::new());
    assert_eq!(reader.read(100), vec![7, 8, 9]);
    assert_eq!(reader.read(100), Vec::<u8>::new());
    let mut reader = BinReader::new(vec![1, 2]);
    assert_eq!(reader.read_exact(3), Err(Error::IO));
    assert_eq!(reader.len(), 0);
    assert_eq!(reader.read_exact(0), Ok(vec![]));
}
