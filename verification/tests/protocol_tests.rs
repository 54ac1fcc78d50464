use rfm69_rs::mock::{BusRecord, MockDelay, MockPin, ScriptBus};
use rfm69_rs::read_write::Pause;
use rfm69_rs::registers::Register;
use rfm69_rs::rfm69::{Rfm69, Rfm69Error, Rfm69Mode};

fn new_rfm() -> Rfm69<ScriptBus, MockPin, MockPin, MockDelay> {
    Rfm69::new(ScriptBus::new(), MockPin::new(), MockPin::new(), MockDelay::new())
}

fn write_record(reg: Register, data: &[u8]) -> BusRecord {
    BusRecord::Write {
        opcode: reg.write(),
        data: data.to_vec(),
    }
}

fn read_record(reg: Register, data: &[u8]) -> BusRecord {
    BusRecord::Read {
        opcode: reg.read(),
        data: data.to_vec(),
    }
}

/// What a sender put on the bus, a peer's receiver reconstructs byte for
/// byte: the frame round trip, driven through two driver instances.
#[test]
fn test_frame_round_trip_between_two_drivers() {
    let payload: Vec<u8> = (1..=60).collect();

    let mut sender = new_rfm();
    sender.spi.script = vec![
        vec![0xC4],
        vec![0x80],
        vec![0x08],
        vec![0xC0],
        vec![0x80],
    ];
    sender.send(&payload).unwrap();

    // the first transaction is the FIFO burst holding the whole frame
    let frame = match &sender.spi.log[0] {
        BusRecord::Write { opcode, data } => {
            assert_eq!(*opcode, Register::Fifo.write());
            data.clone()
        }
        BusRecord::Read { .. } => panic!("send must start with a write"),
    };
    assert_eq!(frame.len(), payload.len() + 5);
    assert_eq!(frame[0], payload.len() as u8 + 4);
    assert_eq!(&frame[1..5], &[0xFF, 0xFF, 0x00, 0x00]);

    // a peer whose FIFO serves that frame: the length byte, the header,
    // then the payload
    let mut receiver = new_rfm();
    receiver.spi.script = vec![
        vec![frame[0]],
        frame[1..5].to_vec(),
        frame[5..].to_vec(),
    ];
    let mut buffer = vec![0u8; 65];
    let n = receiver.receive(&mut buffer).unwrap();

    assert_eq!(n, payload.len());
    assert_eq!(&buffer[..n], &payload[..]);
}

#[test]
fn test_set_mode_same_mode_is_a_no_op() {
    let mut rfm = new_rfm();
    rfm.current_mode = Rfm69Mode::Rx;

    rfm.set_mode(Rfm69Mode::Rx).unwrap();

    assert!(rfm.spi.log.is_empty());
    assert!(rfm.delay.log.is_empty());
    assert_eq!(rfm.current_mode, Rfm69Mode::Rx);
}

#[test]
fn test_set_mode_low_power_skips_boost_registers() {
    let mut rfm = new_rfm();
    // 17 dBm is below the boost threshold
    rfm.tx_power = 17;
    rfm.spi.script = vec![vec![0x04], vec![0x80]];

    rfm.set_mode(Rfm69Mode::Tx).unwrap();

    assert_eq!(
        rfm.spi.log,
        vec![
            read_record(Register::OpMode, &[0x04]),
            write_record(Register::OpMode, &[0x0C]),
            read_record(Register::IrqFlags1, &[0x80]),
        ]
    );
}

#[test]
fn test_set_mode_times_out_when_never_ready() {
    let mut rfm = new_rfm();
    let mut script = vec![vec![0x04u8]];
    for _ in 0..10001 {
        script.push(vec![0x00]);
    }
    rfm.spi.script = script;

    assert_eq!(rfm.set_mode(Rfm69Mode::Rx), Err(Rfm69Error::Timeout));
    assert_eq!(rfm.current_mode, Rfm69Mode::Standby);
}

#[test]
fn test_set_mode_read_failure() {
    let mut rfm = new_rfm();

    // nothing scripted: the mode-control read fails
    assert_eq!(rfm.set_mode(Rfm69Mode::Rx), Err(Rfm69Error::SpiReadError));
    assert_eq!(rfm.current_mode, Rfm69Mode::Standby);
}

#[test]
fn test_set_tx_power_write_failure_keeps_cache() {
    let mut rfm = new_rfm();
    rfm.spi.fail_writes = true;

    assert_eq!(rfm.set_tx_power(-2), Err(Rfm69Error::SpiWriteError));
    assert_eq!(rfm.tx_power, 13);
    assert!(rfm.spi.log.is_empty());
}

#[test]
fn test_reset_failure() {
    let mut rfm = new_rfm();
    rfm.reset_pin.fail = true;

    assert_eq!(rfm.reset(), Err(Rfm69Error::ResetError));
    assert!(rfm.reset_pin.log.is_empty());
}

#[test]
fn test_read_revision_failure() {
    let mut rfm = new_rfm();

    assert_eq!(rfm.read_revision(), Err(Rfm69Error::SpiReadError));
}

#[test]
fn test_receive_message_longer_than_buffer() {
    let mut rfm = new_rfm();
    rfm.spi.script = vec![vec![70]];
    let mut buffer = vec![0u8; 65];

    assert_eq!(
        rfm.receive(&mut buffer),
        Err(Rfm69Error::MessageTooLarge)
    );
    assert_eq!(buffer, vec![0u8; 65]);
}

#[test]
fn test_receive_malformed_length() {
    let mut rfm = new_rfm();
    // a length under four cannot even cover the frame header
    rfm.spi.script = vec![vec![2]];
    let mut buffer = vec![0u8; 65];

    assert_eq!(
        rfm.receive(&mut buffer),
        Err(Rfm69Error::MessageTooLarge)
    );
}

#[test]
fn test_wait_for_message_polls_until_available() {
    let mut rfm = new_rfm();
    rfm.current_mode = Rfm69Mode::Rx;
    rfm.spi.script = vec![vec![0x00], vec![0x00], vec![0x04]];

    rfm.wait_for_message().unwrap();

    assert_eq!(
        rfm.spi.log,
        vec![
            read_record(Register::IrqFlags2, &[0x00]),
            read_record(Register::IrqFlags2, &[0x00]),
            read_record(Register::IrqFlags2, &[0x04]),
        ]
    );
    assert_eq!(rfm.delay.log, vec![Pause::Millis(1000), Pause::Millis(1000)]);
}

#[test]
fn test_wait_for_message_needs_receive_mode() {
    let mut rfm = new_rfm();
    rfm.current_mode = Rfm69Mode::Standby;

    assert_eq!(rfm.wait_for_message(), Err(Rfm69Error::InvalidMode));
    assert!(rfm.spi.log.is_empty());
}

#[test]
fn test_read_all_registers_layout() {
    let mut rfm = new_rfm();
    let bank: Vec<u8> = (0..79).map(|i| i as u8).collect();
    rfm.spi.script = vec![bank.clone(), vec![0x1B], vec![0x55], vec![0x70], vec![0x30]];

    let list = rfm.read_all_registers().unwrap();

    assert_eq!(list.len(), 83);
    for (i, pair) in list.iter().take(79).enumerate() {
        assert_eq!(pair.0 as usize, i + 1);
        assert_eq!(pair.1, bank[i]);
    }
    assert_eq!(list[79], (0x58, 0x1B));
    assert_eq!(list[80], (0x5A, 0x55));
    assert_eq!(list[81], (0x5C, 0x70));
    assert_eq!(list[82], (0x6F, 0x30));
}

#[test]
fn test_init_programs_the_chip() {
    let mut rfm = new_rfm();
    rfm.spi.script = vec![vec![0x24]];

    rfm.init().unwrap();

    assert_eq!(rfm.current_mode, Rfm69Mode::Standby);
    assert_eq!(rfm.tx_power, 13);
    assert_eq!(rfm.reset_pin.log, vec![true, false]);
    assert_eq!(
        rfm.delay.log,
        vec![Pause::Millis(10), Pause::Micros(100), Pause::Millis(5)]
    );
    assert_eq!(
        rfm.spi.log,
        vec![
            read_record(Register::Version, &[0x24]),
            write_record(Register::FifoThresh, &[0x8F]),
            write_record(Register::TestDagc, &[0x30]),
            write_record(Register::Lna, &[0x88]),
            // two sync words with automatic fill: 0x80 | (1 << 3) | 0
            write_record(Register::SyncConfig, &[0x88, 0x2D, 0xD4]),
            // clear any earlier power amp boost
            write_record(Register::TestPa1, &[0x55]),
            write_record(Register::TestPa2, &[0x70]),
            write_record(Register::DataModul, &[0x01, 0x00, 0x80, 0x10, 0x00]),
            write_record(Register::RxBw, &[0xe0, 0xe0]),
            write_record(Register::PacketConfig1, &[0xd0]),
            write_record(Register::PreambleMsb, &[0x00, 0x04]),
            write_record(Register::PaLevel, &[0x40 | 31]),
            write_record(Register::FrfMsb, &[0xE4, 0xC0, 0x00]),
            // set_mode(standby) is a no-op: standby is already cached
        ]
    );
}

#[test]
fn test_init_rejects_wrong_revision() {
    let mut rfm = new_rfm();
    rfm.spi.script = vec![vec![0x23]];

    assert_eq!(rfm.init(), Err(Rfm69Error::SpiReadError));
    assert_eq!(rfm.spi.log, vec![read_record(Register::Version, &[0x23])]);
}

#[test]
fn test_init_reports_reset_failure() {
    let mut rfm = new_rfm();
    rfm.reset_pin.fail = true;

    assert_eq!(rfm.init(), Err(Rfm69Error::ResetError));
    assert!(rfm.spi.log.is_empty());
}

#[test]
fn test_init_aborts_on_first_write_failure() {
    let mut rfm = new_rfm();
    rfm.spi.script = vec![vec![0x24]];
    rfm.spi.fail_writes = true;

    assert_eq!(rfm.init(), Err(Rfm69Error::SpiWriteError));
    // the version read went through, nothing was written after it
    assert_eq!(rfm.spi.log, vec![read_record(Register::Version, &[0x24])]);
}

#[test]
fn test_script_length_mismatch_fails_the_read() {
    let mut rfm = new_rfm();
    rfm.spi.script = vec![vec![0x24, 0x00]];

    assert_eq!(rfm.read_revision(), Err(Rfm69Error::SpiReadError));
    assert!(rfm.spi.log.is_empty());
}
