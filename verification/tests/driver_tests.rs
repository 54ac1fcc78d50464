use rfm69_rs::mock::{BusRecord, MockDelay, MockPin, ScriptBus};
use rfm69_rs::read_write::Pause;
use rfm69_rs::registers::Register;
use rfm69_rs::rfm69::{Rfm69, Rfm69Error, Rfm69Mode};
use rfm69_rs::settings::{ContinuousDagc, ModemConfigChoice, SyncConfiguration};

fn setup_rfm() -> Rfm69<ScriptBus, MockPin, MockPin, MockDelay> {
    Rfm69::new(ScriptBus::new(), MockPin::new(), MockPin::new(), MockDelay::new())
}

fn wr(reg: Register, data: &[u8]) -> BusRecord {
    BusRecord::Write {
        opcode: reg.write(),
        data: data.to_vec(),
    }
}

fn rd(reg: Register, data: &[u8]) -> BusRecord {
    BusRecord::Read {
        opcode: reg.read(),
        data: data.to_vec(),
    }
}

#[test]
fn test_reset() {
    let mut rfm = setup_rfm();

    rfm.reset().unwrap();

    assert_eq!(rfm.reset_pin.log, vec![true, false]);
    assert_eq!(rfm.delay.log, vec![Pause::Micros(100), Pause::Millis(5)]);
    assert!(rfm.spi.log.is_empty());
}

#[test]
fn test_read_temperature() {
    let mut rfm = setup_rfm();
    rfm.spi.script = vec![vec![0x04], vec![0x00], vec![0x8D]];

    let temperature = rfm.read_temperature().unwrap();
    assert_eq!(temperature, 25);

    assert_eq!(
        rfm.spi.log,
        vec![
            wr(Register::Temp1, &[0x08]),
            rd(Register::Temp1, &[0x04]),
            rd(Register::Temp1, &[0x00]),
            rd(Register::Temp2, &[0x8D]),
        ]
    );
    assert_eq!(rfm.delay.log, vec![Pause::Millis(10)]);
}

#[test]
fn test_set_default_fifo_threshold() {
    let mut rfm = setup_rfm();

    rfm.set_default_fifo_threshold().unwrap();

    assert_eq!(rfm.spi.log, vec![wr(Register::FifoThresh, &[0x8F])]);
}

#[test]
fn test_set_dagc() {
    let mut rfm = setup_rfm();

    rfm.set_dagc(ContinuousDagc::ImprovedLowBeta1).unwrap();

    assert_eq!(
        rfm.spi.log,
        vec![wr(
            Register::TestDagc,
            &[ContinuousDagc::ImprovedLowBeta1.value()]
        )]
    );
}

#[test]
fn test_set_power() {
    let mut rfm = setup_rfm();

    assert!(rfm.spi.log.is_empty());
    assert!(rfm.reset_pin.log.is_empty());
    assert!(rfm.delay.log.is_empty());
}

#[test]
fn test_set_sync_words() {
    let mut rfm = setup_rfm();

    let sync_words = [0x01, 0x02, 0x03, 0x04, 0x05, 0x06, 0x07, 0x08];
    rfm.set_sync_words(
        SyncConfiguration::FifoFillAuto { sync_tolerance: 0 },
        &sync_words,
    )
    .unwrap();

    assert_eq!(
        rfm.spi.log,
        vec![wr(Register::SyncConfig, &[184, 1, 2, 3, 4, 5, 6, 7, 8])]
    );
}

#[test]
fn test_set_sync_words_clamp() {
    let mut rfm = setup_rfm();

    let sync_words = [0x01, 0x02, 0x03, 0x04, 0x05, 0x06, 0x07, 0x08];

    // sync_tolerance is clamped to 7
    rfm.set_sync_words(
        SyncConfiguration::FifoFillAuto { sync_tolerance: 14 },
        &sync_words,
    )
    .unwrap();

    assert_eq!(
        rfm.spi.log,
        vec![wr(Register::SyncConfig, &[191, 1, 2, 3, 4, 5, 6, 7, 8])]
    );
}

#[test]
fn test_set_sync_words_too_long() {
    let mut rfm = setup_rfm();

    let sync_words = [0x01, 0x02, 0x03, 0x04, 0x05, 0x06, 0x07, 0x08, 0x09];
    assert_eq!(
        rfm.set_sync_words(
            SyncConfiguration::FifoFillAuto { sync_tolerance: 0 },
            &sync_words
        ),
        Err(Rfm69Error::ConfigurationError)
    );

    assert!(rfm.spi.log.is_empty());
}

#[test]
fn test_set_sync_words_empty() {
    let mut rfm = setup_rfm();

    let sync_words = [];
    assert_eq!(
        rfm.set_sync_words(
            SyncConfiguration::FifoFillAuto { sync_tolerance: 0 },
            &sync_words
        ),
        Err(Rfm69Error::ConfigurationError)
    );

    assert!(rfm.spi.log.is_empty());
}

#[test]
fn test_set_modem_config() {
    let mut rfm = setup_rfm();

    rfm.set_modem_config(ModemConfigChoice::FskRb2Fd5).unwrap();

    assert_eq!(
        rfm.spi.log,
        vec![
            wr(Register::DataModul, &[0x00, 0x3e, 0x80, 0x00, 0x52]),
            wr(Register::RxBw, &[0xf4, 0xf4]),
            wr(Register::PacketConfig1, &[0xd0]),
        ]
    );
}

#[test]
fn test_set_preamble_length() {
    let mut rfm = setup_rfm();

    rfm.set_preamble_length(255).unwrap();

    assert_eq!(rfm.spi.log, vec![wr(Register::PreambleMsb, &[0x00, 0xFF])]);
}

#[test]
fn test_get_revision() {
    let mut rfm = setup_rfm();
    rfm.spi.script = vec![vec![0x24]];

    let revision = rfm.read_revision().unwrap();
    assert_eq!(revision, 0x24);

    assert_eq!(rfm.spi.log, vec![rd(Register::Version, &[0x24])]);
}

#[test]
fn test_set_frequency() {
    let mut rfm = setup_rfm();

    rfm.set_frequency(915).unwrap();

    assert_eq!(rfm.spi.log, vec![wr(Register::FrfMsb, &[0xE4, 0xC0, 0x00])]);
}

#[test]
fn test_set_tx_power() {
    let mut rfm = setup_rfm();

    rfm.set_tx_power(-2).unwrap();
    assert_eq!(rfm.tx_power, -2);

    assert_eq!(rfm.spi.log, vec![wr(Register::PaLevel, &[0x50])]);
}

#[test]
fn test_set_mode_rx() {
    let mut rfm = setup_rfm();
    rfm.tx_power = 18;
    rfm.spi.script = vec![vec![0xC4], vec![0x00], vec![0x80]];

    rfm.set_mode(Rfm69Mode::Rx).unwrap();
    assert_eq!(rfm.current_mode, Rfm69Mode::Rx);

    assert_eq!(
        rfm.spi.log,
        vec![
            // high-power boost: return the power amp to receive setting
            wr(Register::TestPa1, &[0x55]),
            wr(Register::TestPa2, &[0x70]),
            // read the current mode byte
            rd(Register::OpMode, &[0xC4]),
            // write the new mode, leaving the other bits unchanged
            wr(Register::OpMode, &[0xD0]),
            // poll until the chip reports the mode ready
            rd(Register::IrqFlags1, &[0x00]),
            rd(Register::IrqFlags1, &[0x80]),
        ]
    );
    assert_eq!(rfm.delay.log, vec![Pause::Millis(10)]);
}

#[test]
fn test_set_mode_tx() {
    let mut rfm = setup_rfm();
    rfm.tx_power = 18;
    rfm.spi.script = vec![vec![0xC4], vec![0x00], vec![0x80]];

    rfm.set_mode(Rfm69Mode::Tx).unwrap();
    assert_eq!(rfm.current_mode, Rfm69Mode::Tx);

    assert_eq!(
        rfm.spi.log,
        vec![
            // high-power boost: enable the power amp boost setting
            wr(Register::TestPa1, &[0x5D]),
            wr(Register::TestPa2, &[0x7C]),
            rd(Register::OpMode, &[0xC4]),
            wr(Register::OpMode, &[0xCC]),
            rd(Register::IrqFlags1, &[0x00]),
            rd(Register::IrqFlags1, &[0x80]),
        ]
    );
    assert_eq!(rfm.delay.log, vec![Pause::Millis(10)]);
}

#[test]
fn test_send_too_large() {
    let mut rfm = setup_rfm();

    let message = [b'a'; 70];

    assert_eq!(rfm.send(&message), Err(Rfm69Error::MessageTooLarge));

    assert!(rfm.spi.log.is_empty());
    assert!(rfm.delay.log.is_empty());
}

#[test]
fn test_send() {
    let mut rfm = setup_rfm();
    rfm.spi.script = vec![
        vec![0xC4],
        vec![0x00],
        vec![0x80],
        vec![0x08],
        vec![0xC0],
        vec![0x80],
    ];

    let message = "Hello, world!".as_bytes();
    rfm.send(message).unwrap();
    assert_eq!(rfm.current_mode, Rfm69Mode::Standby);

    let mut frame = vec![17, 0xFF, 0xFF, 0x00, 0x00];
    frame.extend_from_slice(message);

    assert_eq!(
        rfm.spi.log,
        vec![
            wr(Register::Fifo, &frame),
            // switch to transmit
            rd(Register::OpMode, &[0xC4]),
            wr(Register::OpMode, &[0xCC]),
            rd(Register::IrqFlags1, &[0x00]),
            rd(Register::IrqFlags1, &[0x80]),
            // wait for the packet to leave
            rd(Register::IrqFlags2, &[0x08]),
            // back to standby
            rd(Register::OpMode, &[0xC0]),
            wr(Register::OpMode, &[0xC4]),
            rd(Register::IrqFlags1, &[0x80]),
        ]
    );
    assert_eq!(rfm.delay.log, vec![Pause::Millis(10)]);
}

#[test]
fn test_receive() {
    let mut rfm = setup_rfm();
    rfm.spi.script = vec![
        vec![9],
        vec![0x00, 0x00, 0x00, 0x00],
        vec![0x00, 0x00, 0x00, 0x00, 0x00],
    ];

    let mut buffer = vec![0u8; 65];

    let message_len = rfm.receive(&mut buffer).unwrap();
    assert_eq!(message_len, 5);

    assert_eq!(
        rfm.spi.log,
        vec![
            rd(Register::Fifo, &[9]),
            rd(Register::Fifo, &[0x00, 0x00, 0x00, 0x00]),
            rd(Register::Fifo, &[0x00, 0x00, 0x00, 0x00, 0x00]),
        ]
    );
}

#[test]
fn test_is_message_available() {
    let mut rfm = setup_rfm();
    rfm.current_mode = Rfm69Mode::Rx;

    rfm.spi.script = vec![vec![0x04]];
    assert_eq!(rfm.is_message_available().unwrap(), true);

    rfm.spi.script = vec![vec![0x00]];
    assert_eq!(rfm.is_message_available().unwrap(), false);

    rfm.current_mode = Rfm69Mode::Tx;
    assert_eq!(rfm.is_message_available(), Err(Rfm69Error::InvalidMode));

    assert_eq!(
        rfm.spi.log,
        vec![
            rd(Register::IrqFlags2, &[0x04]),
            rd(Register::IrqFlags2, &[0x00]),
        ]
    );
}

#[test]
fn test_rssi() {
    let mut rfm = setup_rfm();
    rfm.current_mode = Rfm69Mode::Rx;
    rfm.spi.script = vec![vec![0x50]];

    assert_eq!(rfm.rssi().unwrap(), 40);

    assert_eq!(rfm.spi.log, vec![rd(Register::RssiValue, &[0x50])]);
}

#[test]
fn test_rfm69_reset() {
    let mut rfm = setup_rfm();

    rfm.reset().unwrap();

    assert_eq!(rfm.reset_pin.log, vec![true, false]);
    assert_eq!(rfm.delay.log, vec![Pause::Micros(100), Pause::Millis(5)]);
}

#[test]
fn test_rfm69_read_temperature() {
    let mut rfm = setup_rfm();
    rfm.spi.script = vec![vec![0x04], vec![0x00], vec![0x0A]];

    let temperature = rfm.read_temperature().unwrap();
    assert_eq!(temperature, 156);

    assert_eq!(
        rfm.spi.log,
        vec![
            wr(Register::Temp1, &[0x08]),
            rd(Register::Temp1, &[0x04]),
            rd(Register::Temp1, &[0x00]),
            rd(Register::Temp2, &[0x0A]),
        ]
    );
}
