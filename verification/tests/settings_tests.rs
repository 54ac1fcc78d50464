use rfm69_rs::registers::Register;
use rfm69_rs::settings::{
    frequency_bytes, pa_level, ContinuousDagc, ModemConfigChoice, SyncConfiguration,
};

#[test]
fn test_sync_configuration() {
    let table_test: [(SyncConfiguration, u8, u8); 4] = [
        (SyncConfiguration::SyncOff, 8, 0x00),
        (
            SyncConfiguration::FifoFillAuto { sync_tolerance: 0 },
            8,
            184,
        ),
        (
            SyncConfiguration::FifoFillManual { sync_tolerance: 0 },
            8,
            248,
        ),
        (
            SyncConfiguration::FifoFillManual { sync_tolerance: 7 },
            8,
            255,
        ),
    ];

    table_test.into_iter().for_each(|test_case| {
        assert_eq!(test_case.0.value(test_case.1), test_case.2);
    });
}

#[test]
fn test_sync_off_ignores_word_count() {
    for count in 0..=u8::MAX {
        assert_eq!(SyncConfiguration::SyncOff.value(count), 0x00);
    }
}

#[test]
fn test_sync_tolerance_clamps() {
    assert_eq!(
        SyncConfiguration::FifoFillAuto { sync_tolerance: 14 }.value(8),
        SyncConfiguration::FifoFillAuto { sync_tolerance: 7 }.value(8),
    );
    assert_eq!(
        SyncConfiguration::FifoFillManual {
            sync_tolerance: 255
        }
        .value(3),
        SyncConfiguration::FifoFillManual { sync_tolerance: 7 }.value(3),
    );
}

#[test]
fn test_sync_word_count_clamps() {
    // a count of zero encodes as one word, a count over eight as eight
    assert_eq!(
        SyncConfiguration::FifoFillAuto { sync_tolerance: 0 }.value(0),
        0x80
    );
    assert_eq!(
        SyncConfiguration::FifoFillAuto { sync_tolerance: 0 }.value(200),
        184
    );
}

#[test]
fn test_register_opcodes() {
    assert_eq!(Register::Fifo.read(), 0x00);
    assert_eq!(Register::Fifo.write(), 0x80);
    assert_eq!(Register::OpMode.read(), 0x01);
    assert_eq!(Register::OpMode.write(), 0x81);
    assert_eq!(Register::Version.read(), 0x10);
    assert_eq!(Register::Version.write(), 0x90);
    assert_eq!(Register::TestDagc.read(), 0x6F);
    assert_eq!(Register::TestDagc.write(), 0xEF);
}

#[test]
fn test_register_opcodes_differ_in_bit_7() {
    let sample = [
        Register::Fifo,
        Register::OpMode,
        Register::PaLevel,
        Register::SyncConfig,
        Register::Temp2,
        Register::TestLna,
        Register::TestPa1,
        Register::TestPa2,
        Register::TestDagc,
    ];
    for reg in sample {
        assert_eq!(reg.write(), reg.read() | 0x80);
        assert_eq!(reg.read(), reg.write() & 0x7F);
    }
}

#[test]
fn test_dagc_values() {
    assert_eq!(ContinuousDagc::NormalMode.value(), 0x00);
    assert_eq!(ContinuousDagc::ImprovedLowBeta0.value(), 0x20);
    assert_eq!(ContinuousDagc::ImprovedLowBeta1.value(), 0x30);
}

#[test]
fn test_modem_preset_values() {
    assert_eq!(
        ModemConfigChoice::FskRb2Fd5.values(),
        [0x00, 0x3e, 0x80, 0x00, 0x52, 0xf4, 0xf4, 0xd0]
    );
    // the gaussian-shaped variant flips the modulation-shaping bit and, for
    // this one preset, uses a different AFC bandwidth byte
    assert_eq!(
        ModemConfigChoice::GfskRb2Fd5.values(),
        [0x01, 0x3e, 0x80, 0x00, 0x52, 0xf4, 0xf5, 0xd0]
    );
    assert_eq!(
        ModemConfigChoice::GfskRb250Fd250.values(),
        [0x01, 0x00, 0x80, 0x10, 0x00, 0xe0, 0xe0, 0xd0]
    );
    assert_eq!(
        ModemConfigChoice::OokRb32Bw64.values(),
        [0x08, 0x03, 0xe8, 0x00, 0x10, 0xe2, 0xe2, 0xd0]
    );
}

#[test]
fn test_frequency_bytes_915() {
    assert_eq!(frequency_bytes(915), [0xE4, 0xC0, 0x00]);
}

#[test]
fn test_frequency_bytes_433() {
    // 433 * 524288 / 32 == 0x6C4000
    assert_eq!(frequency_bytes(433), [0x6C, 0x40, 0x00]);
}

#[test]
fn test_pa_level_boosted() {
    assert_eq!(pa_level(-2, true), 0x50);
    // 13 dBm: second stage alone, bias 18
    assert_eq!(pa_level(13, true), 0x40 | 31);
    // 15 dBm: both stages, bias 14
    assert_eq!(pa_level(15, true), 0x60 | 29);
    // 18 dBm and above: both stages, bias 11
    assert_eq!(pa_level(18, true), 0x60 | 29);
    assert_eq!(pa_level(20, true), 0x60 | 31);
    // requests past the clamp range keep the raw power in the offset
    assert_eq!(pa_level(25, true), 0x60 | ((25 + 11) & 0x1F));
}

#[test]
fn test_pa_level_high_power_enables_both_stages() {
    for power in 18..=i8::MAX {
        let level = pa_level(power, true);
        assert_eq!(level & 0x60, 0x60);
    }
}

#[test]
fn test_pa_level_plain() {
    // the plain topology clamps to [-18, 13] and uses the first stage alone
    assert_eq!(pa_level(-18, false), 0x80);
    assert_eq!(pa_level(-30, false), 0x80);
    assert_eq!(pa_level(13, false), 0x80 | 31);
    assert_eq!(pa_level(20, false), 0x80 | 31);
}
