use vstd::prelude::*;

verus! {

// Data-mode and modulation control bits, byte 0 of a modem preset.
pub const RF_DATAMODUL_DATAMODE_PACKET: u8 = 0x00;

pub const RF_DATAMODUL_MODULATIONTYPE_FSK: u8 = 0x00;

pub const RF_DATAMODUL_MODULATIONTYPE_OOK: u8 = 0x08;

pub const RF_DATAMODUL_MODULATIONSHAPING_00: u8 = 0x00;

pub const RF_DATAMODUL_MODULATIONSHAPING_01: u8 = 0x01;

pub const CONFIG_FSK: u8 = RF_DATAMODUL_DATAMODE_PACKET | RF_DATAMODUL_MODULATIONTYPE_FSK
    | RF_DATAMODUL_MODULATIONSHAPING_00;

pub const CONFIG_GFSK: u8 = RF_DATAMODUL_DATAMODE_PACKET | RF_DATAMODUL_MODULATIONTYPE_FSK
    | RF_DATAMODUL_MODULATIONSHAPING_01;

pub const CONFIG_OOK: u8 = RF_DATAMODUL_DATAMODE_PACKET | RF_DATAMODUL_MODULATIONTYPE_OOK
    | RF_DATAMODUL_MODULATIONSHAPING_00;

// Packet-format control bits, byte 7 of a modem preset.
pub const RF_PACKETCONFIG1_PACKETFORMAT_VARIABLE: u8 = 0x80;

pub const RF_PACKETCONFIG1_DCFREE_WHITENING: u8 = 0x40;

pub const RF_PACKETCONFIG1_CRC_ON: u8 = 0x10;

pub const RF_PACKETCONFIG1_ADDRESSFILTERING_NONE: u8 = 0x00;

pub const CONFIG_WHITE: u8 = RF_PACKETCONFIG1_PACKETFORMAT_VARIABLE
    | RF_PACKETCONFIG1_DCFREE_WHITENING | RF_PACKETCONFIG1_CRC_ON
    | RF_PACKETCONFIG1_ADDRESSFILTERING_NONE;

// Power-amplifier control bits of the power level register.
pub const RF_PALEVEL_PA0_ON: u8 = 0x80;

pub const RF_PALEVEL_PA1_ON: u8 = 0x40;

pub const RF_PALEVEL_PA2_ON: u8 = 0x20;

pub const RF_PALEVEL_OUTPUTPOWER_11111: u8 = 0x1F;

/// Numerator of the synthesizer-step formula: the chip counts its carrier
/// in steps of oscillator frequency over two to the nineteenth.
pub const RF69_FSTEP: u32 = 524288;

/// Denominator of the synthesizer-step formula: the oscillator frequency
/// in megahertz.
pub const RF69_FXOSC: u32 = 32;

pub open spec fn clamp_u8_spec(x: u8, lo: u8, hi: u8) -> u8 {
    if x < lo {
        lo
    } else if x > hi {
        hi
    } else {
        x
    }
}

pub fn clamp_u8(x: u8, lo: u8, hi: u8) -> (r: u8)
    requires
        lo <= hi,
    ensures
        r == clamp_u8_spec(x, lo, hi),
        lo <= r <= hi,
{
    if x < lo {
        lo
    } else if x > hi {
        hi
    } else {
        x
    }
}

pub open spec fn clamp_i8_spec(x: i8, lo: i8, hi: i8) -> i8 {
    if x < lo {
        lo
    } else if x > hi {
        hi
    } else {
        x
    }
}

pub fn clamp_i8(x: i8, lo: i8, hi: i8) -> (r: i8)
    requires
        lo <= hi,
    ensures
        r == clamp_i8_spec(x, lo, hi),
        lo <= r <= hi,
{
    if x < lo {
        lo
    } else if x > hi {
        hi
    } else {
        x
    }
}

/// Continuous digital automatic gain control behaviour during reception,
/// written to the DAGC test register.
#[derive(Clone, Copy)]
pub enum ContinuousDagc {
    NormalMode,
    ImprovedLowBeta0,
    ImprovedLowBeta1,
}

impl ContinuousDagc {
    pub open spec fn value_spec(self) -> u8 {
        match self {
            ContinuousDagc::NormalMode => 0x00,
            ContinuousDagc::ImprovedLowBeta0 => 0x20,
            ContinuousDagc::ImprovedLowBeta1 => 0x30,
        }
    }

    /// The byte written to the DAGC test register for this choice.
    #[verifier::when_used_as_spec(value_spec)]
    pub fn value(self) -> (r: u8)
        ensures
            r == self.value_spec(),
    {
        match self {
            ContinuousDagc::NormalMode => 0x00,
            ContinuousDagc::ImprovedLowBeta0 => 0x20,
            ContinuousDagc::ImprovedLowBeta1 => 0x30,
        }
    }
}

/// The sync-word policy: detection off, or the FIFO fill condition tied to
/// sync-address detection (automatic) or to a manual flag, each with a bit
/// tolerance for the match.
pub enum SyncConfiguration {
    SyncOff,
    FifoFillAuto { sync_tolerance: u8 },
    FifoFillManual { sync_tolerance: u8 },
}

impl SyncConfiguration {
    /// The sync-configuration control byte for this policy and a word count
    /// of `sync_size`. The word count is clamped to [1, 8] and encoded less
    /// one in bits 3 to 5; the tolerance is clamped to [0, 7] in bits 0 to
    /// 2; bit 7 enables sync detection and bit 6 selects the manual fill
    /// condition.
    pub open spec fn value_spec(self, sync_size: u8) -> u8 {
        match self {
            SyncConfiguration::SyncOff => 0x00,
            SyncConfiguration::FifoFillAuto { sync_tolerance } => 0x80u8 | (((clamp_u8_spec(
                sync_size,
                1,
                8,
            ) - 1) as u8) << 3) | clamp_u8_spec(sync_tolerance, 0, 7),
            SyncConfiguration::FifoFillManual { sync_tolerance } => 0x80u8 | 0x40 | (((clamp_u8_spec(
                sync_size,
                1,
                8,
            ) - 1) as u8) << 3) | clamp_u8_spec(sync_tolerance, 0, 7),
        }
    }

    #[verifier::when_used_as_spec(value_spec)]
    pub fn value(self, sync_size: u8) -> (r: u8)
        ensures
            r == self.value_spec(sync_size),
    {
        match self {
            SyncConfiguration::SyncOff => 0x00,
            SyncConfiguration::FifoFillAuto { sync_tolerance } => {
                let size = clamp_u8(sync_size, 1, 8);
                let tolerance = clamp_u8(sync_tolerance, 0, 7);
                0x80 | ((size - 1) << 3) | tolerance
            },
            SyncConfiguration::FifoFillManual { sync_tolerance } => {
                let size = clamp_u8(sync_size, 1, 8);
                let tolerance = clamp_u8(sync_tolerance, 0, 7);
                0x80 | 0x40 | ((size - 1) << 3) | tolerance
            },
        }
    }
}

/// Law: with sync detection off, the control byte is zero whatever the
/// word count.
pub proof fn lemma_sync_off_encodes_zero(sync_size: u8)
    ensures
        SyncConfiguration::SyncOff.value_spec(sync_size) == 0x00,
{
}

/// Law: a tolerance above seven encodes exactly as tolerance seven, for
/// both fill conditions and every word count.
pub proof fn lemma_sync_tolerance_clamped(sync_tolerance: u8, sync_size: u8)
    requires
        sync_tolerance > 7,
    ensures
        (SyncConfiguration::FifoFillAuto { sync_tolerance }).value_spec(sync_size) == (
        SyncConfiguration::FifoFillAuto { sync_tolerance: 7 }).value_spec(sync_size),
        (SyncConfiguration::FifoFillManual { sync_tolerance }).value_spec(sync_size) == (
        SyncConfiguration::FifoFillManual { sync_tolerance: 7 }).value_spec(sync_size),
{
}

/// One row of the modem configuration catalog, kept in the hardware's
/// register layout: the data-modulation control byte, the bit-rate and
/// frequency-deviation words, the two bandwidth bytes, and the first
/// packet-format control byte.
#[allow(dead_code)]
pub struct ModemConfig {
    reg_02: u8,
    reg_03: u8,
    reg_04: u8,
    reg_05: u8,
    reg_06: u8,
    reg_19: u8,
    reg_1a: u8,
    reg_37: u8,
}

/// The closed catalog of modem presets: a modulation family crossed with a
/// bit rate and a deviation or receiver bandwidth.
#[derive(Debug, Clone, Copy, PartialEq, Eq, Structural)]
pub enum ModemConfigChoice {
    /// FSK, whitening, 2 kb/s, 5 kHz deviation.
    FskRb2Fd5,
    /// FSK, whitening, 2.4 kb/s, 4.8 kHz deviation.
    FskRb2_4Fd4_8,
    /// FSK, whitening, 4.8 kb/s, 9.6 kHz deviation.
    FskRb4_8Fd9_6,
    /// FSK, whitening, 9.6 kb/s, 19.2 kHz deviation.
    FskRb9_6Fd19_2,
    /// FSK, whitening, 19.2 kb/s, 38.4 kHz deviation.
    FskRb19_2Fd38_4,
    /// FSK, whitening, 38.4 kb/s, 76.8 kHz deviation.
    FskRb38_4Fd76_8,
    /// FSK, whitening, 57.6 kb/s, 120 kHz deviation.
    FskRb57_6Fd120,
    /// FSK, whitening, 125 kb/s, 125 kHz deviation.
    FskRb125Fd125,
    /// FSK, whitening, 250 kb/s, 250 kHz deviation.
    FskRb250Fd250,
    /// FSK, whitening, 55.555 kb/s, 50 kHz deviation.
    FskRb55555Fd50,
    /// GFSK, whitening, 2 kb/s, 5 kHz deviation.
    GfskRb2Fd5,
    /// GFSK, whitening, 2.4 kb/s, 4.8 kHz deviation.
    GfskRb2_4Fd4_8,
    /// GFSK, whitening, 4.8 kb/s, 9.6 kHz deviation.
    GfskRb4_8Fd9_6,
    /// GFSK, whitening, 9.6 kb/s, 19.2 kHz deviation.
    GfskRb9_6Fd19_2,
    /// GFSK, whitening, 19.2 kb/s, 38.4 kHz deviation.
    GfskRb19_2Fd38_4,
    /// GFSK, whitening, 38.4 kb/s, 76.8 kHz deviation.
    GfskRb38_4Fd76_8,
    /// GFSK, whitening, 57.6 kb/s, 120 kHz deviation.
    GfskRb57_6Fd120,
    /// GFSK, whitening, 125 kb/s, 125 kHz deviation.
    GfskRb125Fd125,
    /// GFSK, whitening, 250 kb/s, 250 kHz deviation.
    GfskRb250Fd250,
    /// GFSK, whitening, 55.555 kb/s, 50 kHz deviation.
    GfskRb55555Fd50,
    /// OOK, whitening, 1 kb/s, 1 kHz bandwidth.
    OokRb1Bw1,
    /// OOK, whitening, 1.2 kb/s, 75 kHz bandwidth.
    OokRb1_2Bw75,
    /// OOK, whitening, 2.4 kb/s, 4.8 kHz bandwidth.
    OokRb2_4Bw4_8,
    /// OOK, whitening, 4.8 kb/s, 9.6 kHz bandwidth.
    OokRb4_8Bw9_6,
    /// OOK, whitening, 9.6 kb/s, 19.2 kHz bandwidth.
    OokRb9_6Bw19_2,
    /// OOK, whitening, 19.2 kb/s, 38.4 kHz bandwidth.
    OokRb19_2Bw38_4,
    /// OOK, whitening, 32 kb/s, 64 kHz bandwidth.
    OokRb32Bw64,
}

impl ModemConfigChoice {
    /// The preset's eight register values: byte 0 for the data-modulation
    /// register, bytes 1 to 4 for the bit-rate and frequency-deviation
    /// registers, bytes 5 and 6 for the receiver and AFC bandwidth
    /// registers, byte 7 for the first packet-format register.
    pub open spec fn values_spec(self) -> Seq<u8> {
        match self {
            ModemConfigChoice::FskRb2Fd5 => seq![CONFIG_FSK, 0x3e, 0x80, 0x00, 0x52, 0xf4, 0xf4, CONFIG_WHITE],
            ModemConfigChoice::FskRb2_4Fd4_8 => seq![CONFIG_FSK, 0x34, 0x15, 0x00, 0x4f, 0xf4, 0xf4, CONFIG_WHITE],
            ModemConfigChoice::FskRb4_8Fd9_6 => seq![CONFIG_FSK, 0x1a, 0x0b, 0x00, 0x9d, 0xf4, 0xf4, CONFIG_WHITE],
            ModemConfigChoice::FskRb9_6Fd19_2 => seq![CONFIG_FSK, 0x0d, 0x05, 0x01, 0x3b, 0xf4, 0xf4, CONFIG_WHITE],
            ModemConfigChoice::FskRb19_2Fd38_4 => seq![CONFIG_FSK, 0x06, 0x83, 0x02, 0x75, 0xf3, 0xf3, CONFIG_WHITE],
            ModemConfigChoice::FskRb38_4Fd76_8 => seq![CONFIG_FSK, 0x03, 0x41, 0x04, 0xea, 0xf2, 0xf2, CONFIG_WHITE],
            ModemConfigChoice::FskRb57_6Fd120 => seq![CONFIG_FSK, 0x02, 0x2c, 0x07, 0xae, 0xe2, 0xe2, CONFIG_WHITE],
            ModemConfigChoice::FskRb125Fd125 => seq![CONFIG_FSK, 0x01, 0x00, 0x08, 0x00, 0xe1, 0xe1, CONFIG_WHITE],
            ModemConfigChoice::FskRb250Fd250 => seq![CONFIG_FSK, 0x00, 0x80, 0x10, 0x00, 0xe0, 0xe0, CONFIG_WHITE],
            ModemConfigChoice::FskRb55555Fd50 => seq![CONFIG_FSK, 0x02, 0x40, 0x03, 0x33, 0x42, 0x42, CONFIG_WHITE],
            ModemConfigChoice::GfskRb2Fd5 => seq![CONFIG_GFSK, 0x3e, 0x80, 0x00, 0x52, 0xf4, 0xf5, CONFIG_WHITE],
            ModemConfigChoice::GfskRb2_4Fd4_8 => seq![CONFIG_GFSK, 0x34, 0x15, 0x00, 0x4f, 0xf4, 0xf4, CONFIG_WHITE],
            ModemConfigChoice::GfskRb4_8Fd9_6 => seq![CONFIG_GFSK, 0x1a, 0x0b, 0x00, 0x9d, 0xf4, 0xf4, CONFIG_WHITE],
            ModemConfigChoice::GfskRb9_6Fd19_2 => seq![CONFIG_GFSK, 0x0d, 0x05, 0x01, 0x3b, 0xf4, 0xf4, CONFIG_WHITE],
            ModemConfigChoice::GfskRb19_2Fd38_4 => seq![CONFIG_GFSK, 0x06, 0x83, 0x02, 0x75, 0xf3, 0xf3, CONFIG_WHITE],
            ModemConfigChoice::GfskRb38_4Fd76_8 => seq![CONFIG_GFSK, 0x03, 0x41, 0x04, 0xea, 0xf2, 0xf2, CONFIG_WHITE],
            ModemConfigChoice::GfskRb57_6Fd120 => seq![CONFIG_GFSK, 0x02, 0x2c, 0x07, 0xae, 0xe2, 0xe2, CONFIG_WHITE],
            ModemConfigChoice::GfskRb125Fd125 => seq![CONFIG_GFSK, 0x01, 0x00, 0x08, 0x00, 0xe1, 0xe1, CONFIG_WHITE],
            ModemConfigChoice::GfskRb250Fd250 => seq![CONFIG_GFSK, 0x00, 0x80, 0x10, 0x00, 0xe0, 0xe0, CONFIG_WHITE],
            ModemConfigChoice::GfskRb55555Fd50 => seq![CONFIG_GFSK, 0x02, 0x40, 0x03, 0x33, 0x42, 0x42, CONFIG_WHITE],
            ModemConfigChoice::OokRb1Bw1 => seq![CONFIG_OOK, 0x7d, 0x00, 0x00, 0x10, 0x88, 0x88, CONFIG_WHITE],
            ModemConfigChoice::OokRb1_2Bw75 => seq![CONFIG_OOK, 0x68, 0x2b, 0x00, 0x10, 0xf1, 0xf1, CONFIG_WHITE],
            ModemConfigChoice::OokRb2_4Bw4_8 => seq![CONFIG_OOK, 0x34, 0x15, 0x00, 0x10, 0xf5, 0xf5, CONFIG_WHITE],
            ModemConfigChoice::OokRb4_8Bw9_6 => seq![CONFIG_OOK, 0x1a, 0x0b, 0x00, 0x10, 0xf4, 0xf4, CONFIG_WHITE],
            ModemConfigChoice::OokRb9_6Bw19_2 => seq![CONFIG_OOK, 0x0d, 0x05, 0x00, 0x10, 0xf3, 0xf3, CONFIG_WHITE],
            ModemConfigChoice::OokRb19_2Bw38_4 => seq![CONFIG_OOK, 0x06, 0x83, 0x00, 0x10, 0xf2, 0xf2, CONFIG_WHITE],
            ModemConfigChoice::OokRb32Bw64 => seq![CONFIG_OOK, 0x03, 0xe8, 0x00, 0x10, 0xe2, 0xe2, CONFIG_WHITE],
        }
    }

    pub fn values(&self) -> (r: [u8; 8])
        ensures
            r@ == self.values_spec(),
    {
        let r = match self {
            ModemConfigChoice::FskRb2Fd5 => [CONFIG_FSK, 0x3e, 0x80, 0x00, 0x52, 0xf4, 0xf4, CONFIG_WHITE],
            ModemConfigChoice::FskRb2_4Fd4_8 => [CONFIG_FSK, 0x34, 0x15, 0x00, 0x4f, 0xf4, 0xf4, CONFIG_WHITE],
            ModemConfigChoice::FskRb4_8Fd9_6 => [CONFIG_FSK, 0x1a, 0x0b, 0x00, 0x9d, 0xf4, 0xf4, CONFIG_WHITE],
            ModemConfigChoice::FskRb9_6Fd19_2 => [CONFIG_FSK, 0x0d, 0x05, 0x01, 0x3b, 0xf4, 0xf4, CONFIG_WHITE],
            ModemConfigChoice::FskRb19_2Fd38_4 => [CONFIG_FSK, 0x06, 0x83, 0x02, 0x75, 0xf3, 0xf3, CONFIG_WHITE],
            ModemConfigChoice::FskRb38_4Fd76_8 => [CONFIG_FSK, 0x03, 0x41, 0x04, 0xea, 0xf2, 0xf2, CONFIG_WHITE],
            ModemConfigChoice::FskRb57_6Fd120 => [CONFIG_FSK, 0x02, 0x2c, 0x07, 0xae, 0xe2, 0xe2, CONFIG_WHITE],
            ModemConfigChoice::FskRb125Fd125 => [CONFIG_FSK, 0x01, 0x00, 0x08, 0x00, 0xe1, 0xe1, CONFIG_WHITE],
            ModemConfigChoice::FskRb250Fd250 => [CONFIG_FSK, 0x00, 0x80, 0x10, 0x00, 0xe0, 0xe0, CONFIG_WHITE],
            ModemConfigChoice::FskRb55555Fd50 => [CONFIG_FSK, 0x02, 0x40, 0x03, 0x33, 0x42, 0x42, CONFIG_WHITE],
            ModemConfigChoice::GfskRb2Fd5 => [CONFIG_GFSK, 0x3e, 0x80, 0x00, 0x52, 0xf4, 0xf5, CONFIG_WHITE],
            ModemConfigChoice::GfskRb2_4Fd4_8 => [CONFIG_GFSK, 0x34, 0x15, 0x00, 0x4f, 0xf4, 0xf4, CONFIG_WHITE],
            ModemConfigChoice::GfskRb4_8Fd9_6 => [CONFIG_GFSK, 0x1a, 0x0b, 0x00, 0x9d, 0xf4, 0xf4, CONFIG_WHITE],
            ModemConfigChoice::GfskRb9_6Fd19_2 => [CONFIG_GFSK, 0x0d, 0x05, 0x01, 0x3b, 0xf4, 0xf4, CONFIG_WHITE],
            ModemConfigChoice::GfskRb19_2Fd38_4 => [CONFIG_GFSK, 0x06, 0x83, 0x02, 0x75, 0xf3, 0xf3, CONFIG_WHITE],
            ModemConfigChoice::GfskRb38_4Fd76_8 => [CONFIG_GFSK, 0x03, 0x41, 0x04, 0xea, 0xf2, 0xf2, CONFIG_WHITE],
            ModemConfigChoice::GfskRb57_6Fd120 => [CONFIG_GFSK, 0x02, 0x2c, 0x07, 0xae, 0xe2, 0xe2, CONFIG_WHITE],
            ModemConfigChoice::GfskRb125Fd125 => [CONFIG_GFSK, 0x01, 0x00, 0x08, 0x00, 0xe1, 0xe1, CONFIG_WHITE],
            ModemConfigChoice::GfskRb250Fd250 => [CONFIG_GFSK, 0x00, 0x80, 0x10, 0x00, 0xe0, 0xe0, CONFIG_WHITE],
            ModemConfigChoice::GfskRb55555Fd50 => [CONFIG_GFSK, 0x02, 0x40, 0x03, 0x33, 0x42, 0x42, CONFIG_WHITE],
            ModemConfigChoice::OokRb1Bw1 => [CONFIG_OOK, 0x7d, 0x00, 0x00, 0x10, 0x88, 0x88, CONFIG_WHITE],
            ModemConfigChoice::OokRb1_2Bw75 => [CONFIG_OOK, 0x68, 0x2b, 0x00, 0x10, 0xf1, 0xf1, CONFIG_WHITE],
            ModemConfigChoice::OokRb2_4Bw4_8 => [CONFIG_OOK, 0x34, 0x15, 0x00, 0x10, 0xf5, 0xf5, CONFIG_WHITE],
            ModemConfigChoice::OokRb4_8Bw9_6 => [CONFIG_OOK, 0x1a, 0x0b, 0x00, 0x10, 0xf4, 0xf4, CONFIG_WHITE],
            ModemConfigChoice::OokRb9_6Bw19_2 => [CONFIG_OOK, 0x0d, 0x05, 0x00, 0x10, 0xf3, 0xf3, CONFIG_WHITE],
            ModemConfigChoice::OokRb19_2Bw38_4 => [CONFIG_OOK, 0x06, 0x83, 0x00, 0x10, 0xf2, 0xf2, CONFIG_WHITE],
            ModemConfigChoice::OokRb32Bw64 => [CONFIG_OOK, 0x03, 0xe8, 0x00, 0x10, 0xe2, 0xe2, CONFIG_WHITE],
        };
        proof {
            assert(r@ =~= self.values_spec());
        }
        r
    }
}


/// The 24-bit synthesizer word for a carrier of `freq_mhz` megahertz,
/// by the hardware's step formula in truncating integer arithmetic. No
/// rounding correction is applied: callers must not expect sub-step
/// precision.
pub open spec fn frf_spec(freq_mhz: u32) -> int {
    (freq_mhz * RF69_FSTEP) / (RF69_FXOSC as int)
}

/// The synthesizer word split big-endian across the three contiguous
/// frequency registers.
pub open spec fn frf_bytes_spec(freq_mhz: u32) -> Seq<u8> {
    seq![
        (frf_spec(freq_mhz) / 0x10000 % 0x100) as u8,
        (frf_spec(freq_mhz) / 0x100 % 0x100) as u8,
        (frf_spec(freq_mhz) % 0x100) as u8,
    ]
}

/// The three register bytes that select a carrier of `freq_mhz` megahertz.
pub fn frequency_bytes(freq_mhz: u32) -> (r: [u8; 3])
    requires
        freq_mhz <= u32::MAX / RF69_FSTEP,
    ensures
        r@ == frf_bytes_spec(freq_mhz),
{
    let frf: u32 = (freq_mhz * RF69_FSTEP) / RF69_FXOSC;
    let r = [(frf / 0x10000 % 0x100) as u8, (frf / 0x100 % 0x100) as u8, (frf % 0x100) as u8];
    proof {
        assert(r@ =~= frf_bytes_spec(freq_mhz));
    }
    r
}

/// The five-bit output-power field: the requested power plus `bias`,
/// reduced to the field's thirty-two values exactly as the hardware mask
/// does on the wrapped byte.
pub open spec fn pa_offset_spec(power: i8, bias: int) -> u8 {
    (((power as int) + bias + 128) % 32) as u8
}

fn pa_offset(power: i8, bias: i32) -> (r: u8)
    requires
        0 <= bias <= 127,
    ensures
        r == pa_offset_spec(power, bias as int),
{
    let wide: i32 = power as i32 + bias + 128;
    (wide % 32) as u8
}

/// The power-amplifier control byte for a requested power in dBm. On the
/// boosted topology the request is clamped to [-2, 20]: up to 13 dBm the
/// second stage alone is enabled with bias 18; from 18 dBm the second and
/// third stages are enabled with bias 11 (the boost registers must also be
/// toggled on mode transitions); between them both stages are enabled with
/// bias 14. On the plain topology the request is clamped to [-18, 13] and
/// the first stage alone is enabled with bias 18 on the clamped value.
pub open spec fn pa_level_spec(power: i8, high_power: bool) -> u8 {
    if high_power {
        let clamped = clamp_i8_spec(power, -2i8, 20);
        if clamped <= 13 {
            RF_PALEVEL_PA1_ON | pa_offset_spec(power, 18)
        } else if clamped >= 18 {
            RF_PALEVEL_PA1_ON | RF_PALEVEL_PA2_ON | pa_offset_spec(power, 11)
        } else {
            RF_PALEVEL_PA1_ON | RF_PALEVEL_PA2_ON | pa_offset_spec(power, 14)
        }
    } else {
        RF_PALEVEL_PA0_ON | pa_offset_spec(clamp_i8_spec(power, -18i8, 13), 18)
    }
}

pub fn pa_level(power: i8, high_power: bool) -> (r: u8)
    ensures
        r == pa_level_spec(power, high_power),
{
    if high_power {
        let clamped = clamp_i8(power, -2, 20);
        if clamped <= 13 {
            RF_PALEVEL_PA1_ON | pa_offset(power, 18)
        } else if clamped >= 18 {
            RF_PALEVEL_PA1_ON | RF_PALEVEL_PA2_ON | pa_offset(power, 11)
        } else {
            RF_PALEVEL_PA1_ON | RF_PALEVEL_PA2_ON | pa_offset(power, 14)
        }
    } else {
        let clamped = clamp_i8(power, -18, 13);
        RF_PALEVEL_PA0_ON | pa_offset(clamped, 18)
    }
}

/// Law: for a requested power of eighteen dBm or more on the boosted
/// topology, the control byte enables both the second and the third
/// amplifier stage.
pub proof fn lemma_high_power_enables_both_amps(power: i8)
    requires
        power >= 18,
    ensures
        pa_level_spec(power, true) & (RF_PALEVEL_PA1_ON | RF_PALEVEL_PA2_ON) == (RF_PALEVEL_PA1_ON
            | RF_PALEVEL_PA2_ON),
{
    let off = pa_offset_spec(power, 11);
    assert(off < 32);
    assert((0x40u8 | 0x20 | off) & (0x40u8 | 0x20) == (0x40u8 | 0x20)) by (bit_vector)
        requires
            off < 32,
    ;
}

} // verus!
