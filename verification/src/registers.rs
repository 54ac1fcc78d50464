use vstd::prelude::*;
verus! {
/// Symbolic names for the transceiver's addressable control and status
/// locations. Every address fits in seven bits; bit 7 of a bus opcode
/// selects the transfer direction, so the read and write opcodes of one
/// register differ only in that bit.
#[derive(Copy, Clone)]
pub enum Register {
    /// FIFO read/write access.
    Fifo,
    /// Operating mode control.
    OpMode,
    /// Data mode and modulation.
    DataModul,
    /// Bit rate, high byte.
    BitrateMsb,
    /// Bit rate, low byte.
    BitrateLsb,
    /// Frequency deviation, high byte.
    FdevMsb,
    /// Frequency deviation, low byte.
    FdevLsb,
    /// Carrier frequency, high byte.
    FrfMsb,
    /// Carrier frequency, middle byte.
    FrfMid,
    /// Carrier frequency, low byte.
    FrfLsb,
    /// Oscillator calibration.
    Osc1,
    /// AFC control.
    AfcCtrl,
    /// Low battery detector.
    LowBat,
    /// Listen mode settings.
    Listen1,
    /// Listen mode idle duration.
    Listen2,
    /// Listen mode receive duration.
    Listen3,
    /// Silicon revision.
    Version,
    /// Power amplifier level.
    PaLevel,
    /// Power amplifier ramp time.
    PaRamp,
    /// Overcurrent protection.
    Ocp,
    /// AGC reference level.
    AgcRef,
    /// AGC threshold 1.
    AgcThresh1,
    /// AGC threshold 2.
    AgcThresh2,
    /// AGC threshold 3.
    AgcThresh3,
    /// Low-noise amplifier settings.
    Lna,
    /// Receiver bandwidth.
    RxBw,
    /// AFC bandwidth.
    AfcBw,
    /// OOK demodulator, peak mode.
    OokPeak,
    /// OOK demodulator, average mode.
    OokAvg,
    /// OOK demodulator, fixed threshold.
    OokFix,
    /// AFC and frequency error indicator.
    AfcFei,
    /// AFC correction, high byte.
    AfcMsb,
    /// AFC correction, low byte.
    AfcLsb,
    /// Frequency error, high byte.
    FeiMsb,
    /// Frequency error, low byte.
    FeiLsb,
    /// RSSI measurement control.
    RssiConfig,
    /// Measured rssi.
    RssiValue,
    /// Mapping of pins dio0 to dio3.
    DioMapping1,
    /// Mapping of pins dio4 and dio5.
    DioMapping2,
    /// Status flags, mode and rssi.
    IrqFlags1,
    /// Status flags, FIFO and packet.
    IrqFlags2,
    /// RSSI threshold.
    RssiThresh,
    /// Timeout after receive start.
    RxTimeout1,
    /// Timeout after RSSI detection.
    RxTimeout2,
    /// Preamble length, high byte.
    PreambleMsb,
    /// Preamble length, low byte.
    PreambleLsb,
    /// Sync word configuration.
    SyncConfig,
    /// Sync word, byte 1.
    SyncValue1,
    /// Sync word, byte 2.
    SyncValue2,
    /// Sync word, byte 3.
    SyncValue3,
    /// Sync word, byte 4.
    SyncValue4,
    /// Sync word, byte 5.
    SyncValue5,
    /// Sync word, byte 6.
    SyncValue6,
    /// Sync word, byte 7.
    SyncValue7,
    /// Sync word, byte 8.
    SyncValue8,
    /// Packet format, first control byte.
    PacketConfig1,
    /// Payload length.
    PayloadLength,
    /// Node address.
    NodeAddrs,
    /// Broadcast address.
    BroadcastAddrs,
    /// Automatic mode switching.
    AutoModes,
    /// FIFO threshold.
    FifoThresh,
    /// Packet format, second control byte.
    PacketConfig2,
    /// AES key, byte 1.
    AesKey1,
    /// AES key, byte 2.
    AesKey2,
    /// AES key, byte 3.
    AesKey3,
    /// AES key, byte 4.
    AesKey4,
    /// AES key, byte 5.
    AesKey5,
    /// AES key, byte 6.
    AesKey6,
    /// AES key, byte 7.
    AesKey7,
    /// AES key, byte 8.
    AesKey8,
    /// AES key, byte 9.
    AesKey9,
    /// AES key, byte 10.
    AesKey10,
    /// AES key, byte 11.
    AesKey11,
    /// AES key, byte 12.
    AesKey12,
    /// AES key, byte 13.
    AesKey13,
    /// AES key, byte 14.
    AesKey14,
    /// AES key, byte 15.
    AesKey15,
    /// AES key, byte 16.
    AesKey16,
    /// Temperature sensor control.
    Temp1,
    /// Temperature sensor value.
    Temp2,
    /// LNA sensitivity test setting.
    TestLna,
    /// First power amplifier boost setting.
    TestPa1,
    /// Second power amplifier boost setting.
    TestPa2,
    /// Continuous DAGC test setting.
    TestDagc,
}

impl Register {
    /// The seven-bit address of this register.
    pub open spec fn addr_spec(self) -> u8 {
        match self {
            Register::Fifo => 0x00,
            Register::OpMode => 0x01,
            Register::DataModul => 0x02,
            Register::BitrateMsb => 0x03,
            Register::BitrateLsb => 0x04,
            Register::FdevMsb => 0x05,
            Register::FdevLsb => 0x06,
            Register::FrfMsb => 0x07,
            Register::FrfMid => 0x08,
            Register::FrfLsb => 0x09,
            Register::Osc1 => 0x0A,
            Register::AfcCtrl => 0x0B,
            Register::LowBat => 0x0C,
            Register::Listen1 => 0x0D,
            Register::Listen2 => 0x0E,
            Register::Listen3 => 0x0F,
            Register::Version => 0x10,
            Register::PaLevel => 0x11,
            Register::PaRamp => 0x12,
            Register::Ocp => 0x13,
            Register::AgcRef => 0x14,
            Register::AgcThresh1 => 0x15,
            Register::AgcThresh2 => 0x16,
            Register::AgcThresh3 => 0x17,
            Register::Lna => 0x18,
            Register::RxBw => 0x19,
            Register::AfcBw => 0x1A,
            Register::OokPeak => 0x1B,
            Register::OokAvg => 0x1C,
            Register::OokFix => 0x1D,
            Register::AfcFei => 0x1E,
            Register::AfcMsb => 0x1F,
            Register::AfcLsb => 0x20,
            Register::FeiMsb => 0x21,
            Register::FeiLsb => 0x22,
            Register::RssiConfig => 0x23,
            Register::RssiValue => 0x24,
            Register::DioMapping1 => 0x25,
            Register::DioMapping2 => 0x26,
            Register::IrqFlags1 => 0x27,
            Register::IrqFlags2 => 0x28,
            Register::RssiThresh => 0x29,
            Register::RxTimeout1 => 0x2A,
            Register::RxTimeout2 => 0x2B,
            Register::PreambleMsb => 0x2C,
            Register::PreambleLsb => 0x2D,
            Register::SyncConfig => 0x2E,
            Register::SyncValue1 => 0x2F,
            Register::SyncValue2 => 0x30,
            Register::SyncValue3 => 0x31,
            Register::SyncValue4 => 0x32,
            Register::SyncValue5 => 0x33,
            Register::SyncValue6 => 0x34,
            Register::SyncValue7 => 0x35,
            Register::SyncValue8 => 0x36,
            Register::PacketConfig1 => 0x37,
            Register::PayloadLength => 0x38,
            Register::NodeAddrs => 0x39,
            Register::BroadcastAddrs => 0x3A,
            Register::AutoModes => 0x3B,
            Register::FifoThresh => 0x3C,
            Register::PacketConfig2 => 0x3D,
            Register::AesKey1 => 0x3E,
            Register::AesKey2 => 0x3F,
            Register::AesKey3 => 0x40,
            Register::AesKey4 => 0x41,
            Register::AesKey5 => 0x42,
            Register::AesKey6 => 0x43,
            Register::AesKey7 => 0x44,
            Register::AesKey8 => 0x45,
            Register::AesKey9 => 0x46,
            Register::AesKey10 => 0x47,
            Register::AesKey11 => 0x48,
            Register::AesKey12 => 0x49,
            Register::AesKey13 => 0x4A,
            Register::AesKey14 => 0x4B,
            Register::AesKey15 => 0x4C,
            Register::AesKey16 => 0x4D,
            Register::Temp1 => 0x4E,
            Register::Temp2 => 0x4F,
            Register::TestLna => 0x58,
            Register::TestPa1 => 0x5A,
            Register::TestPa2 => 0x5C,
            Register::TestDagc => 0x6F,
        }
    }

    /// Every address in the map fits in seven bits.
    pub proof fn lemma_addr_in_range(self)
        ensures
            self.addr_spec() <= 0x7F,
    {
    }

    pub fn addr(self) -> (r: u8)
        ensures
            r == self.addr_spec(),
    {
        match self {
            Register::Fifo => 0x00,
            Register::OpMode => 0x01,
            Register::DataModul => 0x02,
            Register::BitrateMsb => 0x03,
            Register::BitrateLsb => 0x04,
            Register::FdevMsb => 0x05,
            Register::FdevLsb => 0x06,
            Register::FrfMsb => 0x07,
            Register::FrfMid => 0x08,
            Register::FrfLsb => 0x09,
            Register::Osc1 => 0x0A,
            Register::AfcCtrl => 0x0B,
            Register::LowBat => 0x0C,
            Register::Listen1 => 0x0D,
            Register::Listen2 => 0x0E,
            Register::Listen3 => 0x0F,
            Register::Version => 0x10,
            Register::PaLevel => 0x11,
            Register::PaRamp => 0x12,
            Register::Ocp => 0x13,
            Register::AgcRef => 0x14,
            Register::AgcThresh1 => 0x15,
            Register::AgcThresh2 => 0x16,
            Register::AgcThresh3 => 0x17,
            Register::Lna => 0x18,
            Register::RxBw => 0x19,
            Register::AfcBw => 0x1A,
            Register::OokPeak => 0x1B,
            Register::OokAvg => 0x1C,
            Register::OokFix => 0x1D,
            Register::AfcFei => 0x1E,
            Register::AfcMsb => 0x1F,
            Register::AfcLsb => 0x20,
            Register::FeiMsb => 0x21,
            Register::FeiLsb => 0x22,
            Register::RssiConfig => 0x23,
            Register::RssiValue => 0x24,
            Register::DioMapping1 => 0x25,
            Register::DioMapping2 => 0x26,
            Register::IrqFlags1 => 0x27,
            Register::IrqFlags2 => 0x28,
            Register::RssiThresh => 0x29,
            Register::RxTimeout1 => 0x2A,
            Register::RxTimeout2 => 0x2B,
            Register::PreambleMsb => 0x2C,
            Register::PreambleLsb => 0x2D,
            Register::SyncConfig => 0x2E,
            Register::SyncValue1 => 0x2F,
            Register::SyncValue2 => 0x30,
            Register::SyncValue3 => 0x31,
            Register::SyncValue4 => 0x32,
            Register::SyncValue5 => 0x33,
            Register::SyncValue6 => 0x34,
            Register::SyncValue7 => 0x35,
            Register::SyncValue8 => 0x36,
            Register::PacketConfig1 => 0x37,
            Register::PayloadLength => 0x38,
            Register::NodeAddrs => 0x39,
            Register::BroadcastAddrs => 0x3A,
            Register::AutoModes => 0x3B,
            Register::FifoThresh => 0x3C,
            Register::PacketConfig2 => 0x3D,
            Register::AesKey1 => 0x3E,
            Register::AesKey2 => 0x3F,
            Register::AesKey3 => 0x40,
            Register::AesKey4 => 0x41,
            Register::AesKey5 => 0x42,
            Register::AesKey6 => 0x43,
            Register::AesKey7 => 0x44,
            Register::AesKey8 => 0x45,
            Register::AesKey9 => 0x46,
            Register::AesKey10 => 0x47,
            Register::AesKey11 => 0x48,
            Register::AesKey12 => 0x49,
            Register::AesKey13 => 0x4A,
            Register::AesKey14 => 0x4B,
            Register::AesKey15 => 0x4C,
            Register::AesKey16 => 0x4D,
            Register::Temp1 => 0x4E,
            Register::Temp2 => 0x4F,
            Register::TestLna => 0x58,
            Register::TestPa1 => 0x5A,
            Register::TestPa2 => 0x5C,
            Register::TestDagc => 0x6F,
        }
    }

    pub open spec fn read_spec(self) -> u8 {
        self.addr_spec() & 0x7F
    }

    pub open spec fn write_spec(self) -> u8 {
        self.addr_spec() | 0x80
    }

    /// The opcode that selects this register for a read transfer:
    /// the address with bit 7 cleared.
    #[verifier::when_used_as_spec(read_spec)]
    pub fn read(self) -> (r: u8)
        ensures
            r == self.read_spec(),
    {
        self.addr() & 0x7F
    }

    /// The opcode that selects this register for a write transfer:
    /// the address with bit 7 set.
    #[verifier::when_used_as_spec(write_spec)]
    pub fn write(self) -> (r: u8)
        ensures
            r == self.write_spec(),
    {
        self.addr() | 0x80
    }
}

/// Law: for every register the write opcode is the read opcode with bit 7
/// set, and the read opcode is the write opcode with bit 7 cleared.
pub proof fn lemma_opcode_bit7(r: Register)
    ensures
        r.write_spec() == r.read_spec() | 0x80,
        r.read_spec() == r.write_spec() & 0x7F,
{
    r.lemma_addr_in_range();
    let a = r.addr_spec();
    assert((a | 0x80) == (a & 0x7F) | 0x80 && (a & 0x7F) == (a | 0x80) & 0x7F) by (bit_vector)
        requires
            a <= 0x7F,
    ;
}

} // verus!
