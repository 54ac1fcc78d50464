use vstd::prelude::*;

use crate::frame::{build_frame, frame_spec, MAX_PAYLOAD};
use crate::read_write::{extends, read_back, wrote, Delay, Pause, ReadWrite, ResetLine, Transaction};
use crate::registers::Register;
use crate::settings::{
    frf_bytes_spec, frequency_bytes, pa_level, pa_level_spec, ContinuousDagc, ModemConfigChoice,
    SyncConfiguration, RF69_FSTEP,
};

verus! {

/// How many times a readiness poll re-reads a status register before the
/// driver gives up. The hardware design has no such bound - an unready
/// chip stalls its host forever - but a verified loop must terminate, so
/// the wait is bounded generously and an exhausted budget is surfaced as
/// `Rfm69Error::Timeout`.
const POLL_BUDGET: u32 = 10000;

/// The driver: the owned bus, reset line, interrupt line and delay
/// capabilities, together with the cached transmit power, the amplifier
/// topology flag, and the operating mode the driver last commanded. The
/// fields are public so that a host can reach its capabilities and a test
/// can stage a state; every operation's contract says what it does to
/// them. The interrupt line is only held for the host: no operation
/// touches it.
pub struct Rfm69<SPI, RESET, INTR, D> {
    pub spi: SPI,
    pub reset_pin: RESET,
    pub intr_pin: INTR,
    pub delay: D,
    pub tx_power: i8,
    pub is_high_power: bool,
    pub current_mode: Rfm69Mode,
}

/// Every way a driver operation can fail. Each kind is returned to the
/// caller at once: there is no retry and no rollback of whatever partial
/// configuration already happened.
#[derive(Debug, Clone, Copy, PartialEq, Eq, Structural)]
pub enum Rfm69Error {
    /// The reset line could not be driven.
    ResetError,
    /// A bus write transaction failed.
    SpiWriteError,
    /// A bus read transaction failed, or the chip did not identify itself.
    SpiReadError,
    /// The caller supplied an invalid sync-word count.
    ConfigurationError,
    /// A payload or length exceeds the frame or buffer capacity.
    MessageTooLarge,
    /// The operation needs receive mode but the driver is in another mode.
    InvalidMode,
    /// The chip did not report readiness within the poll budget.
    Timeout,
}

/// The chip's operating modes. Exactly one is active at a time; the
/// driver caches the mode it last commanded.
#[derive(Debug, Clone, Copy, PartialEq, Eq, Structural)]
pub enum Rfm69Mode {
    Sleep,
    Standby,
    Fs,
    Tx,
    Rx,
}

impl Rfm69Mode {
    /// The mode's three-bit code, placed in bits 2 to 4 of the
    /// mode-control register.
    pub open spec fn bits_spec(self) -> u8 {
        match self {
            Rfm69Mode::Sleep => 0x00,
            Rfm69Mode::Standby => 0x04,
            Rfm69Mode::Fs => 0x08,
            Rfm69Mode::Tx => 0x0C,
            Rfm69Mode::Rx => 0x10,
        }
    }

    #[verifier::when_used_as_spec(bits_spec)]
    pub fn bits(self) -> (r: u8)
        ensures
            r == self.bits_spec(),
    {
        match self {
            Rfm69Mode::Sleep => 0x00,
            Rfm69Mode::Standby => 0x04,
            Rfm69Mode::Fs => 0x08,
            Rfm69Mode::Tx => 0x0C,
            Rfm69Mode::Rx => 0x10,
        }
    }
}

/// The mode-control byte after switching to `mode`: the three mode bits
/// are replaced, every other bit of the current value is preserved.
pub open spec fn opmode_with_spec(current: u8, mode: Rfm69Mode) -> u8 {
    (current & !0x1Cu8) | (mode.bits_spec() & 0x1C)
}

/// The bus transactions of a successful initialization, oldest first,
/// before the final transition to standby: the revision read, then the
/// defaults in programming order - FIFO threshold, improved-low-beta
/// DAGC, LNA gain, the auto-fill sync policy with the two default sync
/// words, the cleared boost registers, the three bursts of the default
/// modem preset, a four-byte preamble, 13 dBm transmit power on the
/// driver's topology, and a 915 MHz carrier.
pub open spec fn init_ops_spec(pre: Seq<Transaction>, high_power: bool) -> Seq<Transaction> {
    pre.push(read_back(Register::Version, seq![0x24u8])).push(
        wrote(Register::FifoThresh, seq![0x8Fu8]),
    ).push(wrote(Register::TestDagc, seq![0x30u8])).push(wrote(Register::Lna, seq![0x88u8])).push(
        wrote(Register::SyncConfig, seq![0x88u8, 0x2Du8, 0xD4u8]),
    ).push(wrote(Register::TestPa1, seq![0x55u8])).push(wrote(Register::TestPa2, seq![0x70u8])).push(
        wrote(Register::DataModul, ModemConfigChoice::GfskRb250Fd250.values_spec().subrange(0, 5)),
    ).push(
        wrote(Register::RxBw, ModemConfigChoice::GfskRb250Fd250.values_spec().subrange(5, 7)),
    ).push(
        wrote(Register::PacketConfig1, seq![ModemConfigChoice::GfskRb250Fd250.values_spec()[7]]),
    ).push(wrote(Register::PreambleMsb, seq![0x00u8, 0x04u8])).push(
        wrote(Register::PaLevel, seq![pa_level_spec(13, high_power)]),
    ).push(wrote(Register::FrfMsb, seq![0xE4u8, 0xC0u8, 0x00u8]))
}

/// A complete radio configuration, for hosts that keep their settings in
/// one record.
pub struct Rfm69Config {
    pub sync_configuration: SyncConfiguration,
    pub sync_words: [u8; 8],
    pub modem_config: ModemConfigChoice,
    pub preamble_length: u16,
    pub frequency: u32,
    pub tx_power: i8,
    pub is_high_power: bool,
}

impl<SPI, RESET, INTR, D> Rfm69<SPI, RESET, INTR, D> where
    SPI: ReadWrite,
    RESET: ResetLine,
    D: Delay,
 {
    /// The reset line, interrupt line and delay are the same before and
    /// after an operation.
    pub open spec fn peripherals_unchanged(self, post: Self) -> bool {
        &&& self.reset_pin == post.reset_pin
        &&& self.intr_pin == post.intr_pin
        &&& self.delay == post.delay
    }

    /// The two pins are the same before and after an operation that may
    /// pause.
    pub open spec fn pins_unchanged(self, post: Self) -> bool {
        &&& self.reset_pin == post.reset_pin
        &&& self.intr_pin == post.intr_pin
    }

    /// The cached transmit power, topology flag and mode are the same
    /// before and after an operation.
    pub open spec fn cache_unchanged(self, post: Self) -> bool {
        &&& self.tx_power == post.tx_power
        &&& self.is_high_power == post.is_high_power
        &&& self.current_mode == post.current_mode
    }

    /// A fresh driver around the four capabilities: transmit power starts
    /// at 13 dBm on the boosted topology, and the chip is assumed to be in
    /// standby.
    pub fn new(spi: SPI, reset_pin: RESET, intr_pin: INTR, delay: D) -> (r: Self)
        ensures
            r.spi == spi,
            r.reset_pin == reset_pin,
            r.intr_pin == intr_pin,
            r.delay == delay,
            r.tx_power == 13,
            r.is_high_power == true,
            r.current_mode == Rfm69Mode::Standby,
    {
        Rfm69 {
            spi,
            reset_pin,
            intr_pin,
            delay,
            tx_power: 13,
            is_high_power: true,
            current_mode: Rfm69Mode::Standby,
        }
    }

    /// Pulse the reset pin: drive it high, hold 100 microseconds, drive it
    /// low, and give the chip 5 milliseconds to settle. The timings are
    /// hardware-mandated minimums.
    pub fn reset(&mut self) -> (r: Result<(), Rfm69Error>)
        ensures
            final(self).spi == old(self).spi,
            final(self).intr_pin == old(self).intr_pin,
            old(self).cache_unchanged(*final(self)),
            r is Ok ==> final(self).reset_pin.levels() == old(self).reset_pin.levels().push(
                true,
            ).push(false) && final(self).delay.pauses() == old(self).delay.pauses().push(
                Pause::Micros(100),
            ).push(Pause::Millis(5)),
            r matches Err(e) ==> e == Rfm69Error::ResetError,
    {
        match self.reset_pin.set_high() {
            Ok(()) => (),
            Err(_) => {
                return Err(Rfm69Error::ResetError);
            },
        }
        self.delay.delay_us(100);
        match self.reset_pin.set_low() {
            Ok(()) => (),
            Err(_) => {
                return Err(Rfm69Error::ResetError);
            },
        }
        self.delay.delay_ms(5);
        Ok(())
    }

    /// One burst write through the transport, with its failure mapped to
    /// the driver's error kind.
    fn write_many(&mut self, register: Register, values: &[u8]) -> (r: Result<(), Rfm69Error>)
        ensures
            old(self).peripherals_unchanged(*final(self)),
            old(self).cache_unchanged(*final(self)),
            r is Ok ==> final(self).spi.ops() == old(self).spi.ops().push(
                wrote(register, values@),
            ),
            r matches Err(e) ==> e == Rfm69Error::SpiWriteError && final(self).spi.ops() == old(
                self,
            ).spi.ops(),
    {
        match self.spi.write_many(register, values) {
            Ok(()) => Ok(()),
            Err(_) => Err(Rfm69Error::SpiWriteError),
        }
    }

    /// One burst read through the transport, with its failure mapped to
    /// the driver's error kind.
    fn read_many(&mut self, register: Register, count: usize) -> (r: Result<Vec<u8>, Rfm69Error>)
        ensures
            old(self).peripherals_unchanged(*final(self)),
            old(self).cache_unchanged(*final(self)),
            r matches Ok(data) ==> data@.len() == count && final(self).spi.ops() == old(
                self,
            ).spi.ops().push(read_back(register, data@)),
            r matches Err(e) ==> e == Rfm69Error::SpiReadError && final(self).spi.ops() == old(
                self,
            ).spi.ops(),
    {
        match self.spi.read_many(register, count) {
            Ok(data) => Ok(data),
            Err(_) => Err(Rfm69Error::SpiReadError),
        }
    }

    /// Write one byte to one register.
    fn write_register(&mut self, register: Register, value: u8) -> (r: Result<(), Rfm69Error>)
        ensures
            old(self).peripherals_unchanged(*final(self)),
            old(self).cache_unchanged(*final(self)),
            r is Ok ==> final(self).spi.ops() == old(self).spi.ops().push(
                wrote(register, seq![value]),
            ),
            r matches Err(e) ==> e == Rfm69Error::SpiWriteError && final(self).spi.ops() == old(
                self,
            ).spi.ops(),
    {
        let mut values: Vec<u8> = Vec::new();
        values.push(value);
        proof {
            assert(values@ =~= seq![value]);
        }
        self.write_many(register, values.as_slice())
    }

    /// Read one byte from one register.
    fn read_register(&mut self, register: Register) -> (r: Result<u8, Rfm69Error>)
        ensures
            old(self).peripherals_unchanged(*final(self)),
            old(self).cache_unchanged(*final(self)),
            r matches Ok(v) ==> final(self).spi.ops() == old(self).spi.ops().push(
                read_back(register, seq![v]),
            ),
            r matches Err(e) ==> e == Rfm69Error::SpiReadError && final(self).spi.ops() == old(
                self,
            ).spi.ops(),
    {
        match self.read_many(register, 1) {
            Ok(data) => {
                let v = data[0];
                proof {
                    assert(data@ =~= seq![v]);
                }
                Ok(v)
            },
            Err(e) => Err(e),
        }
    }

    /// Read the chip's silicon revision byte.
    pub fn read_revision(&mut self) -> (r: Result<u8, Rfm69Error>)
        ensures
            old(self).peripherals_unchanged(*final(self)),
            old(self).cache_unchanged(*final(self)),
            r matches Ok(v) ==> final(self).spi.ops() == old(self).spi.ops().push(
                read_back(Register::Version, seq![v]),
            ),
            r matches Err(e) ==> e == Rfm69Error::SpiReadError && final(self).spi.ops() == old(
                self,
            ).spi.ops(),
    {
        self.read_register(Register::Version)
    }

    /// Read the RSSI register and return half its raw value: the device
    /// reports at half-decibel granularity.
    pub fn rssi(&mut self) -> (r: Result<u8, Rfm69Error>)
        ensures
            old(self).peripherals_unchanged(*final(self)),
            old(self).cache_unchanged(*final(self)),
            r matches Ok(v) ==> exists|raw: u8|
                final(self).spi.ops() == old(self).spi.ops().push(
                    read_back(Register::RssiValue, seq![raw]),
                ) && v == raw / 2,
            r matches Err(e) ==> e == Rfm69Error::SpiReadError && final(self).spi.ops() == old(
                self,
            ).spi.ops(),
    {
        match self.read_register(Register::RssiValue) {
            Ok(raw) => {
                let v = raw / 2;
                proof {
                    assert(self.spi.ops() == old(self).spi.ops().push(
                        read_back(Register::RssiValue, seq![raw]),
                    ) && v == raw / 2);
                }
                Ok(v)
            },
            Err(e) => Err(e),
        }
    }

    /// Program the default FIFO threshold: transmit as soon as the FIFO is
    /// non-empty, interrupt at fifteen bytes.
    pub fn set_default_fifo_threshold(&mut self) -> (r: Result<(), Rfm69Error>)
        ensures
            old(self).peripherals_unchanged(*final(self)),
            old(self).cache_unchanged(*final(self)),
            r is Ok ==> final(self).spi.ops() == old(self).spi.ops().push(
                wrote(Register::FifoThresh, seq![0x8Fu8]),
            ),
            r matches Err(e) ==> e == Rfm69Error::SpiWriteError && final(self).spi.ops() == old(
                self,
            ).spi.ops(),
    {
        self.write_register(Register::FifoThresh, 0x8F)
    }

    /// Program the continuous DAGC behaviour.
    pub fn set_dagc(&mut self, value: ContinuousDagc) -> (r: Result<(), Rfm69Error>)
        ensures
            old(self).peripherals_unchanged(*final(self)),
            old(self).cache_unchanged(*final(self)),
            r is Ok ==> final(self).spi.ops() == old(self).spi.ops().push(
                wrote(Register::TestDagc, seq![value.value_spec()]),
            ),
            r matches Err(e) ==> e == Rfm69Error::SpiWriteError && final(self).spi.ops() == old(
                self,
            ).spi.ops(),
    {
        let v = value.value();
        self.write_register(Register::TestDagc, v)
    }

    /// Program the preamble length as a two-byte big-endian burst.
    pub fn set_preamble_length(&mut self, preamble_length: u16) -> (r: Result<(), Rfm69Error>)
        ensures
            old(self).peripherals_unchanged(*final(self)),
            old(self).cache_unchanged(*final(self)),
            r is Ok ==> final(self).spi.ops() == old(self).spi.ops().push(
                wrote(
                    Register::PreambleMsb,
                    seq![(preamble_length >> 8) as u8, (preamble_length & 0xFF) as u8],
                ),
            ),
            r matches Err(e) ==> e == Rfm69Error::SpiWriteError && final(self).spi.ops() == old(
                self,
            ).spi.ops(),
    {
        proof {
            assert(preamble_length >> 8 <= 0xFF && preamble_length & 0xFF <= 0xFF)
                by (bit_vector);
        }
        let msb = (preamble_length >> 8) as u8;
        let lsb = (preamble_length & 0xFF) as u8;
        let mut buffer: Vec<u8> = Vec::new();
        buffer.push(msb);
        buffer.push(lsb);
        proof {
            assert(buffer@ =~= seq![(preamble_length >> 8) as u8, (preamble_length & 0xFF) as u8]);
        }
        self.write_many(Register::PreambleMsb, buffer.as_slice())
    }

    /// Program the carrier frequency: the synthesizer word for `freq_mhz`
    /// megahertz, burst-written big-endian to the three frequency
    /// registers.
    pub fn set_frequency(&mut self, freq_mhz: u32) -> (r: Result<(), Rfm69Error>)
        requires
            freq_mhz <= u32::MAX / RF69_FSTEP,
        ensures
            old(self).peripherals_unchanged(*final(self)),
            old(self).cache_unchanged(*final(self)),
            r is Ok ==> final(self).spi.ops() == old(self).spi.ops().push(
                wrote(Register::FrfMsb, frf_bytes_spec(freq_mhz)),
            ),
            r matches Err(e) ==> e == Rfm69Error::SpiWriteError && final(self).spi.ops() == old(
                self,
            ).spi.ops(),
    {
        let bytes = frequency_bytes(freq_mhz);
        let mut buffer: Vec<u8> = Vec::new();
        buffer.push(bytes[0]);
        buffer.push(bytes[1]);
        buffer.push(bytes[2]);
        proof {
            assert(buffer@ =~= frf_bytes_spec(freq_mhz));
        }
        self.write_many(Register::FrfMsb, buffer.as_slice())
    }

    /// Program the transmit power: derive the amplifier control byte for
    /// the requested power on the current topology, write it, and cache
    /// the requested power verbatim for later mode transitions.
    pub fn set_tx_power(&mut self, tx_power: i8) -> (r: Result<(), Rfm69Error>)
        ensures
            old(self).peripherals_unchanged(*final(self)),
            final(self).is_high_power == old(self).is_high_power,
            final(self).current_mode == old(self).current_mode,
            r is Ok ==> final(self).tx_power == tx_power && final(self).spi.ops() == old(
                self,
            ).spi.ops().push(
                wrote(Register::PaLevel, seq![pa_level_spec(tx_power, old(self).is_high_power)]),
            ),
            r matches Err(e) ==> e == Rfm69Error::SpiWriteError && final(self).tx_power == old(
                self,
            ).tx_power && final(self).spi.ops() == old(self).spi.ops(),
    {
        let level = pa_level(tx_power, self.is_high_power);
        match self.write_register(Register::PaLevel, level) {
            Ok(()) => {
                self.tx_power = tx_power;
                Ok(())
            },
            Err(e) => Err(e),
        }
    }

    /// Program the sync word: validate the word count, then burst-write
    /// the encoded configuration byte followed by the words themselves to
    /// the sync-configuration register.
    #[verifier::loop_isolation(false)]
    pub fn set_sync_words(&mut self, config: SyncConfiguration, sync_words: &[u8]) -> (r: Result<
        (),
        Rfm69Error,
    >)
        ensures
            old(self).peripherals_unchanged(*final(self)),
            old(self).cache_unchanged(*final(self)),
            (sync_words@.len() == 0 || sync_words@.len() > 8) <==> (r matches Err(e) && e
                == Rfm69Error::ConfigurationError),
            (sync_words@.len() == 0 || sync_words@.len() > 8) ==> *final(self) == *old(self),
            r is Ok ==> final(self).spi.ops() == old(self).spi.ops().push(
                wrote(
                    Register::SyncConfig,
                    seq![config.value_spec(sync_words@.len() as u8)] + sync_words@,
                ),
            ),
            r matches Err(e) ==> (e == Rfm69Error::ConfigurationError || e
                == Rfm69Error::SpiWriteError) && final(self).spi.ops() == old(self).spi.ops(),
    {
        if sync_words.len() > 8 || sync_words.len() == 0 {
            return Err(Rfm69Error::ConfigurationError);
        }
        let count = sync_words.len() as u8;
        let cfg = config.value(count);
        let mut buffer: Vec<u8> = Vec::new();
        buffer.push(cfg);
        let mut i: usize = 0;
        while i < sync_words.len()
            invariant
                i <= sync_words@.len(),
                buffer@ == seq![cfg] + sync_words@.subrange(0, i as int),
            decreases sync_words@.len() - i,
        {
            buffer.push(sync_words[i]);
            proof {
                assert(buffer@ =~= seq![cfg] + sync_words@.subrange(0, i + 1));
            }
            i = i + 1;
        }
        proof {
            assert(buffer@ =~= seq![cfg] + sync_words@);
        }
        self.write_many(Register::SyncConfig, buffer.as_slice())
    }

    /// Program a modem preset: its first five bytes go to the
    /// data-modulation, bit-rate and deviation registers as one burst, the
    /// two bandwidth bytes as a second burst, and the packet-format byte
    /// as a single write.
    pub fn set_modem_config(&mut self, config: ModemConfigChoice) -> (r: Result<(), Rfm69Error>)
        ensures
            old(self).peripherals_unchanged(*final(self)),
            old(self).cache_unchanged(*final(self)),
            extends(old(self).spi.ops(), final(self).spi.ops()),
            r is Ok ==> final(self).spi.ops() == old(self).spi.ops().push(
                wrote(Register::DataModul, config.values_spec().subrange(0, 5)),
            ).push(wrote(Register::RxBw, config.values_spec().subrange(5, 7))).push(
                wrote(Register::PacketConfig1, seq![config.values_spec()[7]]),
            ),
            r matches Err(e) ==> e == Rfm69Error::SpiWriteError,
    {
        let values = config.values();
        let mut head: Vec<u8> = Vec::new();
        head.push(values[0]);
        head.push(values[1]);
        head.push(values[2]);
        head.push(values[3]);
        head.push(values[4]);
        proof {
            assert(head@ =~= config.values_spec().subrange(0, 5));
        }
        match self.write_many(Register::DataModul, head.as_slice()) {
            Ok(()) => (),
            Err(e) => {
                return Err(e);
            },
        }
        let mut bw: Vec<u8> = Vec::new();
        bw.push(values[5]);
        bw.push(values[6]);
        proof {
            assert(bw@ =~= config.values_spec().subrange(5, 7));
        }
        match self.write_many(Register::RxBw, bw.as_slice()) {
            Ok(()) => (),
            Err(e) => {
                return Err(e);
            },
        }
        match self.write_register(Register::PacketConfig1, values[7]) {
            Ok(()) => (),
            Err(e) => {
                return Err(e);
            },
        }
        Ok(())
    }

    /// Command an operating mode. Commanding the mode already cached does
    /// nothing at all. Otherwise: entering transmit or receive with a
    /// cached power of 18 dBm or more first rewrites the two boost test
    /// registers (the boost circuit must be toggled independently of the
    /// mode bits); then the mode-control register is read, its three mode
    /// bits are replaced with the target's code and every other bit is
    /// kept, the byte is written back, and the driver polls the status
    /// register until the chip reports the mode ready. Only then is the
    /// target mode cached.
    #[verifier::loop_isolation(false)]
    pub fn set_mode(&mut self, mode: Rfm69Mode) -> (r: Result<(), Rfm69Error>)
        ensures
            old(self).pins_unchanged(*final(self)),
            final(self).tx_power == old(self).tx_power,
            final(self).is_high_power == old(self).is_high_power,
            extends(old(self).spi.ops(), final(self).spi.ops()),
            old(self).current_mode == mode ==> r is Ok && *final(self) == *old(self),
            r is Ok ==> final(self).current_mode == mode,
            r matches Err(e) ==> final(self).current_mode == old(self).current_mode && (e
                == Rfm69Error::SpiWriteError || e == Rfm69Error::SpiReadError || e
                == Rfm69Error::Timeout),
            r is Ok && old(self).current_mode != mode && mode == Rfm69Mode::Tx
                && old(self).tx_power >= 18
                ==> final(self).spi.ops()[old(self).spi.ops().len() as int] == wrote(
                Register::TestPa1,
                seq![0x5Du8],
            ) && final(self).spi.ops()[old(self).spi.ops().len() as int + 1] == wrote(
                Register::TestPa2,
                seq![0x7Cu8],
            ),
            r is Ok && old(self).current_mode != mode && mode == Rfm69Mode::Rx
                && old(self).tx_power >= 18
                ==> final(self).spi.ops()[old(self).spi.ops().len() as int] == wrote(
                Register::TestPa1,
                seq![0x55u8],
            ) && final(self).spi.ops()[old(self).spi.ops().len() as int + 1] == wrote(
                Register::TestPa2,
                seq![0x70u8],
            ),
            r is Ok && old(self).current_mode != mode ==> exists|k: int, k2: int|
                {
                    &&& old(self).spi.ops().len() <= k
                    &&& k + 1 < k2 < final(self).spi.ops().len()
                    &&& (#[trigger] final(self).spi.ops()[k]) matches Transaction::Read {
                        opcode,
                        data,
                    } && opcode == Register::OpMode.read_spec() && data.len() == 1
                        && final(self).spi.ops()[k + 1]
                        == wrote(Register::OpMode, seq![opmode_with_spec(data[0], mode)])
                    &&& (#[trigger] final(self).spi.ops()[k2]) matches Transaction::Read {
                        opcode: ready_opcode,
                        data: ready_data,
                    } && ready_opcode == Register::IrqFlags1.read_spec() && ready_data.len() == 1
                        && ready_data[0] & 0x80 != 0
                },
            old(self).current_mode != mode && !(old(self).tx_power >= 18 && (mode == Rfm69Mode::Tx
                || mode == Rfm69Mode::Rx)) && final(self).spi.ops().len() > old(
                self,
            ).spi.ops().len() ==> (final(self).spi.ops()[old(self).spi.ops().len() as int] matches
                Transaction::Read { opcode, data } && opcode == Register::OpMode.read_spec()
                && data.len() == 1),
            old(self).current_mode != mode && !(old(self).tx_power >= 18 && (mode == Rfm69Mode::Tx
                || mode == Rfm69Mode::Rx)) ==> forall|i: int|
                old(self).spi.ops().len() <= i < final(self).spi.ops().len() ==> (
                #[trigger] final(self).spi.ops()[i]) is Read || i == old(self).spi.ops().len() + 1,
    {
        if self.current_mode == mode {
            return Ok(());
        }
        match mode {
            Rfm69Mode::Rx => {
                if self.tx_power >= 18 {
                    match self.write_register(Register::TestPa1, 0x55) {
                        Ok(()) => (),
                        Err(e) => {
                            return Err(e);
                        },
                    }
                    match self.write_register(Register::TestPa2, 0x70) {
                        Ok(()) => (),
                        Err(e) => {
                            return Err(e);
                        },
                    }
                }
            },
            Rfm69Mode::Tx => {
                if self.tx_power >= 18 {
                    match self.write_register(Register::TestPa1, 0x5D) {
                        Ok(()) => (),
                        Err(e) => {
                            return Err(e);
                        },
                    }
                    match self.write_register(Register::TestPa2, 0x7C) {
                        Ok(()) => (),
                        Err(e) => {
                            return Err(e);
                        },
                    }
                }
            },
            _ => {},
        }
        let ghost boost_ops = self.spi.ops();
        let current = match self.read_register(Register::OpMode) {
            Ok(v) => v,
            Err(e) => {
                return Err(e);
            },
        };
        let ghost read_at = self.spi.ops().len() - 1;
        let next = (current & !0x1C) | (mode.bits() & 0x1C);
        match self.write_register(Register::OpMode, next) {
            Ok(()) => (),
            Err(e) => {
                return Err(e);
            },
        }
        let mut tries: u32 = 0;
        let mut ready = false;
        let ghost mut ready_at: int = 0;
        let ghost mut ready_flags: u8 = 0;
        while !ready && tries < POLL_BUDGET
            invariant
                old(self).pins_unchanged(*self),
                self.tx_power == old(self).tx_power,
                self.is_high_power == old(self).is_high_power,
                self.current_mode == old(self).current_mode,
                extends(old(self).spi.ops(), boost_ops),
                extends(boost_ops, self.spi.ops()),
                mode == Rfm69Mode::Tx && old(self).tx_power >= 18 ==> boost_ops.len() >= old(
                    self,
                ).spi.ops().len() + 2 && boost_ops[old(self).spi.ops().len() as int] == wrote(
                    Register::TestPa1,
                    seq![0x5Du8],
                ) && boost_ops[old(self).spi.ops().len() as int + 1] == wrote(
                    Register::TestPa2,
                    seq![0x7Cu8],
                ),
                mode == Rfm69Mode::Rx && old(self).tx_power >= 18 ==> boost_ops.len() >= old(
                    self,
                ).spi.ops().len() + 2 && boost_ops[old(self).spi.ops().len() as int] == wrote(
                    Register::TestPa1,
                    seq![0x55u8],
                ) && boost_ops[old(self).spi.ops().len() as int + 1] == wrote(
                    Register::TestPa2,
                    seq![0x70u8],
                ),
                old(self).spi.ops().len() <= read_at,
                read_at + 1 < self.spi.ops().len(),
                self.spi.ops()[read_at] == read_back(Register::OpMode, seq![current]),
                self.spi.ops()[read_at + 1] == wrote(
                    Register::OpMode,
                    seq![opmode_with_spec(current, mode)],
                ),
                ready ==> read_at + 1 < ready_at < self.spi.ops().len() && self.spi.ops()[ready_at]
                    == read_back(Register::IrqFlags1, seq![ready_flags]) && ready_flags & 0x80
                    != 0,
                forall|i: int|
                    boost_ops.len() <= i < self.spi.ops().len() && i != read_at + 1 ==> (
                    #[trigger] self.spi.ops()[i]) is Read,
            decreases POLL_BUDGET - tries, (if ready { 0int } else { 1int }),
        {
            let flags = match self.read_register(Register::IrqFlags1) {
                Ok(v) => v,
                Err(e) => {
                    return Err(e);
                },
            };
            if flags & 0x80 != 0 {
                proof {
                    ready_at = self.spi.ops().len() - 1;
                    ready_flags = flags;
                }
                ready = true;
            } else {
                tries = tries + 1;
                self.delay.delay_ms(10);
            }
        }
        if !ready {
            return Err(Rfm69Error::Timeout);
        }
        proof {
            assert(self.spi.ops()[read_at] == read_back(Register::OpMode, seq![current]));
            assert(self.spi.ops()[ready_at] == read_back(
                Register::IrqFlags1,
                seq![ready_flags],
            ));
        }
        self.current_mode = mode;
        Ok(())
    }

    /// Poll the status register until the chip reports the packet sent.
    #[verifier::loop_isolation(false)]
    fn wait_packet_sent(&mut self) -> (r: Result<(), Rfm69Error>)
        ensures
            old(self).pins_unchanged(*final(self)),
            old(self).cache_unchanged(*final(self)),
            extends(old(self).spi.ops(), final(self).spi.ops()),
            r is Ok ==> exists|v: u8|
                final(self).spi.ops().len() > 0 && final(self).spi.ops().last() == read_back(
                    Register::IrqFlags2,
                    seq![v],
                ) && v & 0x08 != 0,
            r matches Err(e) ==> e == Rfm69Error::SpiReadError || e == Rfm69Error::Timeout,
    {
        let mut tries: u32 = 0;
        while tries < POLL_BUDGET
            invariant
                old(self).pins_unchanged(*self),
                old(self).cache_unchanged(*self),
                extends(old(self).spi.ops(), self.spi.ops()),
            decreases POLL_BUDGET - tries,
        {
            let flags = match self.read_register(Register::IrqFlags2) {
                Ok(v) => v,
                Err(e) => {
                    return Err(e);
                },
            };
            if flags & 0x08 != 0 {
                proof {
                    assert(self.spi.ops().last() == read_back(Register::IrqFlags2, seq![flags])
                        && flags & 0x08 != 0);
                }
                return Ok(());
            }
            tries = tries + 1;
            self.delay.delay_ms(10);
        }
        Err(Rfm69Error::Timeout)
    }

    /// Frame and transmit a payload: build the frame, burst-write it to
    /// the FIFO, switch to transmit, wait for the packet to leave, and
    /// return to standby. A payload over `MAX_PAYLOAD` bytes is rejected
    /// before anything touches the bus.
    pub fn send(&mut self, data: &[u8]) -> (r: Result<(), Rfm69Error>)
        ensures
            old(self).pins_unchanged(*final(self)),
            final(self).tx_power == old(self).tx_power,
            final(self).is_high_power == old(self).is_high_power,
            extends(old(self).spi.ops(), final(self).spi.ops()),
            data@.len() > MAX_PAYLOAD ==> (r matches Err(e) && e == Rfm69Error::MessageTooLarge)
                && *final(self) == *old(self),
            r matches Err(e) && e == Rfm69Error::MessageTooLarge ==> data@.len() > MAX_PAYLOAD,
            r is Ok ==> {
                &&& data@.len() <= MAX_PAYLOAD
                &&& final(self).current_mode == Rfm69Mode::Standby
                &&& final(self).spi.ops().len() > old(self).spi.ops().len()
                &&& final(self).spi.ops()[old(self).spi.ops().len() as int] == wrote(
                    Register::Fifo,
                    frame_spec(data@),
                )
            },
            r is Ok ==> exists|k: int|
                {
                    &&& old(self).spi.ops().len() < k < final(self).spi.ops().len()
                    &&& (#[trigger] final(self).spi.ops()[k]) matches Transaction::Read {
                        opcode,
                        data: flags,
                    } && opcode == Register::IrqFlags2.read_spec() && flags.len() == 1
                        && flags[0] & 0x08 != 0
                },
            r matches Err(e) ==> (e == Rfm69Error::MessageTooLarge || e == Rfm69Error::SpiWriteError
                || e == Rfm69Error::SpiReadError || e == Rfm69Error::Timeout),
    {
        if data.len() > MAX_PAYLOAD {
            return Err(Rfm69Error::MessageTooLarge);
        }
        let frame = build_frame(data);
        match self.write_many(Register::Fifo, frame.as_slice()) {
            Ok(()) => (),
            Err(e) => {
                return Err(e);
            },
        }
        match self.set_mode(Rfm69Mode::Tx) {
            Ok(()) => (),
            Err(e) => {
                return Err(e);
            },
        }
        match self.wait_packet_sent() {
            Ok(()) => (),
            Err(e) => {
                return Err(e);
            },
        }
        let ghost sent_at = self.spi.ops().len() - 1;
        proof {
            let v = choose|v: u8|
                self.spi.ops().len() > 0 && self.spi.ops().last() == read_back(
                    Register::IrqFlags2,
                    seq![v],
                ) && v & 0x08 != 0;
            assert(self.spi.ops()[sent_at] == read_back(Register::IrqFlags2, seq![v])
                && v & 0x08 != 0);
        }
        match self.set_mode(Rfm69Mode::Standby) {
            Ok(()) => (),
            Err(e) => {
                return Err(e);
            },
        }
        Ok(())
    }

    /// Whether a received payload is waiting in the FIFO. The driver must
    /// be in receive mode: in any other cached mode the call fails without
    /// touching the bus, whatever the hardware's actual state.
    pub fn is_message_available(&mut self) -> (r: Result<bool, Rfm69Error>)
        ensures
            old(self).peripherals_unchanged(*final(self)),
            old(self).cache_unchanged(*final(self)),
            (old(self).current_mode != Rfm69Mode::Rx) <==> (r matches Err(e) && e
                == Rfm69Error::InvalidMode),
            old(self).current_mode != Rfm69Mode::Rx ==> *final(self) == *old(self),
            r matches Ok(b) ==> exists|v: u8|
                final(self).spi.ops() == old(self).spi.ops().push(
                    read_back(Register::IrqFlags2, seq![v]),
                ) && b == ((v & 0x04) == 0x04),
            r matches Err(e) ==> (e == Rfm69Error::InvalidMode || e == Rfm69Error::SpiReadError)
                && final(self).spi.ops() == old(self).spi.ops(),
    {
        if self.current_mode != Rfm69Mode::Rx {
            return Err(Rfm69Error::InvalidMode);
        }
        match self.read_register(Register::IrqFlags2) {
            Ok(v) => {
                let b = (v & 0x04) == 0x04;
                proof {
                    assert(self.spi.ops() == old(self).spi.ops().push(
                        read_back(Register::IrqFlags2, seq![v]),
                    ) && b == ((v & 0x04) == 0x04));
                }
                Ok(b)
            },
            Err(e) => Err(e),
        }
    }

    /// Poll until a received payload is waiting, pausing a second between
    /// polls. The driver must be in receive mode.
    #[verifier::loop_isolation(false)]
    pub fn wait_for_message(&mut self) -> (r: Result<(), Rfm69Error>)
        ensures
            old(self).pins_unchanged(*final(self)),
            old(self).cache_unchanged(*final(self)),
            extends(old(self).spi.ops(), final(self).spi.ops()),
            (old(self).current_mode != Rfm69Mode::Rx) <==> (r matches Err(e) && e
                == Rfm69Error::InvalidMode),
            r is Ok ==> exists|v: u8|
                final(self).spi.ops().len() > 0 && final(self).spi.ops().last() == read_back(
                    Register::IrqFlags2,
                    seq![v],
                ) && v & 0x04 != 0,
            r matches Err(e) ==> (e == Rfm69Error::InvalidMode || e == Rfm69Error::SpiReadError || e
                == Rfm69Error::Timeout),
    {
        let mut tries: u32 = 0;
        while tries < POLL_BUDGET
            invariant
                old(self).pins_unchanged(*self),
                old(self).cache_unchanged(*self),
                extends(old(self).spi.ops(), self.spi.ops()),
                tries > 0 ==> old(self).current_mode == Rfm69Mode::Rx,
            decreases POLL_BUDGET - tries,
        {
            let ghost old_ops = self.spi.ops();
            let available = match self.is_message_available() {
                Ok(b) => b,
                Err(e) => {
                    return Err(e);
                },
            };
            if available {
                proof {
                    let v = choose|v: u8|
                        self.spi.ops() == old_ops.push(read_back(Register::IrqFlags2, seq![v]))
                            && available == ((v & 0x04) == 0x04);
                    assert(self.spi.ops().last() == read_back(Register::IrqFlags2, seq![v])
                        && v & 0x04 != 0);
                }
                return Ok(());
            }
            tries = tries + 1;
            self.delay.delay_ms(1000);
        }
        Err(Rfm69Error::Timeout)
    }

    /// Read one received payload out of the FIFO into the front of
    /// `buffer`: the length byte first, then the four header bytes, which
    /// are discarded, then the payload. Fails with `MessageTooLarge` when
    /// the announced length exceeds the buffer, or when it is under the
    /// four bytes every well-formed frame counts for its header. Bytes of
    /// `buffer` beyond the payload keep their old values.
    #[verifier::loop_isolation(false)]
    pub fn receive(&mut self, buffer: &mut Vec<u8>) -> (r: Result<usize, Rfm69Error>)
        ensures
            old(self).peripherals_unchanged(*final(self)),
            old(self).cache_unchanged(*final(self)),
            extends(old(self).spi.ops(), final(self).spi.ops()),
            final(buffer)@.len() == old(buffer)@.len(),
            r matches Err(e) ==> final(buffer)@ == old(buffer)@ && (e == Rfm69Error::SpiReadError
                || e == Rfm69Error::MessageTooLarge),
            r matches Ok(n) ==> exists|len_byte: u8, header: Seq<u8>, payload: Seq<u8>|
                {
                    &&& 4 <= len_byte
                    &&& len_byte as int <= old(buffer)@.len()
                    &&& n == len_byte - 4
                    &&& header.len() == 4
                    &&& payload.len() == n
                    &&& final(self).spi.ops() == old(self).spi.ops().push(
                        #[trigger] read_back(Register::Fifo, seq![len_byte]),
                    ).push(#[trigger] read_back(Register::Fifo, header)).push(
                        #[trigger] read_back(Register::Fifo, payload),
                    )
                    &&& final(buffer)@ == payload + old(buffer)@.skip(n as int)
                },
            r matches Err(e) && e == Rfm69Error::MessageTooLarge ==> exists|len_byte: u8|
                final(self).spi.ops() == old(self).spi.ops().push(
                    #[trigger] read_back(Register::Fifo, seq![len_byte]),
                ) && (len_byte as int > old(buffer)@.len() || len_byte < 4),
            (final(self).spi.ops().len() == old(self).spi.ops().len() + 1
                && (final(self).spi.ops()[old(self).spi.ops().len() as int] matches
                Transaction::Read { opcode, data } && opcode == Register::Fifo.read_spec()
                && data.len() == 1
                && (data[0] as int > old(buffer)@.len() || data[0] < 4)))
                ==> (r matches Err(e) && e == Rfm69Error::MessageTooLarge),
    {
        let message_len = match self.read_register(Register::Fifo) {
            Ok(v) => v,
            Err(e) => {
                return Err(e);
            },
        };
        if buffer.len() < message_len as usize {
            return Err(Rfm69Error::MessageTooLarge);
        }
        if message_len < 4 {
            return Err(Rfm69Error::MessageTooLarge);
        }
        let header = match self.read_many(Register::Fifo, 4) {
            Ok(d) => d,
            Err(e) => {
                return Err(e);
            },
        };
        let count = (message_len - 4) as usize;
        let payload = match self.read_many(Register::Fifo, count) {
            Ok(d) => d,
            Err(e) => {
                return Err(e);
            },
        };
        let mut i: usize = 0;
        while i < count
            invariant
                i <= count,
                count == payload@.len(),
                count <= buffer@.len(),
                buffer@.len() == old(buffer)@.len(),
                forall|j: int| 0 <= j < i ==> buffer@[j] == payload@[j],
                forall|j: int| i <= j < buffer@.len() ==> buffer@[j] == old(buffer)@[j],
            decreases count - i,
        {
            let b = payload[i];
            buffer.set(i, b);
            i = i + 1;
        }
        proof {
            assert(buffer@ =~= payload@ + old(buffer)@.skip(count as int));
        }
        Ok(count)
    }

    /// Start a temperature measurement, wait for the sensor to finish,
    /// and return the device-specific linear estimate of 166 minus the
    /// raw reading, in degrees Celsius. Callers needing better accuracy
    /// must apply a board-specific offset themselves.
    #[verifier::loop_isolation(false)]
    pub fn read_temperature(&mut self) -> (r: Result<i16, Rfm69Error>)
        ensures
            old(self).pins_unchanged(*final(self)),
            old(self).cache_unchanged(*final(self)),
            extends(old(self).spi.ops(), final(self).spi.ops()),
            r matches Ok(t) ==> -89 <= t <= 166 && exists|raw: u8|
                final(self).spi.ops().len() > 0 && final(self).spi.ops().last() == read_back(
                    Register::Temp2,
                    seq![raw],
                ) && t as int == 166 - raw as int,
            final(self).spi.ops().len() > old(self).spi.ops().len()
                ==> final(self).spi.ops()[old(self).spi.ops().len() as int] == wrote(
                Register::Temp1,
                seq![0x08u8],
            ),
            r is Ok ==> exists|k: int|
                {
                    &&& old(self).spi.ops().len() < k < final(self).spi.ops().len() - 1
                    &&& (#[trigger] final(self).spi.ops()[k]) matches Transaction::Read {
                        opcode,
                        data,
                    } && opcode == Register::Temp1.read_spec() && data.len() == 1
                        && data[0] & 0x04 == 0
                },
            r matches Err(e) ==> (e == Rfm69Error::SpiWriteError || e == Rfm69Error::SpiReadError
                || e == Rfm69Error::Timeout),
    {
        match self.write_register(Register::Temp1, 0x08) {
            Ok(()) => (),
            Err(e) => {
                return Err(e);
            },
        }
        let ghost start_ops = self.spi.ops();
        let mut tries: u32 = 0;
        let mut measuring = true;
        let ghost mut clear_at: int = 0;
        while measuring && tries < POLL_BUDGET
            invariant
                old(self).pins_unchanged(*self),
                old(self).cache_unchanged(*self),
                extends(start_ops, self.spi.ops()),
                !measuring ==> start_ops.len() <= clear_at < self.spi.ops().len()
                    && (self.spi.ops()[clear_at] matches Transaction::Read { opcode, data }
                    && opcode == Register::Temp1.read_spec() && data.len() == 1
                    && data[0] & 0x04 == 0),
            decreases POLL_BUDGET - tries, (if measuring { 1int } else { 0int }),
        {
            let status = match self.read_register(Register::Temp1) {
                Ok(v) => v,
                Err(e) => {
                    return Err(e);
                },
            };
            if status & 0x04 == 0x00 {
                proof {
                    clear_at = self.spi.ops().len() - 1;
                    assert(self.spi.ops()[clear_at] == read_back(Register::Temp1, seq![status]));
                }
                measuring = false;
            } else {
                tries = tries + 1;
                self.delay.delay_ms(10);
            }
        }
        if measuring {
            return Err(Rfm69Error::Timeout);
        }
        let raw = match self.read_register(Register::Temp2) {
            Ok(v) => v,
            Err(e) => {
                return Err(e);
            },
        };
        proof {
            assert(self.spi.ops()[clear_at] matches Transaction::Read { opcode, data }
                && opcode == Register::Temp1.read_spec() && data.len() == 1
                && data[0] & 0x04 == 0);
        }
        Ok(166 - raw as i16)
    }

    /// Read every register for diagnostics: the 79 core registers from
    /// the mode-control register up, as one burst, then the four test
    /// registers one by one. Returns the addresses paired with the values
    /// read; nothing is cached or interpreted.
    #[verifier::loop_isolation(false)]
    pub fn read_all_registers(&mut self) -> (r: Result<Vec<(u8, u8)>, Rfm69Error>)
        ensures
            old(self).peripherals_unchanged(*final(self)),
            old(self).cache_unchanged(*final(self)),
            extends(old(self).spi.ops(), final(self).spi.ops()),
            forall|i: int|
                old(self).spi.ops().len() <= i < final(self).spi.ops().len()
                    ==> (#[trigger] final(self).spi.ops()[i]) is Read,
            r matches Err(e) ==> e == Rfm69Error::SpiReadError,
            r matches Ok(list) ==> {
                &&& list@.len() == 83
                &&& forall|i: int| 0 <= i < 79 ==> (#[trigger] list@[i]).0 == i + 1
                &&& list@[79].0 == 0x58
                &&& list@[80].0 == 0x5A
                &&& list@[81].0 == 0x5C
                &&& list@[82].0 == 0x6F
                &&& exists|bank: Seq<u8>|
                    {
                        &&& bank.len() == 79
                        &&& (forall|i: int| 0 <= i < 79 ==> (#[trigger] list@[i]).1 == bank[i])
                        &&& final(self).spi.ops() == old(self).spi.ops().push(
                            #[trigger] read_back(Register::OpMode, bank),
                        ).push(read_back(Register::TestLna, seq![list@[79].1])).push(
                            read_back(Register::TestPa1, seq![list@[80].1]),
                        ).push(read_back(Register::TestPa2, seq![list@[81].1])).push(
                            read_back(Register::TestDagc, seq![list@[82].1]),
                        )
                    }
            },
    {
        let bank = match self.read_many(Register::OpMode, 79) {
            Ok(d) => d,
            Err(e) => {
                return Err(e);
            },
        };
        let mut list: Vec<(u8, u8)> = Vec::new();
        let mut i: usize = 0;
        while i < 79
            invariant
                i <= 79,
                bank@.len() == 79,
                list@.len() == i,
                forall|j: int|
                    0 <= j < i ==> (#[trigger] list@[j]).0 == j + 1 && list@[j].1 == bank@[j],
            decreases 79 - i,
        {
            let value = bank[i];
            list.push(((i + 1) as u8, value));
            i = i + 1;
        }
        let test_lna = match self.read_register(Register::TestLna) {
            Ok(v) => v,
            Err(e) => {
                return Err(e);
            },
        };
        list.push((0x58, test_lna));
        let test_pa1 = match self.read_register(Register::TestPa1) {
            Ok(v) => v,
            Err(e) => {
                return Err(e);
            },
        };
        list.push((0x5A, test_pa1));
        let test_pa2 = match self.read_register(Register::TestPa2) {
            Ok(v) => v,
            Err(e) => {
                return Err(e);
            },
        };
        list.push((0x5C, test_pa2));
        let test_dagc = match self.read_register(Register::TestDagc) {
            Ok(v) => v,
            Err(e) => {
                return Err(e);
            },
        };
        list.push((0x6F, test_dagc));
        Ok(list)
    }

    /// Bring the chip from power-up to a configured standby: pulse reset,
    /// check the silicon revision, program the FIFO threshold, DAGC, LNA
    /// gain and default sync word, clear any earlier boost setting, apply
    /// the default modem preset, preamble length, transmit power and
    /// carrier frequency, and command standby. The first failing access
    /// aborts with its error; whatever was already programmed stays.
    pub fn init(&mut self) -> (r: Result<(), Rfm69Error>)
        ensures
            final(self).intr_pin == old(self).intr_pin,
            final(self).is_high_power == old(self).is_high_power,
            extends(old(self).spi.ops(), final(self).spi.ops()),
            r is Ok ==> final(self).current_mode == Rfm69Mode::Standby && final(self).tx_power
                == 13,
            r is Ok ==> extends(
                init_ops_spec(old(self).spi.ops(), old(self).is_high_power),
                final(self).spi.ops(),
            ),
            r is Ok && old(self).current_mode == Rfm69Mode::Standby ==> final(self).spi.ops()
                == init_ops_spec(old(self).spi.ops(), old(self).is_high_power),
            r is Ok && old(self).current_mode != Rfm69Mode::Standby ==> exists|k: int, k2: int|
                {
                    &&& init_ops_spec(old(self).spi.ops(), old(self).is_high_power).len() <= k
                    &&& k + 1 < k2 < final(self).spi.ops().len()
                    &&& (#[trigger] final(self).spi.ops()[k]) matches Transaction::Read {
                        opcode,
                        data,
                    } && opcode == Register::OpMode.read_spec() && data.len() == 1
                        && final(self).spi.ops()[k + 1] == wrote(
                        Register::OpMode,
                        seq![opmode_with_spec(data[0], Rfm69Mode::Standby)],
                    )
                    &&& (#[trigger] final(self).spi.ops()[k2]) matches Transaction::Read {
                        opcode: ready_opcode,
                        data: ready_data,
                    } && ready_opcode == Register::IrqFlags1.read_spec() && ready_data.len() == 1
                        && ready_data[0] & 0x80 != 0
                },
            final(self).spi.ops().len() > old(self).spi.ops().len()
                ==> (final(self).spi.ops()[old(self).spi.ops().len() as int] matches
                Transaction::Read { opcode, data } && opcode == Register::Version.read_spec()
                && data.len() == 1),
            (final(self).spi.ops().len() > old(self).spi.ops().len()
                && (final(self).spi.ops()[old(self).spi.ops().len() as int] matches
                Transaction::Read { opcode, data } && opcode == Register::Version.read_spec()
                && data.len() == 1
                && data[0] != 0x24))
                ==> ((r matches Err(e) && e == Rfm69Error::SpiReadError)
                    && final(self).spi.ops().len() == old(self).spi.ops().len() + 1),
            r matches Err(e) ==> (e == Rfm69Error::ResetError || e == Rfm69Error::SpiWriteError
                || e == Rfm69Error::SpiReadError || e == Rfm69Error::Timeout),
    {
        self.delay.delay_ms(10);
        match self.reset() {
            Ok(()) => (),
            Err(e) => {
                return Err(e);
            },
        }
        let version = match self.read_register(Register::Version) {
            Ok(v) => v,
            Err(e) => {
                return Err(e);
            },
        };
        // the chip's fixed silicon revision byte
        if version != 0x24 {
            return Err(Rfm69Error::SpiReadError);
        }
        proof {
            assert(self.spi.ops() == old(self).spi.ops().push(
                read_back(Register::Version, seq![0x24u8]),
            ));
        }
        match self.set_default_fifo_threshold() {
            Ok(()) => (),
            Err(e) => {
                return Err(e);
            },
        }
        match self.set_dagc(ContinuousDagc::ImprovedLowBeta1) {
            Ok(()) => (),
            Err(e) => {
                return Err(e);
            },
        }
        match self.write_register(Register::Lna, 0x88) {
            Ok(()) => (),
            Err(e) => {
                return Err(e);
            },
        }
        let mut sync_word: Vec<u8> = Vec::new();
        sync_word.push(0x2D);
        sync_word.push(0xD4);
        match self.set_sync_words(
            SyncConfiguration::FifoFillAuto { sync_tolerance: 0 },
            sync_word.as_slice(),
        ) {
            Ok(()) => (),
            Err(e) => {
                return Err(e);
            },
        }
        // if a high-power boost was set previously, disable it
        match self.write_register(Register::TestPa1, 0x55) {
            Ok(()) => (),
            Err(e) => {
                return Err(e);
            },
        }
        match self.write_register(Register::TestPa2, 0x70) {
            Ok(()) => (),
            Err(e) => {
                return Err(e);
            },
        }
        match self.set_modem_config(ModemConfigChoice::GfskRb250Fd250) {
            Ok(()) => (),
            Err(e) => {
                return Err(e);
            },
        }
        match self.set_preamble_length(4) {
            Ok(()) => (),
            Err(e) => {
                return Err(e);
            },
        }
        match self.set_tx_power(13) {
            Ok(()) => (),
            Err(e) => {
                return Err(e);
            },
        }
        match self.set_frequency(915) {
            Ok(()) => (),
            Err(e) => {
                return Err(e);
            },
        }
        proof {
            assert(0x80u8 | ((1u8) << 3) | 0u8 == 0x88u8) by (bit_vector);
            assert(sync_word@ =~= seq![0x2Du8, 0xD4u8]);
            assert(seq![(SyncConfiguration::FifoFillAuto { sync_tolerance: 0 }).value_spec(2)]
                + sync_word@ =~= seq![0x88u8, 0x2Du8, 0xD4u8]);
            assert(4u16 >> 8 == 0 && 4u16 & 0xFF == 4) by (bit_vector);
            assert(frf_bytes_spec(915) =~= seq![0xE4u8, 0xC0u8, 0x00u8]);
            assert(self.spi.ops() =~= init_ops_spec(
                old(self).spi.ops(),
                old(self).is_high_power,
            ));
        }
        match self.set_mode(Rfm69Mode::Standby) {
            Ok(()) => (),
            Err(e) => {
                return Err(e);
            },
        }
        Ok(())
    }
}

} // verus!
