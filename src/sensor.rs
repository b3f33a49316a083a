//! The temperature sensor driver: resolution encoding, the configuration
//! frame, decoding of the temperature register, and the driver itself.
use vstd::prelude::*;

use crate::bus::{I2cBus, Transfer};
use crate::error::SensorError;

verus! {

/// Index of the temperature register (read, two bytes).
pub const REG_TEMP: u8 = 0x00;

/// Index of the configuration register (written, one byte).
pub const REG_CONFIG: u8 = 0x01;

/// The raw reading by which the sensor reports that it has no valid measurement.
pub const ERROR_VALUE: i16 = -32768;

/// Conversion resolution of the sensor.
pub enum Resolution {
    Low,
    Medium,
    High,
}

impl Resolution {
    /// The 2-bit code of this resolution in the configuration register.
    pub open spec fn spec_code(self) -> u8 {
        match self {
            Resolution::Low => 0b00,
            Resolution::Medium => 0b01,
            Resolution::High => 0b10,
        }
    }

    /// The code written into the configuration register for this resolution.
    pub fn code(&self) -> (r: u8)
        ensures
            r == self.spec_code(),
            r <= 0b10,
    {
        match self {
            Resolution::Low => 0b00,
            Resolution::Medium => 0b01,
            Resolution::High => 0b10,
        }
    }
}

/// The two bytes written to configure `resolution`: the register index, then the code.
pub open spec fn config_frame_spec(resolution: Resolution) -> Seq<u8> {
    seq![REG_CONFIG, resolution.spec_code()]
}

/// Builds the configuration write for `resolution`.
pub fn config_frame(resolution: &Resolution) -> (r: [u8; 2])
    ensures
        r@ == config_frame_spec(*resolution),
{
    let code = resolution.code();
    let frame = [REG_CONFIG, code];
    assert(frame@ =~= config_frame_spec(*resolution));
    frame
}

/// The big-endian two's-complement value of the bytes `hi`, `lo`.
pub open spec fn be_i16(hi: u8, lo: u8) -> int {
    if hi < 128 {
        hi * 256 + lo
    } else {
        (hi - 256) * 256 + lo
    }
}

/// Reads two bytes as a big-endian signed 16-bit integer.
pub fn raw_from_be_bytes(bytes: [u8; 2]) -> (r: i16)
    ensures
        r as int == be_i16(bytes@[0], bytes@[1]),
{
    let hi = bytes[0];
    let lo = bytes[1];
    if hi < 128 {
        (hi as i16) * 256 + (lo as i16)
    } else {
        ((hi as i16) - 256) * 256 + (lo as i16)
    }
}

/// What a temperature read yields, given the outcome of the bus transfer
/// and the two bytes it left in the buffer.
pub open spec fn reading_outcome<E>(transfer: Result<(), E>, bytes: Seq<u8>) -> Result<i16, SensorError<E>> {
    match transfer {
        Err(e) => Err(SensorError::I2c(e)),
        Ok(_) => if be_i16(bytes[0], bytes[1]) == ERROR_VALUE as int {
            Err(SensorError::InvalidData)
        } else {
            Ok(be_i16(bytes[0], bytes[1]) as i16)
        },
    }
}

/// Turns the outcome of the temperature-register transfer into a raw reading.
///
/// A bus failure is passed on as `SensorError::I2c`; the sentinel raw value
/// is checked on the integer, before any scaling, and gives
/// `SensorError::InvalidData`.
pub fn reading_from_transfer<E>(transfer: Result<(), E>, bytes: [u8; 2]) -> (r: Result<i16, SensorError<E>>)
    ensures
        r == reading_outcome(transfer, bytes@),
{
    match transfer {
        Err(e) => Err(SensorError::I2c(e)),
        Ok(()) => {
            let raw = raw_from_be_bytes(bytes);
            if raw == ERROR_VALUE {
                Err(SensorError::InvalidData)
            } else {
                Ok(raw)
            }
        },
    }
}

/// A configured temperature sensor at one bus address, owning its bus.
pub struct TemperatureSensor<I2C> {
    i2c: I2C,
    address: u8,
}

impl<I2C> TemperatureSensor<I2C> {
    /// The bus that the driver owns.
    pub closed spec fn bus(&self) -> I2C {
        self.i2c
    }

    /// The bus address of the sensor.
    pub closed spec fn address(&self) -> u8 {
        self.address
    }

    /// The driver that holds `i2c` and `address`.
    pub closed spec fn assembled(i2c: I2C, address: u8) -> Self {
        TemperatureSensor { i2c, address }
    }

    /// Builds the driver once the configuration write has been attempted on
    /// `i2c`: a failure of that write is passed on, and no driver is built.
    pub fn from_config_write<E>(i2c: I2C, address: u8, written: Result<(), E>) -> (r: Result<Self, SensorError<E>>)
        ensures
            match written {
                Ok(_) => r == Ok::<Self, SensorError<E>>(Self::assembled(i2c, address)),
                Err(e) => r == Err::<Self, SensorError<E>>(SensorError::I2c(e)),
            },
    {
        match written {
            Ok(()) => Ok(TemperatureSensor { i2c, address }),
            Err(e) => Err(SensorError::I2c(e)),
        }
    }

    /// Gives the bus back, ending the driver.
    pub fn release(self) -> (r: I2C)
        ensures
            r == self.bus(),
    {
        self.i2c
    }
}

impl<I2C: I2cBus> TemperatureSensor<I2C> {
    /// Configures the sensor at `address` to `resolution` with one write of
    /// `config_frame(resolution)` to that address, and on success returns the
    /// driver that owns the bus, with that write the only transfer added to
    /// its log. A bus failure is returned as `SensorError::I2c`; nothing is
    /// retried or read back.
    pub fn new(i2c: I2C, address: u8, resolution: Resolution) -> (r: Result<Self, SensorError<I2C::Error>>)
        ensures
            r matches Ok(s) ==> s.address() == address,
            r matches Ok(s) ==> s.bus().log() == i2c.log().push(
                Transfer::Write { address, bytes: config_frame_spec(resolution) },
            ),
            r matches Err(e) ==> e is I2c,
    {
        let mut i2c = i2c;
        let frame = config_frame(&resolution);
        let written = i2c.write(address, &frame);
        Self::from_config_write(i2c, address, written)
    }

    /// Reads the temperature register: one write-read at the sensor's address
    /// that writes `REG_TEMP` and reads two bytes, and no other transfer. The
    /// driver keeps its bus and address, so it can read again without being
    /// configured again. Returns the raw reading in 1/256 degrees Celsius,
    /// the bus failure, or `SensorError::InvalidData` for the sentinel.
    pub fn read_raw(&mut self) -> (r: Result<i16, SensorError<I2C::Error>>)
        ensures
            final(self).address() == old(self).address(),
            final(self).bus().log().len() == old(self).bus().log().len() + 1,
            final(self).bus().log().drop_last() == old(self).bus().log(),
            final(self).bus().log().last() matches Transfer::WriteRead { address, bytes, len, received }
                && address == old(self).address()
                && bytes == seq![REG_TEMP]
                && len == 2
                && received.len() == 2
                && (r matches Err(SensorError::I2c(_)) || r == reading_outcome::<I2C::Error>(Ok(()), received)),
            r matches Ok(raw) ==> raw != ERROR_VALUE,
    {
        let command: [u8; 1] = [REG_TEMP];
        let mut buffer: [u8; 2] = [0u8; 2];
        let transfer = self.i2c.write_read(self.address, &command, &mut buffer);
        reading_from_transfer(transfer, buffer)
    }
}

/// The two bytes that carry the raw reading `r`, most significant first.
pub open spec fn be_bytes(r: i16) -> Seq<u8> {
    let u: int = if r < 0 { r + 65536 } else { r as int };
    seq![(u / 256) as u8, (u % 256) as u8]
}

/// The configuration write is two bytes: the configuration register's index,
/// then the 2-bit code of the resolution (0b00, 0b01 or 0b10).
pub proof fn lemma_config_frame_shape(resolution: Resolution)
    ensures
        config_frame_spec(resolution).len() == 2,
        config_frame_spec(resolution)[0] == 0x01,
        config_frame_spec(resolution)[1] == match resolution {
            Resolution::Low => 0b00u8,
            Resolution::Medium => 0b01u8,
            Resolution::High => 0b10u8,
        },
{
}

/// Reading the big-endian bytes of any raw value gives that value back.
pub proof fn lemma_be_bytes_round_trip(r: i16)
    ensures
        be_bytes(r).len() == 2,
        be_i16(be_bytes(r)[0], be_bytes(r)[1]) == r as int,
{
    let u: int = if r < 0 { r + 65536 } else { r as int };
    assert(0 <= u < 65536);
    assert(u == (u / 256) * 256 + u % 256) by (nonlinear_arith)
        requires 0 <= u;
    assert(0 <= u / 256 < 256) by (nonlinear_arith)
        requires 0 <= u < 65536;
    assert(u / 256 < 128 <==> r >= 0) by (nonlinear_arith)
        requires 0 <= u < 65536, u == (if r < 0 { r + 65536 } else { r as int }), -32768 <= r < 32768;
}

/// Every raw value other than the sentinel, sent as its two big-endian
/// bytes over a transfer that succeeded, is returned as it is.
pub proof fn lemma_valid_reading_returned<E>(r: i16)
    requires
        r != ERROR_VALUE,
    ensures
        reading_outcome::<E>(Ok(()), be_bytes(r)) == Ok::<i16, SensorError<E>>(r),
{
    lemma_be_bytes_round_trip(r);
}

/// A failed transfer yields the bus-failure error wrapping that same
/// failure, and no reading, whatever the buffer holds.
pub proof fn lemma_transfer_failure_passed_on<E>(e: E, bytes: Seq<u8>)
    ensures
        reading_outcome::<E>(Err(e), bytes) == Err::<i16, SensorError<E>>(SensorError::I2c(e)),
{
}

/// Decoding looks at the first two received bytes and nothing else: buffers
/// that agree on those two give the same outcome, whatever else they hold.
pub proof fn lemma_decoding_depends_on_bytes_alone<E>(a: Seq<u8>, b: Seq<u8>)
    requires
        a.len() >= 2,
        b.len() >= 2,
        a[0] == b[0],
        a[1] == b[1],
    ensures
        reading_outcome::<E>(Ok(()), a) == reading_outcome::<E>(Ok(()), b),
{
}

/// A driver assembled from a bus hands that same bus back on release.
pub proof fn lemma_release_returns_bus<I2C>(i2c: I2C, address: u8)
    ensures
        TemperatureSensor::<I2C>::assembled(i2c, address).bus() == i2c,
        TemperatureSensor::<I2C>::assembled(i2c, address).address() == address,
{
}

} // verus!
