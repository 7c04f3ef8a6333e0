use vstd::prelude::*;

use crate::error::SensorError;

verus! {

/// A configuration value type that owns a fixed group of bits within one
/// hardware register byte.
///
/// Fields placed together in one register by the caller must not overlap;
/// this layer does not enforce cross-field disjointness.
pub trait Bitfield: Sized {
    /// The bits of a register byte that this value type owns.
    spec fn spec_mask() -> u8;

    /// The variant's raw discriminant, shifted into the field's bit position.
    spec fn spec_bits(self) -> u8;

    /// The bits of a register byte that this value type owns.
    fn mask() -> (r: u8)
        ensures
            r == Self::spec_mask(),
    ;

    /// Bit value of a discriminant, shifted to the correct position if
    /// necessary. Every bit outside the field's mask is zero.
    fn bits(self) -> (r: u8)
        ensures
            r == self.spec_bits(),
            r & !Self::spec_mask() == 0,
    ;
}

/// I2C slave addresses, determined by the logic level of pin `AP_AD0`
#[derive(Clone, Copy, Debug, PartialEq, Eq, Structural)]
pub enum Address {
    /// `AP_AD0` pin == 0
    Primary,
    /// `AP_AD0` pin == 1
    Secondary,
}

impl Address {
    /// The bus address this variant denotes.
    pub open spec fn spec_as_u8(self) -> u8 {
        match self {
            Address::Primary => 0x68,
            Address::Secondary => 0x69,
        }
    }

    /// The bus address this variant denotes, used directly as the bus
    /// target; it is never packed into a register byte.
    pub fn as_u8(self) -> (r: u8)
        ensures
            r == self.spec_as_u8(),
    {
        match self {
            Address::Primary => 0x68,
            Address::Secondary => 0x69,
        }
    }
}

/// No two address variants denote the same bus address.
pub proof fn lemma_address_values_disjoint(a: Address, b: Address)
    requires
        a.spec_as_u8() == b.spec_as_u8(),
    ensures
        a == b,
{
}

/// Configurable ranges of the Accelerometer
#[derive(Clone, Copy, Debug, PartialEq, Eq, Structural)]
pub enum AccelRange {
    /// +/-2G
    G2,
    /// +/-4G
    G4,
    /// +/-8G
    G8,
    /// +/-16G
    G16,
}

impl AccelRange {
    /// Raw discriminant, inversely ordered to the range magnitude: the
    /// widest range has discriminant 0.
    pub open spec fn spec_discriminant(self) -> u8 {
        match self {
            AccelRange::G2 => 3,
            AccelRange::G4 => 2,
            AccelRange::G8 => 1,
            AccelRange::G16 => 0,
        }
    }

    /// The discriminants the hardware defines: the field is two bits wide
    /// and every two-bit pattern selects a range.
    pub open spec fn spec_valid_discriminant(value: u8) -> bool {
        value <= 3
    }

    /// The range a masked, right-shifted register value decodes to.
    pub open spec fn spec_decode(value: u8) -> Result<AccelRange, SensorError> {
        if value == 0 {
            Ok(AccelRange::G16)
        } else if value == 1 {
            Ok(AccelRange::G8)
        } else if value == 2 {
            Ok(AccelRange::G4)
        } else if value == 3 {
            Ok(AccelRange::G2)
        } else {
            Err(SensorError::InvalidDiscriminant)
        }
    }

    /// Sensitivity scale factor in thousandths of a count per G, from
    /// Table 2 of the data sheet (+/-16G is 2048 counts per G).
    pub open spec fn spec_scale_factor_milli(self) -> u32 {
        match self {
            AccelRange::G2 => 16_384_000,
            AccelRange::G4 => 8_192_000,
            AccelRange::G8 => 4_096_000,
            AccelRange::G16 => 2_048_000,
        }
    }

    /// Sensitivity scale factor in thousandths of a count per G.
    pub fn scale_factor_milli(&self) -> (r: u32)
        ensures
            r == self.spec_scale_factor_milli(),
    {
        match self {
            AccelRange::G2 => 16_384_000,
            AccelRange::G4 => 8_192_000,
            AccelRange::G8 => 4_096_000,
            AccelRange::G16 => 2_048_000,
        }
    }

    /// Recovers the range selection from a masked, right-shifted register
    /// value; every value above 3 (caller mis-masking) is rejected.
    pub fn try_from(value: u8) -> (r: Result<AccelRange, SensorError>)
        ensures
            r == AccelRange::spec_decode(value),
            r is Ok <==> AccelRange::spec_valid_discriminant(value),
    {
        match value {
            0 => Ok(AccelRange::G16),
            1 => Ok(AccelRange::G8),
            2 => Ok(AccelRange::G4),
            3 => Ok(AccelRange::G2),
            _ => Err(SensorError::InvalidDiscriminant),
        }
    }
}

impl Bitfield for AccelRange {
    open spec fn spec_mask() -> u8 {
        0b0110_0000
    }

    open spec fn spec_bits(self) -> u8 {
        match self {
            AccelRange::G2 => 0b0110_0000,
            AccelRange::G4 => 0b0100_0000,
            AccelRange::G8 => 0b0010_0000,
            AccelRange::G16 => 0b0000_0000,
        }
    }

    fn mask() -> u8 {
        0b0110_0000
    }

    fn bits(self) -> u8 {
        // `ACCEL_UI_FS_SEL` occupies bits 6:5 in the register
        let r: u8 = match self {
            AccelRange::G2 => 0b0110_0000,
            AccelRange::G4 => 0b0100_0000,
            AccelRange::G8 => 0b0010_0000,
            AccelRange::G16 => 0b0000_0000,
        };
        proof {
            assert((r == 0x00 || r == 0x20 || r == 0x40 || r == 0x60) ==> r & !0x60u8 == 0)
                by (bit_vector);
        }
        r
    }
}

impl Default for AccelRange {
    /// The hardware reset state: the widest range, whose encoding is the
    /// documented power-on register value 0.
    fn default() -> (r: Self)
        ensures
            r == AccelRange::G16,
            r.spec_bits() == 0,
    {
        AccelRange::G16
    }
}

/// Masking an encoded accelerometer range and shifting it back to the
/// field's base recovers the variant it encodes.
pub proof fn lemma_accel_range_round_trip(v: AccelRange)
    ensures
        AccelRange::spec_decode((v.spec_bits() & AccelRange::spec_mask()) >> 5) == Ok::<
            AccelRange,
            SensorError,
        >(v),
{
    let b = v.spec_bits();
    assert((b == 0x00 ==> (b & 0x60) >> 5 == 0) && (b == 0x20 ==> (b & 0x60) >> 5 == 1) && (b
        == 0x40 ==> (b & 0x60) >> 5 == 2) && (b == 0x60 ==> (b & 0x60) >> 5 == 3)) by (bit_vector);
}

/// Decoding an accelerometer range succeeds for all four two-bit values.
pub proof fn lemma_accel_range_decode_total(value: u8)
    requires
        value <= 3,
    ensures
        AccelRange::spec_decode(value) is Ok,
{
}

/// No two accelerometer range variants share a raw discriminant.
pub proof fn lemma_accel_range_discriminants_disjoint(a: AccelRange, b: AccelRange)
    requires
        a.spec_discriminant() == b.spec_discriminant(),
    ensures
        a == b,
{
}

/// Configurable ranges of the Gyroscope
#[derive(Clone, Copy, Debug, PartialEq, Eq, Structural)]
pub enum GyroRange {
    /// +/-250 deg/sec
    Deg250,
    /// +/-500 deg/sec
    Deg500,
    /// +/-1000 deg/sec
    Deg1000,
    /// +/-2000 deg/sec
    Deg2000,
}

impl GyroRange {
    /// Raw discriminant, inversely ordered to the range magnitude: the
    /// widest range has discriminant 0.
    pub open spec fn spec_discriminant(self) -> u8 {
        match self {
            GyroRange::Deg250 => 3,
            GyroRange::Deg500 => 2,
            GyroRange::Deg1000 => 1,
            GyroRange::Deg2000 => 0,
        }
    }

    /// The discriminants the hardware defines: the field is two bits wide
    /// and every two-bit pattern selects a range.
    pub open spec fn spec_valid_discriminant(value: u8) -> bool {
        value <= 3
    }

    /// The range a masked, right-shifted register value decodes to.
    pub open spec fn spec_decode(value: u8) -> Result<GyroRange, SensorError> {
        if value == 0 {
            Ok(GyroRange::Deg2000)
        } else if value == 1 {
            Ok(GyroRange::Deg1000)
        } else if value == 2 {
            Ok(GyroRange::Deg500)
        } else if value == 3 {
            Ok(GyroRange::Deg250)
        } else {
            Err(SensorError::InvalidDiscriminant)
        }
    }

    /// Sensitivity scale factor in thousandths of a count per deg/sec, from
    /// Table 1 of the data sheet (+/-250 deg/sec is 131 counts per deg/sec).
    pub open spec fn spec_scale_factor_milli(self) -> u32 {
        match self {
            GyroRange::Deg250 => 131_000,
            GyroRange::Deg500 => 65_500,
            GyroRange::Deg1000 => 32_800,
            GyroRange::Deg2000 => 16_400,
        }
    }

    /// Sensitivity scale factor in thousandths of a count per deg/sec.
    pub fn scale_factor_milli(&self) -> (r: u32)
        ensures
            r == self.spec_scale_factor_milli(),
    {
        match self {
            GyroRange::Deg250 => 131_000,
            GyroRange::Deg500 => 65_500,
            GyroRange::Deg1000 => 32_800,
            GyroRange::Deg2000 => 16_400,
        }
    }

    /// Recovers the range selection from a masked, right-shifted register
    /// value; every value above 3 (caller mis-masking) is rejected.
    pub fn try_from(value: u8) -> (r: Result<GyroRange, SensorError>)
        ensures
            r == GyroRange::spec_decode(value),
            r is Ok <==> GyroRange::spec_valid_discriminant(value),
    {
        match value {
            0 => Ok(GyroRange::Deg2000),
            1 => Ok(GyroRange::Deg1000),
            2 => Ok(GyroRange::Deg500),
            3 => Ok(GyroRange::Deg250),
            _ => Err(SensorError::InvalidDiscriminant),
        }
    }
}

impl Bitfield for GyroRange {
    open spec fn spec_mask() -> u8 {
        0b0110_0000
    }

    open spec fn spec_bits(self) -> u8 {
        match self {
            GyroRange::Deg250 => 0b0110_0000,
            GyroRange::Deg500 => 0b0100_0000,
            GyroRange::Deg1000 => 0b0010_0000,
            GyroRange::Deg2000 => 0b0000_0000,
        }
    }

    fn mask() -> u8 {
        0b0110_0000
    }

    fn bits(self) -> u8 {
        // `GYRO_UI_FS_SEL` occupies bits 6:5 in the register
        let r: u8 = match self {
            GyroRange::Deg250 => 0b0110_0000,
            GyroRange::Deg500 => 0b0100_0000,
            GyroRange::Deg1000 => 0b0010_0000,
            GyroRange::Deg2000 => 0b0000_0000,
        };
        proof {
            assert((r == 0x00 || r == 0x20 || r == 0x40 || r == 0x60) ==> r & !0x60u8 == 0)
                by (bit_vector);
        }
        r
    }
}

impl Default for GyroRange {
    /// The hardware reset state: the widest range, whose encoding is the
    /// documented power-on register value 0.
    fn default() -> (r: Self)
        ensures
            r == GyroRange::Deg2000,
            r.spec_bits() == 0,
    {
        GyroRange::Deg2000
    }
}

/// Masking an encoded gyroscope range and shifting it back to the field's
/// base recovers the variant it encodes.
pub proof fn lemma_gyro_range_round_trip(v: GyroRange)
    ensures
        GyroRange::spec_decode((v.spec_bits() & GyroRange::spec_mask()) >> 5) == Ok::<
            GyroRange,
            SensorError,
        >(v),
{
    let b = v.spec_bits();
    assert((b == 0x00 ==> (b & 0x60) >> 5 == 0) && (b == 0x20 ==> (b & 0x60) >> 5 == 1) && (b
        == 0x40 ==> (b & 0x60) >> 5 == 2) && (b == 0x60 ==> (b & 0x60) >> 5 == 3)) by (bit_vector);
}

/// Decoding a gyroscope range succeeds for all four two-bit values.
pub proof fn lemma_gyro_range_decode_total(value: u8)
    requires
        value <= 3,
    ensures
        GyroRange::spec_decode(value) is Ok,
{
}

/// No two gyroscope range variants share a raw discriminant.
pub proof fn lemma_gyro_range_discriminants_disjoint(a: GyroRange, b: GyroRange)
    requires
        a.spec_discriminant() == b.spec_discriminant(),
    ensures
        a == b,
{
}

/// Configurable power modes of the IMU
///
/// The gyroscope sub-state occupies bits 3:2 and the accelerometer
/// sub-state bits 1:0, but only these combinations are hardware-legal.
#[derive(Clone, Copy, Debug, PartialEq, Eq, Structural)]
pub enum PowerMode {
    /// Gyroscope: OFF, Accelerometer: OFF
    Sleep,
    /// Gyroscope: DRIVE ON, Accelerometer: OFF
    Standby,
    /// Gyroscope: OFF, Accelerometer: DUTY-CYCLED
    AccelLowPower,
    /// Gyroscope: OFF, Accelerometer: ON
    AccelLowNoise,
    /// Gyroscope: ON, Accelerometer: OFF
    GyroLowNoise,
    /// Gyroscope: ON, Accelerometer: ON
    SixAxisLowNoise,
    /// Idle mode: RC oscillator is powered on, Accel and Gyro OFF
    Idle,
}

impl PowerMode {
    /// Raw discriminant: the full five-bit field value.
    pub open spec fn spec_discriminant(self) -> u8 {
        match self {
            PowerMode::Sleep => 0b00000,
            PowerMode::Standby => 0b00100,
            PowerMode::AccelLowPower => 0b00010,
            PowerMode::AccelLowNoise => 0b00011,
            PowerMode::GyroLowNoise => 0b01100,
            PowerMode::SixAxisLowNoise => 0b01111,
            PowerMode::Idle => 0b10000,
        }
    }

    /// The seven five-bit patterns the hardware defines; the other 25 are
    /// reserved or disallowed accel/gyro combinations.
    pub open spec fn spec_valid_discriminant(value: u8) -> bool {
        ||| value == 0b00000
        ||| value == 0b00100
        ||| value == 0b00010
        ||| value == 0b00011
        ||| value == 0b01100
        ||| value == 0b01111
        ||| value == 0b10000
    }

    /// The power mode a masked register value decodes to.
    pub open spec fn spec_decode(value: u8) -> Result<PowerMode, SensorError> {
        if value == 0b00000 {
            Ok(PowerMode::Sleep)
        } else if value == 0b00100 {
            Ok(PowerMode::Standby)
        } else if value == 0b00010 {
            Ok(PowerMode::AccelLowPower)
        } else if value == 0b00011 {
            Ok(PowerMode::AccelLowNoise)
        } else if value == 0b01100 {
            Ok(PowerMode::GyroLowNoise)
        } else if value == 0b01111 {
            Ok(PowerMode::SixAxisLowNoise)
        } else if value == 0b10000 {
            Ok(PowerMode::Idle)
        } else {
            Err(SensorError::InvalidDiscriminant)
        }
    }

    /// Recovers the power mode from a masked register value; the 25
    /// reserved or disallowed five-bit patterns are rejected rather than
    /// coerced to a nearby legal state.
    pub fn try_from(value: u8) -> (r: Result<PowerMode, SensorError>)
        ensures
            r == PowerMode::spec_decode(value),
            r is Ok <==> PowerMode::spec_valid_discriminant(value),
    {
        match value {
            0b00000 => Ok(PowerMode::Sleep),
            0b00100 => Ok(PowerMode::Standby),
            0b00010 => Ok(PowerMode::AccelLowPower),
            0b00011 => Ok(PowerMode::AccelLowNoise),
            0b01100 => Ok(PowerMode::GyroLowNoise),
            0b01111 => Ok(PowerMode::SixAxisLowNoise),
            0b10000 => Ok(PowerMode::Idle),
            _ => Err(SensorError::InvalidDiscriminant),
        }
    }
}

impl Bitfield for PowerMode {
    open spec fn spec_mask() -> u8 {
        0b0001_1111
    }

    open spec fn spec_bits(self) -> u8 {
        self.spec_discriminant()
    }

    fn mask() -> u8 {
        0b0001_1111
    }

    fn bits(self) -> u8 {
        // `GYRO_MODE` occupies bits 3:2 in the register
        // `ACCEL_MODE` occupies bits 1:0 in the register
        let r: u8 = match self {
            PowerMode::Sleep => 0b00000,
            PowerMode::Standby => 0b00100,
            PowerMode::AccelLowPower => 0b00010,
            PowerMode::AccelLowNoise => 0b00011,
            PowerMode::GyroLowNoise => 0b01100,
            PowerMode::SixAxisLowNoise => 0b01111,
            PowerMode::Idle => 0b10000,
        };
        proof {
            assert(r < 0x20 ==> r & !0x1Fu8 == 0) by (bit_vector);
        }
        r
    }
}

impl Default for PowerMode {
    /// The hardware reset state: everything off, whose encoding is the
    /// documented power-on register value 0.
    fn default() -> (r: Self)
        ensures
            r == PowerMode::Sleep,
            r.spec_bits() == 0,
    {
        PowerMode::Sleep
    }
}

/// Masking an encoded power mode recovers the variant it encodes; the
/// field sits in the low five bits, so no shift is involved.
pub proof fn lemma_power_mode_round_trip(v: PowerMode)
    ensures
        PowerMode::spec_decode(v.spec_bits() & PowerMode::spec_mask()) == Ok::<
            PowerMode,
            SensorError,
        >(v),
{
    let b = v.spec_bits();
    assert(b < 0x20 ==> b & 0x1F == b) by (bit_vector);
}

/// Decoding a power mode fails, with the invalid-discriminant error, for
/// every five-bit value outside the seven documented patterns.
pub proof fn lemma_power_mode_decode_rejects(value: u8)
    requires
        !PowerMode::spec_valid_discriminant(value),
    ensures
        PowerMode::spec_decode(value) == Err::<PowerMode, SensorError>(
            SensorError::InvalidDiscriminant,
        ),
{
}

/// No two power mode variants share a raw discriminant.
pub proof fn lemma_power_mode_discriminants_disjoint(a: PowerMode, b: PowerMode)
    requires
        a.spec_discriminant() == b.spec_discriminant(),
    ensures
        a == b,
{
}

/// Accelerometer ODR selection values
#[derive(Clone, Copy, Debug, PartialEq, Eq, Structural)]
pub enum AccelOdr {
    /// 1.6 kHz (LN mode)
    Hz1600,
    /// 800 Hz (LN mode)
    Hz800,
    /// 400 Hz (LP or LN mode)
    Hz400,
    /// 200 Hz (LP or LN mode)
    Hz200,
    /// 100 Hz (LP or LN mode)
    Hz100,
    /// 50 Hz (LP or LN mode)
    Hz50,
    /// 25 Hz (LP or LN mode)
    Hz25,
    /// 12.5 Hz (LP or LN mode)
    Hz12_5,
    /// 6.25 Hz (LP mode)
    Hz6_25,
    /// 3.125 Hz (LP mode)
    Hz3_125,
    /// 1.5625 Hz (LP mode)
    Hz1_5625,
}

impl AccelOdr {
    /// Raw discriminant: consecutive codes in descending-frequency order,
    /// starting at 0b0101 for the highest rate.
    pub open spec fn spec_discriminant(self) -> u8 {
        match self {
            AccelOdr::Hz1600 => 0b0101,
            AccelOdr::Hz800 => 0b0110,
            AccelOdr::Hz400 => 0b0111,
            AccelOdr::Hz200 => 0b1000,
            AccelOdr::Hz100 => 0b1001,
            AccelOdr::Hz50 => 0b1010,
            AccelOdr::Hz25 => 0b1011,
            AccelOdr::Hz12_5 => 0b1100,
            AccelOdr::Hz6_25 => 0b1101,
            AccelOdr::Hz3_125 => 0b1110,
            AccelOdr::Hz1_5625 => 0b1111,
        }
    }

    /// The eleven nibble values the hardware defines; 0b0000 through 0b0100
    /// are reserved.
    pub open spec fn spec_valid_discriminant(value: u8) -> bool {
        0b0101 <= value <= 0b1111
    }

    /// The data rate a masked register value decodes to.
    pub open spec fn spec_decode(value: u8) -> Result<AccelOdr, SensorError> {
        if value == 0b0101 {
            Ok(AccelOdr::Hz1600)
        } else if value == 0b0110 {
            Ok(AccelOdr::Hz800)
        } else if value == 0b0111 {
            Ok(AccelOdr::Hz400)
        } else if value == 0b1000 {
            Ok(AccelOdr::Hz200)
        } else if value == 0b1001 {
            Ok(AccelOdr::Hz100)
        } else if value == 0b1010 {
            Ok(AccelOdr::Hz50)
        } else if value == 0b1011 {
            Ok(AccelOdr::Hz25)
        } else if value == 0b1100 {
            Ok(AccelOdr::Hz12_5)
        } else if value == 0b1101 {
            Ok(AccelOdr::Hz6_25)
        } else if value == 0b1110 {
            Ok(AccelOdr::Hz3_125)
        } else if value == 0b1111 {
            Ok(AccelOdr::Hz1_5625)
        } else {
            Err(SensorError::InvalidDiscriminant)
        }
    }

    /// The selected output data rate in microhertz; every rate is a clean
    /// binary fraction of 1600 Hz and is exact in this unit.
    pub open spec fn spec_micro_hz(self) -> u64 {
        match self {
            AccelOdr::Hz1600 => 1_600_000_000,
            AccelOdr::Hz800 => 800_000_000,
            AccelOdr::Hz400 => 400_000_000,
            AccelOdr::Hz200 => 200_000_000,
            AccelOdr::Hz100 => 100_000_000,
            AccelOdr::Hz50 => 50_000_000,
            AccelOdr::Hz25 => 25_000_000,
            AccelOdr::Hz12_5 => 12_500_000,
            AccelOdr::Hz6_25 => 6_250_000,
            AccelOdr::Hz3_125 => 3_125_000,
            AccelOdr::Hz1_5625 => 1_562_500,
        }
    }

    /// The selected output data rate in microhertz.
    pub fn as_micro_hz(self) -> (r: u64)
        ensures
            r == self.spec_micro_hz(),
    {
        match self {
            AccelOdr::Hz1600 => 1_600_000_000,
            AccelOdr::Hz800 => 800_000_000,
            AccelOdr::Hz400 => 400_000_000,
            AccelOdr::Hz200 => 200_000_000,
            AccelOdr::Hz100 => 100_000_000,
            AccelOdr::Hz50 => 50_000_000,
            AccelOdr::Hz25 => 25_000_000,
            AccelOdr::Hz12_5 => 12_500_000,
            AccelOdr::Hz6_25 => 6_250_000,
            AccelOdr::Hz3_125 => 3_125_000,
            AccelOdr::Hz1_5625 => 1_562_500,
        }
    }

    /// Recovers the data-rate selection from a masked register value; the
    /// five reserved nibble values are rejected.
    pub fn try_from(value: u8) -> (r: Result<AccelOdr, SensorError>)
        ensures
            r == AccelOdr::spec_decode(value),
            r is Ok <==> AccelOdr::spec_valid_discriminant(value),
    {
        match value {
            0b0101 => Ok(AccelOdr::Hz1600),
            0b0110 => Ok(AccelOdr::Hz800),
            0b0111 => Ok(AccelOdr::Hz400),
            0b1000 => Ok(AccelOdr::Hz200),
            0b1001 => Ok(AccelOdr::Hz100),
            0b1010 => Ok(AccelOdr::Hz50),
            0b1011 => Ok(AccelOdr::Hz25),
            0b1100 => Ok(AccelOdr::Hz12_5),
            0b1101 => Ok(AccelOdr::Hz6_25),
            0b1110 => Ok(AccelOdr::Hz3_125),
            0b1111 => Ok(AccelOdr::Hz1_5625),
            _ => Err(SensorError::InvalidDiscriminant),
        }
    }
}

impl Bitfield for AccelOdr {
    open spec fn spec_mask() -> u8 {
        0b0000_1111
    }

    open spec fn spec_bits(self) -> u8 {
        self.spec_discriminant()
    }

    fn mask() -> u8 {
        0b0000_1111
    }

    fn bits(self) -> u8 {
        // `ACCEL_ODR` occupies bits 3:0 in the register
        let r: u8 = match self {
            AccelOdr::Hz1600 => 0b0101,
            AccelOdr::Hz800 => 0b0110,
            AccelOdr::Hz400 => 0b0111,
            AccelOdr::Hz200 => 0b1000,
            AccelOdr::Hz100 => 0b1001,
            AccelOdr::Hz50 => 0b1010,
            AccelOdr::Hz25 => 0b1011,
            AccelOdr::Hz12_5 => 0b1100,
            AccelOdr::Hz6_25 => 0b1101,
            AccelOdr::Hz3_125 => 0b1110,
            AccelOdr::Hz1_5625 => 0b1111,
        };
        proof {
            assert(r < 0x10 ==> r & !0x0Fu8 == 0) by (bit_vector);
        }
        r
    }
}

impl Default for AccelOdr {
    /// The hardware reset state: 800 Hz, whose encoding is the documented
    /// power-on register value 0b0110.
    fn default() -> (r: Self)
        ensures
            r == AccelOdr::Hz800,
            r.spec_bits() == 0b0110,
    {
        AccelOdr::Hz800
    }
}

/// Masking an encoded accelerometer data rate recovers the variant it
/// encodes; the field sits in the low four bits, so no shift is involved.
pub proof fn lemma_accel_odr_round_trip(v: AccelOdr)
    ensures
        AccelOdr::spec_decode(v.spec_bits() & AccelOdr::spec_mask()) == Ok::<
            AccelOdr,
            SensorError,
        >(v),
{
    let b = v.spec_bits();
    assert(b < 0x10 ==> b & 0x0F == b) by (bit_vector);
}

/// Decoding an accelerometer data rate fails, with the
/// invalid-discriminant error, for every nibble value outside the eleven
/// documented codes.
pub proof fn lemma_accel_odr_decode_rejects(value: u8)
    requires
        !AccelOdr::spec_valid_discriminant(value),
    ensures
        AccelOdr::spec_decode(value) == Err::<AccelOdr, SensorError>(
            SensorError::InvalidDiscriminant,
        ),
{
}

/// No two accelerometer data-rate variants share a raw discriminant.
pub proof fn lemma_accel_odr_discriminants_disjoint(a: AccelOdr, b: AccelOdr)
    requires
        a.spec_discriminant() == b.spec_discriminant(),
    ensures
        a == b,
{
}

/// Gyroscope ODR selection values
///
/// The gyroscope does not support the lowest four accelerometer rates;
/// this asymmetry is the hardware's.
#[derive(Clone, Copy, Debug, PartialEq, Eq, Structural)]
pub enum GyroOdr {
    /// 1.6 kHz
    Hz1600,
    /// 800 Hz
    Hz800,
    /// 400 Hz
    Hz400,
    /// 200 Hz
    Hz200,
    /// 100 Hz
    Hz100,
    /// 50 Hz
    Hz50,
    /// 25 Hz
    Hz25,
    /// 12.5 Hz
    Hz12_5,
}

impl GyroOdr {
    /// Raw discriminant: consecutive codes in descending-frequency order,
    /// starting at 0b0101 for the highest rate.
    pub open spec fn spec_discriminant(self) -> u8 {
        match self {
            GyroOdr::Hz1600 => 0b0101,
            GyroOdr::Hz800 => 0b0110,
            GyroOdr::Hz400 => 0b0111,
            GyroOdr::Hz200 => 0b1000,
            GyroOdr::Hz100 => 0b1001,
            GyroOdr::Hz50 => 0b1010,
            GyroOdr::Hz25 => 0b1011,
            GyroOdr::Hz12_5 => 0b1100,
        }
    }

    /// The eight nibble values the hardware defines; 0b0000 through 0b0100
    /// and 0b1101 through 0b1111 are reserved.
    pub open spec fn spec_valid_discriminant(value: u8) -> bool {
        0b0101 <= value <= 0b1100
    }

    /// The data rate a masked register value decodes to.
    pub open spec fn spec_decode(value: u8) -> Result<GyroOdr, SensorError> {
        if value == 0b0101 {
            Ok(GyroOdr::Hz1600)
        } else if value == 0b0110 {
            Ok(GyroOdr::Hz800)
        } else if value == 0b0111 {
            Ok(GyroOdr::Hz400)
        } else if value == 0b1000 {
            Ok(GyroOdr::Hz200)
        } else if value == 0b1001 {
            Ok(GyroOdr::Hz100)
        } else if value == 0b1010 {
            Ok(GyroOdr::Hz50)
        } else if value == 0b1011 {
            Ok(GyroOdr::Hz25)
        } else if value == 0b1100 {
            Ok(GyroOdr::Hz12_5)
        } else {
            Err(SensorError::InvalidDiscriminant)
        }
    }

    /// The selected output data rate in microhertz; every rate is a clean
    /// binary fraction of 1600 Hz and is exact in this unit.
    pub open spec fn spec_micro_hz(self) -> u64 {
        match self {
            GyroOdr::Hz1600 => 1_600_000_000,
            GyroOdr::Hz800 => 800_000_000,
            GyroOdr::Hz400 => 400_000_000,
            GyroOdr::Hz200 => 200_000_000,
            GyroOdr::Hz100 => 100_000_000,
            GyroOdr::Hz50 => 50_000_000,
            GyroOdr::Hz25 => 25_000_000,
            GyroOdr::Hz12_5 => 12_500_000,
        }
    }

    /// The selected output data rate in microhertz.
    pub fn as_micro_hz(self) -> (r: u64)
        ensures
            r == self.spec_micro_hz(),
    {
        match self {
            GyroOdr::Hz1600 => 1_600_000_000,
            GyroOdr::Hz800 => 800_000_000,
            GyroOdr::Hz400 => 400_000_000,
            GyroOdr::Hz200 => 200_000_000,
            GyroOdr::Hz100 => 100_000_000,
            GyroOdr::Hz50 => 50_000_000,
            GyroOdr::Hz25 => 25_000_000,
            GyroOdr::Hz12_5 => 12_500_000,
        }
    }

    /// Recovers the data-rate selection from a masked register value; the
    /// eight reserved nibble values are rejected.
    pub fn try_from(value: u8) -> (r: Result<GyroOdr, SensorError>)
        ensures
            r == GyroOdr::spec_decode(value),
            r is Ok <==> GyroOdr::spec_valid_discriminant(value),
    {
        match value {
            0b0101 => Ok(GyroOdr::Hz1600),
            0b0110 => Ok(GyroOdr::Hz800),
            0b0111 => Ok(GyroOdr::Hz400),
            0b1000 => Ok(GyroOdr::Hz200),
            0b1001 => Ok(GyroOdr::Hz100),
            0b1010 => Ok(GyroOdr::Hz50),
            0b1011 => Ok(GyroOdr::Hz25),
            0b1100 => Ok(GyroOdr::Hz12_5),
            _ => Err(SensorError::InvalidDiscriminant),
        }
    }
}

impl Bitfield for GyroOdr {
    open spec fn spec_mask() -> u8 {
        0b0000_1111
    }

    open spec fn spec_bits(self) -> u8 {
        self.spec_discriminant()
    }

    fn mask() -> u8 {
        0b0000_1111
    }

    fn bits(self) -> u8 {
        // `GYRO_ODR` occupies bits 3:0 in the register
        let r: u8 = match self {
            GyroOdr::Hz1600 => 0b0101,
            GyroOdr::Hz800 => 0b0110,
            GyroOdr::Hz400 => 0b0111,
            GyroOdr::Hz200 => 0b1000,
            GyroOdr::Hz100 => 0b1001,
            GyroOdr::Hz50 => 0b1010,
            GyroOdr::Hz25 => 0b1011,
            GyroOdr::Hz12_5 => 0b1100,
        };
        proof {
            assert(r < 0x10 ==> r & !0x0Fu8 == 0) by (bit_vector);
        }
        r
    }
}

impl Default for GyroOdr {
    /// The hardware reset state: 800 Hz, whose encoding is the documented
    /// power-on register value 0b0110.
    fn default() -> (r: Self)
        ensures
            r == GyroOdr::Hz800,
            r.spec_bits() == 0b0110,
    {
        GyroOdr::Hz800
    }
}

/// Masking an encoded gyroscope data rate recovers the variant it encodes;
/// the field sits in the low four bits, so no shift is involved.
pub proof fn lemma_gyro_odr_round_trip(v: GyroOdr)
    ensures
        GyroOdr::spec_decode(v.spec_bits() & GyroOdr::spec_mask()) == Ok::<GyroOdr, SensorError>(v),
{
    let b = v.spec_bits();
    assert(b < 0x10 ==> b & 0x0F == b) by (bit_vector);
}

/// Decoding a gyroscope data rate fails, with the invalid-discriminant
/// error, for every nibble value outside the eight documented codes.
pub proof fn lemma_gyro_odr_decode_rejects(value: u8)
    requires
        !GyroOdr::spec_valid_discriminant(value),
    ensures
        GyroOdr::spec_decode(value) == Err::<GyroOdr, SensorError>(
            SensorError::InvalidDiscriminant,
        ),
{
}

/// No two gyroscope data-rate variants share a raw discriminant.
pub proof fn lemma_gyro_odr_discriminants_disjoint(a: GyroOdr, b: GyroOdr)
    requires
        a.spec_discriminant() == b.spec_discriminant(),
    ensures
        a == b,
{
}

/// Gyroscope Filter Bandwidth selection values
#[derive(Clone, Copy, Debug, PartialEq, Eq, Structural)]
pub enum GyroBw {
    /// BW filter bypassed
    Hz10000,
    /// 180 Hz
    Hz180,
    /// 121 Hz
    Hz121,
    /// 73 Hz
    Hz73,
    /// 53 Hz
    Hz53,
    /// 34 Hz
    Hz34,
    /// 25 Hz
    Hz25,
    /// 16 Hz
    Hz16,
}

impl GyroBw {
    /// Raw discriminant: consecutive codes from 0b000 (filter bypassed)
    /// through 0b111 (16 Hz).
    pub open spec fn spec_discriminant(self) -> u8 {
        match self {
            GyroBw::Hz10000 => 0b000,
            GyroBw::Hz180 => 0b001,
            GyroBw::Hz121 => 0b010,
            GyroBw::Hz73 => 0b011,
            GyroBw::Hz53 => 0b100,
            GyroBw::Hz34 => 0b101,
            GyroBw::Hz25 => 0b110,
            GyroBw::Hz16 => 0b111,
        }
    }

    /// The discriminants the hardware defines: the field is three bits wide
    /// and every three-bit pattern selects a bandwidth.
    pub open spec fn spec_valid_discriminant(value: u8) -> bool {
        value <= 7
    }

    /// The bandwidth a masked register value decodes to.
    pub open spec fn spec_decode(value: u8) -> Result<GyroBw, SensorError> {
        if value == 0b000 {
            Ok(GyroBw::Hz10000)
        } else if value == 0b001 {
            Ok(GyroBw::Hz180)
        } else if value == 0b010 {
            Ok(GyroBw::Hz121)
        } else if value == 0b011 {
            Ok(GyroBw::Hz73)
        } else if value == 0b100 {
            Ok(GyroBw::Hz53)
        } else if value == 0b101 {
            Ok(GyroBw::Hz34)
        } else if value == 0b110 {
            Ok(GyroBw::Hz25)
        } else if value == 0b111 {
            Ok(GyroBw::Hz16)
        } else {
            Err(SensorError::InvalidDiscriminant)
        }
    }

    /// The filter bandwidth in microhertz; the bypass variant reports the
    /// sentinel 10000 Hz, meaning no filtering, not a literal cutoff.
    pub open spec fn spec_micro_hz(self) -> u64 {
        match self {
            GyroBw::Hz10000 => 10_000_000_000,
            GyroBw::Hz180 => 180_000_000,
            GyroBw::Hz121 => 121_000_000,
            GyroBw::Hz73 => 73_000_000,
            GyroBw::Hz53 => 53_000_000,
            GyroBw::Hz34 => 34_000_000,
            GyroBw::Hz25 => 25_000_000,
            GyroBw::Hz16 => 16_000_000,
        }
    }

    /// The filter bandwidth in microhertz.
    pub fn as_micro_hz(self) -> (r: u64)
        ensures
            r == self.spec_micro_hz(),
    {
        match self {
            GyroBw::Hz10000 => 10_000_000_000,  // filter is bypassed
            GyroBw::Hz180 => 180_000_000,
            GyroBw::Hz121 => 121_000_000,
            GyroBw::Hz73 => 73_000_000,
            GyroBw::Hz53 => 53_000_000,
            GyroBw::Hz34 => 34_000_000,
            GyroBw::Hz25 => 25_000_000,
            GyroBw::Hz16 => 16_000_000,
        }
    }

    /// Recovers the bandwidth selection from a masked register value;
    /// every value above 7 (caller mis-masking) is rejected.
    pub fn try_from(value: u8) -> (r: Result<GyroBw, SensorError>)
        ensures
            r == GyroBw::spec_decode(value),
            r is Ok <==> GyroBw::spec_valid_discriminant(value),
    {
        match value {
            0b000 => Ok(GyroBw::Hz10000),  // filter is bypassed
            0b001 => Ok(GyroBw::Hz180),
            0b010 => Ok(GyroBw::Hz121),
            0b011 => Ok(GyroBw::Hz73),
            0b100 => Ok(GyroBw::Hz53),
            0b101 => Ok(GyroBw::Hz34),
            0b110 => Ok(GyroBw::Hz25),
            0b111 => Ok(GyroBw::Hz16),
            _ => Err(SensorError::InvalidDiscriminant),
        }
    }
}

impl Bitfield for GyroBw {
    open spec fn spec_mask() -> u8 {
        0b0000_0111
    }

    open spec fn spec_bits(self) -> u8 {
        self.spec_discriminant()
    }

    fn mask() -> u8 {
        0b0000_0111
    }

    fn bits(self) -> u8 {
        // `GYRO_UI_FILT_BW` occupies bits 2:0 in the register
        let r: u8 = match self {
            GyroBw::Hz10000 => 0b000,
            GyroBw::Hz180 => 0b001,
            GyroBw::Hz121 => 0b010,
            GyroBw::Hz73 => 0b011,
            GyroBw::Hz53 => 0b100,
            GyroBw::Hz34 => 0b101,
            GyroBw::Hz25 => 0b110,
            GyroBw::Hz16 => 0b111,
        };
        proof {
            assert(r < 0x08 ==> r & !0x07u8 == 0) by (bit_vector);
        }
        r
    }
}

impl Default for GyroBw {
    /// The hardware reset state: a 180 Hz filter, whose encoding is the
    /// documented power-on register value 0b001.
    fn default() -> (r: Self)
        ensures
            r == GyroBw::Hz180,
            r.spec_bits() == 0b001,
    {
        GyroBw::Hz180
    }
}

/// Masking an encoded gyroscope bandwidth recovers the variant it encodes;
/// the field sits in the low three bits, so no shift is involved.
pub proof fn lemma_gyro_bw_round_trip(v: GyroBw)
    ensures
        GyroBw::spec_decode(v.spec_bits() & GyroBw::spec_mask()) == Ok::<GyroBw, SensorError>(v),
{
    let b = v.spec_bits();
    assert(b < 0x08 ==> b & 0x07 == b) by (bit_vector);
}

/// Decoding a gyroscope bandwidth succeeds for all eight three-bit values:
/// the code space has no reserved patterns.
pub proof fn lemma_gyro_bw_decode_total(value: u8)
    requires
        value <= 7,
    ensures
        GyroBw::spec_decode(value) is Ok,
{
}

/// No two gyroscope bandwidth variants share a raw discriminant.
pub proof fn lemma_gyro_bw_discriminants_disjoint(a: GyroBw, b: GyroBw)
    requires
        a.spec_discriminant() == b.spec_discriminant(),
    ensures
        a == b,
{
}

/// Acceleration Filter Bandwidth selection values
#[derive(Clone, Copy, Debug, PartialEq, Eq, Structural)]
pub enum AccelBw {
    /// BW filter bypassed
    Hz10000,
    /// 180 Hz
    Hz180,
    /// 121 Hz
    Hz121,
    /// 73 Hz
    Hz73,
    /// 53 Hz
    Hz53,
    /// 34 Hz
    Hz34,
    /// 25 Hz
    Hz25,
    /// 16 Hz
    Hz16,
}

impl AccelBw {
    /// Raw discriminant: consecutive codes from 0b000 (filter bypassed)
    /// through 0b111 (16 Hz).
    pub open spec fn spec_discriminant(self) -> u8 {
        match self {
            AccelBw::Hz10000 => 0b000,
            AccelBw::Hz180 => 0b001,
            AccelBw::Hz121 => 0b010,
            AccelBw::Hz73 => 0b011,
            AccelBw::Hz53 => 0b100,
            AccelBw::Hz34 => 0b101,
            AccelBw::Hz25 => 0b110,
            AccelBw::Hz16 => 0b111,
        }
    }

    /// The discriminants the hardware defines: the field is three bits wide
    /// and every three-bit pattern selects a bandwidth.
    pub open spec fn spec_valid_discriminant(value: u8) -> bool {
        value <= 7
    }

    /// The bandwidth a masked register value decodes to.
    pub open spec fn spec_decode(value: u8) -> Result<AccelBw, SensorError> {
        if value == 0b000 {
            Ok(AccelBw::Hz10000)
        } else if value == 0b001 {
            Ok(AccelBw::Hz180)
        } else if value == 0b010 {
            Ok(AccelBw::Hz121)
        } else if value == 0b011 {
            Ok(AccelBw::Hz73)
        } else if value == 0b100 {
            Ok(AccelBw::Hz53)
        } else if value == 0b101 {
            Ok(AccelBw::Hz34)
        } else if value == 0b110 {
            Ok(AccelBw::Hz25)
        } else if value == 0b111 {
            Ok(AccelBw::Hz16)
        } else {
            Err(SensorError::InvalidDiscriminant)
        }
    }

    /// The filter bandwidth in microhertz; the bypass variant reports the
    /// sentinel 10000 Hz, meaning no filtering, not a literal cutoff.
    pub open spec fn spec_micro_hz(self) -> u64 {
        match self {
            AccelBw::Hz10000 => 10_000_000_000,
            AccelBw::Hz180 => 180_000_000,
            AccelBw::Hz121 => 121_000_000,
            AccelBw::Hz73 => 73_000_000,
            AccelBw::Hz53 => 53_000_000,
            AccelBw::Hz34 => 34_000_000,
            AccelBw::Hz25 => 25_000_000,
            AccelBw::Hz16 => 16_000_000,
        }
    }

    /// The filter bandwidth in microhertz.
    pub fn as_micro_hz(self) -> (r: u64)
        ensures
            r == self.spec_micro_hz(),
    {
        match self {
            AccelBw::Hz10000 => 10_000_000_000,  // filter is bypassed
            AccelBw::Hz180 => 180_000_000,
            AccelBw::Hz121 => 121_000_000,
            AccelBw::Hz73 => 73_000_000,
            AccelBw::Hz53 => 53_000_000,
            AccelBw::Hz34 => 34_000_000,
            AccelBw::Hz25 => 25_000_000,
            AccelBw::Hz16 => 16_000_000,
        }
    }

    /// Recovers the bandwidth selection from a masked register value;
    /// every value above 7 (caller mis-masking) is rejected.
    pub fn try_from(value: u8) -> (r: Result<AccelBw, SensorError>)
        ensures
            r == AccelBw::spec_decode(value),
            r is Ok <==> AccelBw::spec_valid_discriminant(value),
    {
        match value {
            0b000 => Ok(AccelBw::Hz10000),  // filter is bypassed
            0b001 => Ok(AccelBw::Hz180),
            0b010 => Ok(AccelBw::Hz121),
            0b011 => Ok(AccelBw::Hz73),
            0b100 => Ok(AccelBw::Hz53),
            0b101 => Ok(AccelBw::Hz34),
            0b110 => Ok(AccelBw::Hz25),
            0b111 => Ok(AccelBw::Hz16),
            _ => Err(SensorError::InvalidDiscriminant),
        }
    }
}

impl Bitfield for AccelBw {
    open spec fn spec_mask() -> u8 {
        0b0000_0111
    }

    open spec fn spec_bits(self) -> u8 {
        self.spec_discriminant()
    }

    fn mask() -> u8 {
        0b0000_0111
    }

    fn bits(self) -> u8 {
        // `ACCEL_UI_FILT_BW` occupies bits 2:0 in the register
        let r: u8 = match self {
            AccelBw::Hz10000 => 0b000,
            AccelBw::Hz180 => 0b001,
            AccelBw::Hz121 => 0b010,
            AccelBw::Hz73 => 0b011,
            AccelBw::Hz53 => 0b100,
            AccelBw::Hz34 => 0b101,
            AccelBw::Hz25 => 0b110,
            AccelBw::Hz16 => 0b111,
        };
        proof {
            assert(r < 0x08 ==> r & !0x07u8 == 0) by (bit_vector);
        }
        r
    }
}

impl Default for AccelBw {
    /// The hardware reset state: a 180 Hz filter, whose encoding is the
    /// documented power-on register value 0b001.
    fn default() -> (r: Self)
        ensures
            r == AccelBw::Hz180,
            r.spec_bits() == 0b001,
    {
        AccelBw::Hz180
    }
}

/// Masking an encoded accelerometer bandwidth recovers the variant it
/// encodes; the field sits in the low three bits, so no shift is involved.
pub proof fn lemma_accel_bw_round_trip(v: AccelBw)
    ensures
        AccelBw::spec_decode(v.spec_bits() & AccelBw::spec_mask()) == Ok::<AccelBw, SensorError>(v),
{
    let b = v.spec_bits();
    assert(b < 0x08 ==> b & 0x07 == b) by (bit_vector);
}

/// Decoding an accelerometer bandwidth succeeds for all eight three-bit
/// values: the code space has no reserved patterns.
pub proof fn lemma_accel_bw_decode_total(value: u8)
    requires
        value <= 7,
    ensures
        AccelBw::spec_decode(value) is Ok,
{
}

/// No two accelerometer bandwidth variants share a raw discriminant.
pub proof fn lemma_accel_bw_discriminants_disjoint(a: AccelBw, b: AccelBw)
    requires
        a.spec_discriminant() == b.spec_discriminant(),
    ensures
        a == b,
{
}

} // verus!
