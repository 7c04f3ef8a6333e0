use imu_config::config::AccelBw;
use imu_config::config::AccelOdr;
use imu_config::config::AccelRange;
use imu_config::config::Address;
use imu_config::config::Bitfield;
use imu_config::config::GyroBw;
use imu_config::config::GyroOdr;
use imu_config::config::GyroRange;
use imu_config::config::PowerMode;
use imu_config::error::SensorError;

fn all_accel_ranges() -> Vec<AccelRange> {
    vec![AccelRange::G2, AccelRange::G4, AccelRange::G8, AccelRange::G16]
}

fn all_gyro_ranges() -> Vec<GyroRange> {
    vec![GyroRange::Deg250, GyroRange::Deg500, GyroRange::Deg1000, GyroRange::Deg2000]
}

fn all_power_modes() -> Vec<PowerMode> {
    vec![
        PowerMode::Sleep,
        PowerMode::Standby,
        PowerMode::AccelLowPower,
        PowerMode::AccelLowNoise,
        PowerMode::GyroLowNoise,
        PowerMode::SixAxisLowNoise,
        PowerMode::Idle,
    ]
}

fn all_accel_odrs() -> Vec<AccelOdr> {
    vec![
        AccelOdr::Hz1600,
        AccelOdr::Hz800,
        AccelOdr::Hz400,
        AccelOdr::Hz200,
        AccelOdr::Hz100,
        AccelOdr::Hz50,
        AccelOdr::Hz25,
        AccelOdr::Hz12_5,
        AccelOdr::Hz6_25,
        AccelOdr::Hz3_125,
        AccelOdr::Hz1_5625,
    ]
}

fn all_gyro_odrs() -> Vec<GyroOdr> {
    vec![
        GyroOdr::Hz1600,
        GyroOdr::Hz800,
        GyroOdr::Hz400,
        GyroOdr::Hz200,
        GyroOdr::Hz100,
        GyroOdr::Hz50,
        GyroOdr::Hz25,
        GyroOdr::Hz12_5,
    ]
}

fn all_gyro_bws() -> Vec<GyroBw> {
    vec![
        GyroBw::Hz10000,
        GyroBw::Hz180,
        GyroBw::Hz121,
        GyroBw::Hz73,
        GyroBw::Hz53,
        GyroBw::Hz34,
        GyroBw::Hz25,
        GyroBw::Hz16,
    ]
}

fn all_accel_bws() -> Vec<AccelBw> {
    vec![
        AccelBw::Hz10000,
        AccelBw::Hz180,
        AccelBw::Hz121,
        AccelBw::Hz73,
        AccelBw::Hz53,
        AccelBw::Hz34,
        AccelBw::Hz25,
        AccelBw::Hz16,
    ]
}

#[test]
fn address_values() {
    assert_eq!(Address::Primary.as_u8(), 0x68);
    assert_eq!(Address::Secondary.as_u8(), 0x69);
    assert_ne!(Address::Primary.as_u8(), Address::Secondary.as_u8());
}

#[test]
fn accel_range_round_trip() {
    for v in all_accel_ranges() {
        assert_eq!(AccelRange::try_from((v.bits() & AccelRange::mask()) >> 5), Ok(v));
    }
}

#[test]
fn gyro_range_round_trip() {
    for v in all_gyro_ranges() {
        assert_eq!(GyroRange::try_from((v.bits() & GyroRange::mask()) >> 5), Ok(v));
    }
}

#[test]
fn power_mode_round_trip() {
    for v in all_power_modes() {
        assert_eq!(PowerMode::try_from(v.bits() & PowerMode::mask()), Ok(v));
    }
}

#[test]
fn accel_odr_round_trip() {
    for v in all_accel_odrs() {
        assert_eq!(AccelOdr::try_from(v.bits() & AccelOdr::mask()), Ok(v));
    }
}

#[test]
fn gyro_odr_round_trip() {
    for v in all_gyro_odrs() {
        assert_eq!(GyroOdr::try_from(v.bits() & GyroOdr::mask()), Ok(v));
    }
}

#[test]
fn gyro_bw_round_trip() {
    for v in all_gyro_bws() {
        assert_eq!(GyroBw::try_from(v.bits() & GyroBw::mask()), Ok(v));
    }
}

#[test]
fn accel_bw_round_trip() {
    for v in all_accel_bws() {
        assert_eq!(AccelBw::try_from(v.bits() & AccelBw::mask()), Ok(v));
    }
}

#[test]
fn mask_containment() {
    for v in all_accel_ranges() {
        assert_eq!(v.bits() & !AccelRange::mask(), 0);
    }
    for v in all_gyro_ranges() {
        assert_eq!(v.bits() & !GyroRange::mask(), 0);
    }
    for v in all_power_modes() {
        assert_eq!(v.bits() & !PowerMode::mask(), 0);
    }
    for v in all_accel_odrs() {
        assert_eq!(v.bits() & !AccelOdr::mask(), 0);
    }
    for v in all_gyro_odrs() {
        assert_eq!(v.bits() & !GyroOdr::mask(), 0);
    }
    for v in all_gyro_bws() {
        assert_eq!(v.bits() & !GyroBw::mask(), 0);
    }
    for v in all_accel_bws() {
        assert_eq!(v.bits() & !AccelBw::mask(), 0);
    }
}

#[test]
fn bw_decode_total_over_three_bits() {
    for value in 0u8..8 {
        assert!(AccelBw::try_from(value).is_ok());
        assert!(GyroBw::try_from(value).is_ok());
    }
}

#[test]
fn range_decode_total_over_two_bits() {
    for value in 0u8..4 {
        assert!(AccelRange::try_from(value).is_ok());
        assert!(GyroRange::try_from(value).is_ok());
    }
}

#[test]
fn power_mode_decode_rejects_reserved_patterns() {
    let legal: Vec<u8> = vec![0, 4, 2, 3, 12, 15, 16];
    let mut rejected: usize = 0;
    for value in 0u8..32 {
        if legal.contains(&value) {
            assert!(PowerMode::try_from(value).is_ok());
        } else {
            assert_eq!(PowerMode::try_from(value), Err(SensorError::InvalidDiscriminant));
            rejected += 1;
        }
    }
    assert_eq!(rejected, 25);
    assert_eq!(PowerMode::try_from(0b00001), Err(SensorError::InvalidDiscriminant));
}

#[test]
fn odr_decode_rejects_reserved_codes() {
    for value in 0u8..0b0101 {
        assert_eq!(AccelOdr::try_from(value), Err(SensorError::InvalidDiscriminant));
        assert_eq!(GyroOdr::try_from(value), Err(SensorError::InvalidDiscriminant));
    }
    for value in 0b1101u8..=0b1111 {
        assert_eq!(GyroOdr::try_from(value), Err(SensorError::InvalidDiscriminant));
    }
    assert_eq!(AccelOdr::try_from(16), Err(SensorError::InvalidDiscriminant));
    assert_eq!(GyroOdr::try_from(16), Err(SensorError::InvalidDiscriminant));
}

#[test]
fn range_and_bw_decode_reject_out_of_field_values() {
    assert_eq!(AccelRange::try_from(4), Err(SensorError::InvalidDiscriminant));
    assert_eq!(GyroRange::try_from(4), Err(SensorError::InvalidDiscriminant));
    assert_eq!(AccelBw::try_from(8), Err(SensorError::InvalidDiscriminant));
    assert_eq!(GyroBw::try_from(8), Err(SensorError::InvalidDiscriminant));
}

#[test]
fn defaults_encode_reset_values() {
    assert_eq!(AccelRange::default(), AccelRange::G16);
    assert_eq!(AccelRange::default().bits(), 0);
    assert_eq!(GyroRange::default(), GyroRange::Deg2000);
    assert_eq!(GyroRange::default().bits(), 0);
    assert_eq!(PowerMode::default(), PowerMode::Sleep);
    assert_eq!(PowerMode::default().bits(), 0b00000);
    assert_eq!(AccelOdr::default(), AccelOdr::Hz800);
    assert_eq!(AccelOdr::default().bits(), 0b0110);
    assert_eq!(GyroOdr::default(), GyroOdr::Hz800);
    assert_eq!(GyroOdr::default().bits(), 0b0110);
    assert_eq!(AccelBw::default(), AccelBw::Hz180);
    assert_eq!(AccelBw::default().bits(), 0b001);
    assert_eq!(GyroBw::default(), GyroBw::Hz180);
    assert_eq!(GyroBw::default().bits(), 0b001);
}

#[test]
fn accel_scale_factors_exact() {
    assert_eq!(AccelRange::G2.scale_factor_milli(), 16_384_000);
    assert_eq!(AccelRange::G4.scale_factor_milli(), 8_192_000);
    assert_eq!(AccelRange::G8.scale_factor_milli(), 4_096_000);
    assert_eq!(AccelRange::G16.scale_factor_milli(), 2_048_000);
    assert!(AccelRange::G16.scale_factor_milli() as f64 / 1000.0 == 2048.0);
}

#[test]
fn gyro_scale_factors_exact() {
    assert_eq!(GyroRange::Deg250.scale_factor_milli(), 131_000);
    assert_eq!(GyroRange::Deg500.scale_factor_milli(), 65_500);
    assert_eq!(GyroRange::Deg1000.scale_factor_milli(), 32_800);
    assert_eq!(GyroRange::Deg2000.scale_factor_milli(), 16_400);
    assert!(GyroRange::Deg250.scale_factor_milli() as f64 / 1000.0 == 131.0);
    assert!(GyroRange::Deg500.scale_factor_milli() as f64 / 1000.0 == 65.5);
}

#[test]
fn odr_frequencies_exact() {
    assert_eq!(AccelOdr::Hz1600.as_micro_hz(), 1_600_000_000);
    assert_eq!(AccelOdr::Hz800.as_micro_hz(), 800_000_000);
    assert_eq!(AccelOdr::Hz400.as_micro_hz(), 400_000_000);
    assert_eq!(AccelOdr::Hz200.as_micro_hz(), 200_000_000);
    assert_eq!(AccelOdr::Hz100.as_micro_hz(), 100_000_000);
    assert_eq!(AccelOdr::Hz50.as_micro_hz(), 50_000_000);
    assert_eq!(AccelOdr::Hz25.as_micro_hz(), 25_000_000);
    assert_eq!(AccelOdr::Hz12_5.as_micro_hz(), 12_500_000);
    assert_eq!(AccelOdr::Hz6_25.as_micro_hz(), 6_250_000);
    assert_eq!(AccelOdr::Hz3_125.as_micro_hz(), 3_125_000);
    assert_eq!(AccelOdr::Hz1_5625.as_micro_hz(), 1_562_500);
    assert!(AccelOdr::Hz1_5625.as_micro_hz() as f64 / 1_000_000.0 == 1.5625);
    assert_eq!(GyroOdr::Hz1600.as_micro_hz(), 1_600_000_000);
    assert_eq!(GyroOdr::Hz12_5.as_micro_hz(), 12_500_000);
    assert!(GyroOdr::Hz12_5.as_micro_hz() as f64 / 1_000_000.0 == 12.5);
}

#[test]
fn bw_frequencies_exact() {
    let expected: Vec<u64> = vec![
        10_000_000_000,
        180_000_000,
        121_000_000,
        73_000_000,
        53_000_000,
        34_000_000,
        25_000_000,
        16_000_000,
    ];
    let gyro: Vec<u64> = all_gyro_bws().into_iter().map(|v| v.as_micro_hz()).collect();
    let accel: Vec<u64> = all_accel_bws().into_iter().map(|v| v.as_micro_hz()).collect();
    assert_eq!(gyro, expected);
    assert_eq!(accel, expected);
    // the bypass sentinel means "no filtering", reported as 10000 Hz
    assert!(GyroBw::Hz10000.as_micro_hz() as f64 / 1_000_000.0 == 10000.0);
    assert!(AccelBw::Hz10000.as_micro_hz() as f64 / 1_000_000.0 == 10000.0);
}

fn assert_all_distinct(values: &[u8]) {
    for i in 0..values.len() {
        for j in 0..values.len() {
            if i != j {
                assert_ne!(values[i], values[j]);
            }
        }
    }
}

#[test]
fn discriminant_sets_disjoint() {
    let accel_ranges: Vec<u8> = all_accel_ranges().into_iter().map(|v| v.bits()).collect();
    assert_all_distinct(&accel_ranges);
    let gyro_ranges: Vec<u8> = all_gyro_ranges().into_iter().map(|v| v.bits()).collect();
    assert_all_distinct(&gyro_ranges);
    let modes: Vec<u8> = all_power_modes().into_iter().map(|v| v.bits()).collect();
    assert_all_distinct(&modes);
    let accel_odrs: Vec<u8> = all_accel_odrs().into_iter().map(|v| v.bits()).collect();
    assert_all_distinct(&accel_odrs);
    let gyro_odrs: Vec<u8> = all_gyro_odrs().into_iter().map(|v| v.bits()).collect();
    assert_all_distinct(&gyro_odrs);
    let gyro_bws: Vec<u8> = all_gyro_bws().into_iter().map(|v| v.bits()).collect();
    assert_all_distinct(&gyro_bws);
    let accel_bws: Vec<u8> = all_accel_bws().into_iter().map(|v| v.bits()).collect();
    assert_all_distinct(&accel_bws);
    let addresses: Vec<u8> = vec![Address::Primary.as_u8(), Address::Secondary.as_u8()];
    assert_all_distinct(&addresses);
}

#[test]
fn power_mode_readback_end_to_end() {
    // A raw power-mode register byte as read back from the device, with
    // stray bits set above the field.
    let raw: u8 = 0b01001111;
    let masked: u8 = raw & PowerMode::mask();
    assert_eq!(masked, 0b01111);
    let mode = PowerMode::try_from(masked);
    assert_eq!(mode, Ok(PowerMode::SixAxisLowNoise));
    assert_eq!(PowerMode::SixAxisLowNoise.bits(), 0b00001111);
    assert_eq!(PowerMode::SixAxisLowNoise.bits(), masked);
}

#[test]
fn masks_match_register_layout() {
    assert_eq!(AccelRange::mask(), 0b0110_0000);
    assert_eq!(GyroRange::mask(), 0b0110_0000);
    assert_eq!(PowerMode::mask(), 0b0001_1111);
    assert_eq!(AccelOdr::mask(), 0b0000_1111);
    assert_eq!(GyroOdr::mask(), 0b0000_1111);
    assert_eq!(AccelBw::mask(), 0b0000_0111);
    assert_eq!(GyroBw::mask(), 0b0000_0111);
}
