use energy_frame::field::{Field, FieldType};
use energy_frame::frame::{
    days_in_month, decode, measurements, read_raw, serial, timestamp, validate, write_raw,
    FrameError, Timestamp,
};
use energy_frame::registry::{fields, DATETIME_OFFSET, MAGIC_HEADER, MAGIC_LENGTH};

fn valid_frame() -> Vec<u8> {
    let mut b = vec![0u8; MAGIC_LENGTH];
    b[0] = MAGIC_HEADER;
    b[11..21].copy_from_slice(b"ABCDEFGHIJ");
    b[DATETIME_OFFSET..DATETIME_OFFSET + 6].copy_from_slice(&[24, 5, 17, 12, 30, 45]);
    b
}

fn physical_of(buf: &[u8], id: &str) -> (u16, i64) {
    let d = decode(buf).unwrap();
    let m = d.measurements.iter().find(|m| m.field.id == id).unwrap();
    (m.raw, m.physical)
}

fn with_raw(offset: usize, raw: u16) -> Vec<u8> {
    let mut b = valid_frame();
    write_raw(&mut b, offset, raw);
    b
}

#[test]
fn validate_accepts_well_formed_frame() {
    assert_eq!(validate(&valid_frame()), Ok(()));
}

#[test]
fn validate_rejects_wrong_lengths() {
    for len in [0usize, 1, 291, 293, 584] {
        let mut b = vec![0u8; len];
        if len > 0 {
            b[0] = MAGIC_HEADER;
        }
        assert_eq!(validate(&b), Err(FrameError::ShortFrame));
        assert_eq!(decode(&b).unwrap_err(), FrameError::ShortFrame);
    }
}

#[test]
fn validate_rejects_bad_magic() {
    for first in [0x00u8, 0xa4, 0xa6, 0x5a, 0xff] {
        let mut b = valid_frame();
        b[0] = first;
        assert_eq!(validate(&b), Err(FrameError::BadMagic));
        assert_eq!(decode(&b).unwrap_err(), FrameError::BadMagic);
    }
}

#[test]
fn temperature_scaling() {
    assert_eq!(physical_of(&with_raw(240, 1000), "battery_temperature"), (1000, 0));
    assert_eq!(physical_of(&with_raw(240, 1500), "battery_temperature"), (1500, 5000));
    assert_eq!(physical_of(&with_raw(240, 0), "battery_temperature"), (0, -10000));
    let (_, p) = physical_of(&with_raw(106, 1500), "inverter_temperature_dc");
    assert_eq!(p as f64 / 100.0, 50.0);
}

#[test]
fn voltage_scaling() {
    let (raw, p) = physical_of(&with_raw(176, 2300), "grid_voltage");
    assert_eq!(raw, 2300);
    assert_eq!(p, 23000);
    assert_eq!(p as f64 / 100.0, 230.0);
}

#[test]
fn state_of_charge_scaling() {
    let (raw, p) = physical_of(&with_raw(244, 85), "battery_soc");
    assert_eq!(raw, 85);
    assert_eq!(p as f64 / 100.0, 85.0);
}

#[test]
fn other_kinds_scaling() {
    assert_eq!(physical_of(&with_raw(258, 1234), "battery_current").1, 1234);
    assert_eq!(physical_of(&with_raw(84, 5000), "grid_frequency").1, 5000);
    assert_eq!(physical_of(&with_raw(70, 12345), "battery_charge_total").1, 123450);
    assert_eq!(physical_of(&with_raw(140, 200), "battery_capacity").1, 20000);
    assert_eq!(physical_of(&with_raw(216, 3000), "grid_power").1, 300000);
}

#[test]
fn serial_extraction() {
    let d = decode(&valid_frame()).unwrap();
    assert_eq!(d.serial, "ABCDEFGHIJ");
    assert_eq!(serial(&valid_frame()), Ok("ABCDEFGHIJ".to_string()));
}

#[test]
fn serial_rejects_unprintable_bytes() {
    for bad in [0x00u8, 0x1f, 0x7f, 0xff] {
        let mut b = valid_frame();
        b[15] = bad;
        assert_eq!(serial(&b), Err(FrameError::InvalidSerial));
        assert_eq!(decode(&b).unwrap_err(), FrameError::InvalidSerial);
    }
}

#[test]
fn timestamp_extraction() {
    let t = timestamp(&valid_frame()).unwrap();
    assert_eq!(
        t,
        Timestamp { year: 2024, month: 5, day: 17, hour: 12, minute: 30, second: 45 }
    );
    assert_eq!(decode(&valid_frame()).unwrap().timestamp, t);
}

#[test]
fn timestamp_rejects_impossible_values() {
    let o = DATETIME_OFFSET;
    let cases: [(usize, u8); 6] = [(1, 0), (1, 13), (2, 0), (3, 24), (4, 60), (5, 60)];
    for (k, v) in cases {
        let mut b = valid_frame();
        b[o + k] = v;
        assert_eq!(timestamp(&b), Err(FrameError::InvalidTimestamp));
        assert_eq!(decode(&b).unwrap_err(), FrameError::InvalidTimestamp);
    }
    let mut b = valid_frame();
    b[o..o + 3].copy_from_slice(&[23, 2, 29]);
    assert_eq!(timestamp(&b), Err(FrameError::InvalidTimestamp));
    b[o] = 24;
    assert!(timestamp(&b).is_ok());
    b[o + 1] = 4;
    b[o + 2] = 31;
    assert_eq!(timestamp(&b), Err(FrameError::InvalidTimestamp));
}

#[test]
fn days_in_month_values() {
    assert_eq!(days_in_month(2024, 2), 29);
    assert_eq!(days_in_month(2023, 2), 28);
    assert_eq!(days_in_month(2100, 2), 28);
    assert_eq!(days_in_month(2000, 2), 29);
    assert_eq!(days_in_month(2023, 4), 30);
    assert_eq!(days_in_month(2023, 12), 31);
}

#[test]
fn garbage_payload_gives_every_field_in_order() {
    let mut b = valid_frame();
    let mut x: u32 = 0x1234_5678;
    for (i, byte) in b.iter_mut().enumerate() {
        x = x.wrapping_mul(1_103_515_245).wrapping_add(12_345);
        let keep = i == 0 || (11..21).contains(&i) || (DATETIME_OFFSET..DATETIME_OFFSET + 6).contains(&i);
        if !keep {
            *byte = (x >> 16) as u8;
        }
    }
    let d = decode(&b).unwrap();
    let reg = fields();
    assert_eq!(d.measurements.len(), 20);
    for (m, f) in d.measurements.iter().zip(reg.iter()) {
        assert_eq!(m.field.id, f.id);
        assert_eq!(m.field.offset, f.offset);
        let raw = u16::from_be_bytes([b[f.offset], b[f.offset + 1]]);
        assert_eq!(m.raw, raw);
        assert_eq!(m.physical, raw as i64 * f.scale + f.bias);
    }
}

#[test]
fn every_field_decodes_encoded_raw() {
    for f in fields() {
        for r in [0u16, 1, 1000, 12345, u16::MAX] {
            let b = with_raw(f.offset, r);
            let (raw, p) = physical_of(&b, f.id);
            assert_eq!(raw, r);
            assert_eq!(p, r as i64 * f.scale + f.bias);
        }
    }
}

#[test]
fn raw_values_are_big_endian() {
    let mut b = vec![0u8; 4];
    write_raw(&mut b, 1, 0x1234);
    assert_eq!(b, vec![0, 0x12, 0x34, 0]);
    assert_eq!(read_raw(&b, 1), 0x1234);
    assert_eq!(read_raw(&b, 0), 0x0012);
}

#[test]
fn registry_layout() {
    let reg = fields();
    let offsets: Vec<usize> = reg.iter().map(|f| f.offset).collect();
    assert_eq!(
        offsets,
        vec![70, 74, 82, 88, 84, 96, 106, 108, 118, 140, 176, 184, 216, 228, 240, 244, 248, 256, 258, 260]
    );
    assert_eq!(reg[0].id, "battery_charge_total");
    assert_eq!(reg[0].name, "Total charge");
    assert_eq!(reg[0].group, "Battery");
    assert_eq!(reg[19].id, "load_frequency");
    let mut ids: Vec<&str> = reg.iter().map(|f| f.id).collect();
    ids.sort();
    ids.dedup();
    assert_eq!(ids.len(), 20);
    assert!(reg.iter().all(|f| f.offset + 2 <= MAGIC_LENGTH));
}

#[test]
fn constructors_fix_scale_bias_and_unit() {
    let cases: Vec<(Field, FieldType, i64, i64, &str, &str)> = vec![
        (Field::power(1, "G", "p"), FieldType::Power, 100, 0, "W", "Power"),
        (Field::voltage(1, "G", "v"), FieldType::Voltage, 10, 0, "V", "Voltage"),
        (Field::current(1, "G", "c"), FieldType::Current, 1, 0, "A", "Current"),
        (Field::temperature(1, "G", "t"), FieldType::Temperature, 10, -10000, "°C", "Temperature"),
        (Field::temperature_name(1, "G", "Hot", "t"), FieldType::Temperature, 10, -10000, "°C", "Hot"),
        (Field::frequency(1, "G", "f"), FieldType::Frequency, 1, 0, "Hz", "Frequency"),
        (Field::energy(1, "G", "E", "e"), FieldType::Energy, 10, 0, "kWh", "E"),
        (Field::charge(1, "G", "C", "q"), FieldType::Charge, 100, 0, "Ah", "C"),
        (Field::state_of_charge(1, "G", "s"), FieldType::StateOfCharge, 100, 0, "%", "SOC"),
    ];
    for (f, t, scale, bias, unit, name) in cases {
        assert_eq!(f.field_type, t);
        assert_eq!(f.offset, 1);
        assert_eq!(f.group, "G");
        assert_eq!(f.scale, scale);
        assert_eq!(f.bias, bias);
        assert_eq!(f.unit, unit);
        assert_eq!(f.name, name);
    }
}

#[test]
fn measurements_reports_field_out_of_range() {
    let reg = [Field::power(0, "G", "a"), Field::voltage(3, "G", "b")];
    assert_eq!(measurements(&reg, &[0, 1, 2, 3]).unwrap_err(), FrameError::FieldOutOfRange);
    let ms = measurements(&reg, &[0, 1, 2, 3, 4]).unwrap();
    assert_eq!(ms.len(), 2);
    assert_eq!((ms[0].raw, ms[0].physical), (1, 100));
    assert_eq!((ms[1].raw, ms[1].physical), (0x0304, 7720));
    assert!(measurements(&[], &[]).unwrap().is_empty());
}
