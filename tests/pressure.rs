use sensor_node::error::SensorError;
use sensor_node::pressure::{
    chip_id_is_expected, is_measuring, status_poll_step, Bmp280, Bmp280Init, BusOp, Calibration,
    PollStep, PressureReading, CALIBRATION_LEN, CONFIG_SETTLE_MS, CONFIG_VALUE, CTRL_MEAS_VALUE,
    INIT_STEPS, REG_CALIBRATION, REG_CHIP_ID, REG_CONFIG, REG_CTRL_MEAS, REG_RESET,
    RESET_SETTLE_MS, RESET_VALUE, STATUS_POLL_LIMIT,
};

const SAMPLE_BLOCK: [u8; 24] = [
    112, 107, 67, 103, 24, 252, 125, 142, 67, 214, 208, 11, 39, 11, 140, 0, 249, 255, 140, 60,
    248, 198, 112, 23,
];

fn sample_calibration() -> Calibration {
    Calibration {
        dig_t1: 27504,
        dig_t2: 26435,
        dig_t3: -1000,
        dig_p1: 36477,
        dig_p2: -10685,
        dig_p3: 3024,
        dig_p4: 2855,
        dig_p5: 140,
        dig_p6: -7,
        dig_p7: 15500,
        dig_p8: -14600,
        dig_p9: 6000,
    }
}

fn burst_for(adc_p: u32, adc_t: u32) -> [u8; 6] {
    [
        (adc_p >> 12) as u8,
        ((adc_p >> 4) & 0xFF) as u8,
        ((adc_p & 0xF) << 4) as u8,
        (adc_t >> 12) as u8,
        ((adc_t >> 4) & 0xFF) as u8,
        ((adc_t & 0xF) << 4) as u8,
    ]
}

fn altitude_m(pressure_hpa: f32) -> f32 {
    44330.0 * (1.0 - (pressure_hpa / 1013.25_f32).powf(0.1903))
}

#[test]
fn calibration_block_decodes_little_endian_fields() {
    assert_eq!(Calibration::from_block(&SAMPLE_BLOCK), sample_calibration());
}

#[test]
fn calibration_signedness_follows_layout() {
    let mut block = [0u8; 24];
    block[0] = 0xFF;
    block[1] = 0xFF;
    block[2] = 0xFF;
    block[3] = 0xFF;
    block[6] = 0x01;
    block[7] = 0x80;
    block[22] = 0x00;
    block[23] = 0x80;
    let c = Calibration::from_block(&block);
    assert_eq!(c.dig_t1, 65535);
    assert_eq!(c.dig_t2, -1);
    assert_eq!(c.dig_t3, 0);
    assert_eq!(c.dig_p1, 32769);
    assert_eq!(c.dig_p9, -32768);
}

/// Runs a construction against a chip that answers the identity `id` and the
/// calibration block `block`; returns the operations issued and the driver.
fn construct(id: u8, block: &[u8; 24]) -> (Vec<BusOp>, Bmp280, u8) {
    let mut init = Bmp280Init::new();
    let mut ops = Vec::new();
    while !init.is_complete() {
        let op = init.next_op();
        ops.push(op);
        match op {
            BusOp::Read { reg, .. } if reg == REG_CHIP_ID => init.on_success(&[id]),
            BusOp::Read { .. } => init.on_success(block),
            _ => init.on_success(&[]),
        }
    }
    (ops, init.finish(), init.chip_id)
}

fn sample_driver() -> Bmp280 {
    construct(0x58, &SAMPLE_BLOCK).1
}

#[test]
fn construction_issues_register_protocol_in_order() {
    let (ops, driver, id) = construct(0x58, &SAMPLE_BLOCK);
    assert_eq!(ops.len(), INIT_STEPS);
    assert_eq!(
        ops,
        vec![
            BusOp::Read { reg: REG_CHIP_ID, len: 1 },
            BusOp::Read { reg: REG_CALIBRATION, len: CALIBRATION_LEN },
            BusOp::Write { reg: REG_RESET, value: RESET_VALUE },
            BusOp::Delay { ms: RESET_SETTLE_MS },
            BusOp::Write { reg: REG_CTRL_MEAS, value: CTRL_MEAS_VALUE },
            BusOp::Write { reg: REG_CONFIG, value: CONFIG_VALUE },
            BusOp::Delay { ms: CONFIG_SETTLE_MS },
        ]
    );
    assert_eq!(ops[0], BusOp::Read { reg: 0xD0, len: 1 });
    assert_eq!(ops[1], BusOp::Read { reg: 0x88, len: 24 });
    assert_eq!(ops[2], BusOp::Write { reg: 0xE0, value: 0xB6 });
    assert_eq!(ops[4], BusOp::Write { reg: 0xF4, value: 0b1011_0111 });
    assert_eq!(ops[5], BusOp::Write { reg: 0xF5, value: 0b0001_0000 });
    assert_eq!(driver.calibration, sample_calibration());
    assert_eq!(driver.t_fine, 0);
    assert_eq!(id, 0x58);
}

#[test]
fn unexpected_identity_does_not_stop_construction() {
    let (_, driver, id) = construct(0x60, &SAMPLE_BLOCK);
    assert!(!chip_id_is_expected(id));
    assert_eq!(driver.calibration, sample_calibration());
}

#[test]
fn reconstruction_gives_identical_calibration() {
    let (_, first, _) = construct(0x58, &SAMPLE_BLOCK);
    let (_, second, _) = construct(0x58, &SAMPLE_BLOCK);
    assert_eq!(first.calibration, second.calibration);
    assert_eq!(first.calibration, sample_calibration());
}

#[test]
fn reference_temperature_compensation() {
    let mut d = Bmp280 { calibration: sample_calibration(), t_fine: 0 };
    let t = d.compensate_temperature(519888);
    assert_eq!(d.t_fine, 128422);
    assert_eq!(t, 2508);
    assert!((t as f32 / 100.0 - 25.08).abs() < 0.01);
}

#[test]
fn reference_pressure_compensation() {
    let mut d = Bmp280 { calibration: sample_calibration(), t_fine: 0 };
    d.compensate_temperature(519888);
    let p = d.compensate_pressure(415148).unwrap();
    assert_eq!(p, 25767233);
    let pa = p as f64 / 256.0;
    assert!((pa - 100653.25).abs() < 0.01);
}

#[test]
fn zero_denominator_gives_zero_pressure() {
    let mut cal = sample_calibration();
    cal.dig_p1 = 0;
    let d = Bmp280 { calibration: cal, t_fine: 128422 };
    assert_eq!(d.compensate_pressure(415148), Some(0));
}

#[test]
fn overflowing_pipeline_is_reported() {
    let mut cal = sample_calibration();
    cal.dig_p6 = 32767;
    cal.dig_p3 = 32767;
    cal.dig_p1 = 65535;
    let mut d = Bmp280 { calibration: cal, t_fine: 0 };
    assert_eq!(d.compensate_pressure(415148), None);
    let burst = burst_for(415148, 0);
    assert_eq!(d.reading_from_burst(&burst), Err(SensorError::OutOfRange));
}

#[test]
fn burst_reading_matches_reference() {
    let mut d = Bmp280 { calibration: sample_calibration(), t_fine: 0 };
    let burst = burst_for(415148, 519888);
    let r = d.reading_from_burst(&burst).unwrap();
    assert_eq!(r, PressureReading { centi_celsius: 2508, pressure_q24_8: 25767233 });
    assert_eq!(d.t_fine, 128422);
}

#[test]
fn scenario_reading_and_persisted_line() {
    let burst = [101u8, 81, 128, 101, 81, 128];
    let mut d = sample_driver();
    let r = d.reading_from_burst(&burst).unwrap();
    assert_eq!(r.centi_celsius, -791);
    assert_eq!(r.pressure_q24_8, 24486876);
    let temperature = r.centi_celsius as f32 / 100.0;
    let pressure_hpa = (r.pressure_q24_8 as f32 / 256.0) / 100.0;
    let altitude = altitude_m(pressure_hpa);
    assert!((pressure_hpa - 956.52).abs() < 0.01);
    assert!((altitude - 483.41).abs() < 0.5);
    let line = format!("{},{:.2},{:.2},{:.2}\n", 600, temperature, pressure_hpa, altitude);
    assert!(line.starts_with("600,-7.91,956.52,"));
    assert_eq!(line.matches(',').count(), 3);
}

#[test]
fn altitude_reference_points() {
    assert!(altitude_m(1013.25).abs() < 1e-3);
    let mut previous = altitude_m(300.0);
    let mut hpa = 310.0_f32;
    while hpa <= 1100.0 {
        let a = altitude_m(hpa);
        assert!(a < previous);
        previous = a;
        hpa += 10.0;
    }
}

#[test]
fn status_bit_three_means_measuring() {
    assert!(is_measuring(0x08));
    assert!(is_measuring(0xFF));
    assert!(!is_measuring(0x00));
    assert!(!is_measuring(0xF7));
}

#[test]
fn status_poll_reads_data_when_ready_or_budget_spent() {
    assert_eq!(status_poll_step(1, 0x00), PollStep::ReadData);
    assert_eq!(status_poll_step(1, 0x08), PollStep::WaitAndPoll);
    assert_eq!(status_poll_step(9, 0x08), PollStep::WaitAndPoll);
    assert_eq!(status_poll_step(STATUS_POLL_LIMIT, 0x08), PollStep::WaitAndReadData);
    assert_eq!(status_poll_step(STATUS_POLL_LIMIT, 0x01), PollStep::ReadData);
}

#[test]
fn chip_identity_check() {
    assert!(chip_id_is_expected(0x58));
    assert!(!chip_id_is_expected(0x60));
}
