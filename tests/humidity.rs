use sensor_node::error::SensorError;
use sensor_node::humidity::{
    bit_from_pulse, byte_from_pulses, checksum, decode_frame, decode_pulses, frame_from_pulses,
    wait_step, HumidityReading, Reception, ReceptionStep, WaitStep, TOTAL_WAITS, WAIT_BUDGET_US,
};

fn pulses_for(frame: [u8; 5]) -> Vec<u64> {
    let mut pulses = Vec::new();
    for byte in frame {
        for i in 0..8 {
            let one = byte & (0x80 >> i) != 0;
            pulses.push(if one { 70 } else { 26 });
        }
    }
    pulses
}

#[test]
fn valid_checksum_decodes_reading() {
    let frame = [55u8, 3, 24, 7, (55u32 + 3 + 24 + 7) as u8];
    let r = decode_frame(&frame).unwrap();
    assert_eq!(
        r,
        HumidityReading {
            humidity_whole: 55,
            humidity_tenths: 3,
            temperature_whole: 24,
            temperature_tenths: 7
        }
    );
    assert_eq!(r.humidity_in_tenths(), 553);
    assert_eq!(r.temperature_in_tenths(), 247);
    let humidity = r.humidity_whole as f32 + r.humidity_tenths as f32 * 0.1;
    assert!((humidity - 55.3).abs() < 1e-4);
}

#[test]
fn checksum_wraps_modulo_256() {
    let frame = [200u8, 100, 30, 9, 83];
    assert_eq!(checksum(&frame), 83);
    assert!(decode_frame(&frame).is_ok());
}

#[test]
fn every_other_checksum_is_rejected() {
    let data = [40u8, 0, 21, 5];
    let good = (40u32 + 21 + 5) as u8;
    for c in 0..=255u8 {
        let frame = [data[0], data[1], data[2], data[3], c];
        if c == good {
            assert!(decode_frame(&frame).is_ok());
        } else {
            assert_eq!(decode_frame(&frame), Err(SensorError::Checksum));
        }
    }
}

#[test]
fn pulse_width_threshold() {
    assert!(!bit_from_pulse(26));
    assert!(!bit_from_pulse(40));
    assert!(bit_from_pulse(41));
    assert!(bit_from_pulse(70));
}

#[test]
fn bits_pack_most_significant_first() {
    let pulses = vec![70u64, 26, 26, 26, 26, 26, 26, 70];
    assert_eq!(byte_from_pulses(&pulses, 0), 0x81);
    let frame = [0xA5u8, 0x01, 0x80, 0xFF, 0x25];
    assert_eq!(frame_from_pulses(&pulses_for(frame)), frame);
}

#[test]
fn pulses_decode_to_reading() {
    let frame = [60u8, 0, 22, 1, 83];
    let r = decode_pulses(&pulses_for(frame)).unwrap();
    assert_eq!(r.humidity_in_tenths(), 600);
    assert_eq!(r.temperature_in_tenths(), 221);
    let bad = [60u8, 0, 22, 1, 84];
    assert_eq!(decode_pulses(&pulses_for(bad)), Err(SensorError::Checksum));
}

#[test]
fn wait_step_decisions() {
    assert_eq!(wait_step(true, true, 12, WAIT_BUDGET_US), WaitStep::Reached(12));
    assert_eq!(wait_step(false, true, 100, WAIT_BUDGET_US), WaitStep::Pending);
    assert_eq!(wait_step(false, true, 101, WAIT_BUDGET_US), WaitStep::TimedOut);
}

#[test]
fn reception_collects_forty_pulses() {
    let frame = [45u8, 0, 19, 9, 73];
    let widths = pulses_for(frame);
    let mut r = Reception::new();
    let mut measured = 0usize;
    let mut step = ReceptionStep::Continue;
    let mut n = 0usize;
    while step == ReceptionStep::Continue {
        let expected_level = if n < 2 { n == 1 } else { (n - 2) % 3 == 1 };
        assert_eq!(r.wanted_level(), expected_level);
        let outcome = if n >= 2 && (n - 2) % 3 == 2 {
            measured += 1;
            widths[measured - 1]
        } else {
            80
        };
        step = r.on_wait(Some(outcome));
        n += 1;
    }
    assert_eq!(step, ReceptionStep::Complete);
    assert_eq!(n, TOTAL_WAITS);
    assert_eq!(r.pulses, widths);
    assert_eq!(r.decode().unwrap().humidity_in_tenths(), 450);
}

#[test]
fn reception_times_out() {
    let mut r = Reception::new();
    assert_eq!(r.on_wait(Some(80)), ReceptionStep::Continue);
    assert_eq!(r.on_wait(None), ReceptionStep::TimedOut);
    assert_eq!(r.waits_done, 1);
}
