//! Register map, calibration decoding and the fixed-point compensation
//! pipeline of the barometric pressure sensor.
use vstd::prelude::*;

use crate::error::SensorError;

verus! {

/// Register holding the chip's one-byte identity.
pub const REG_CHIP_ID: u8 = 0xD0;
/// Identity value of the supported chip; another value only warrants a warning.
pub const EXPECTED_CHIP_ID: u8 = 0x58;
/// First register of the 24-byte calibration block.
pub const REG_CALIBRATION: u8 = 0x88;
/// Length in bytes of the calibration block.
pub const CALIBRATION_LEN: usize = 24;
/// Soft-reset register and the value that triggers the reset.
pub const REG_RESET: u8 = 0xE0;
pub const RESET_VALUE: u8 = 0xB6;
/// Settle time after a soft reset.
pub const RESET_SETTLE_MS: u32 = 10;
/// Measurement control: x16 oversampling of temperature and pressure, normal mode.
pub const REG_CTRL_MEAS: u8 = 0xF4;
pub const CTRL_MEAS_VALUE: u8 = 0b1011_0111;
/// Configuration: 0.5 ms standby, filter coefficient 16.
pub const REG_CONFIG: u8 = 0xF5;
pub const CONFIG_VALUE: u8 = 0b0001_0000;
/// Settle time after configuration.
pub const CONFIG_SETTLE_MS: u32 = 100;
/// Status register; bit 3 is set while a measurement is in progress.
pub const REG_STATUS: u8 = 0xF3;
/// First of six contiguous data registers: pressure MSB, LSB, XLSB, then
/// temperature MSB, LSB, XLSB.
pub const REG_DATA: u8 = 0xF7;
/// Length in bytes of the data burst.
pub const DATA_LEN: usize = 6;
/// Number of status reads made before the data is read regardless.
pub const STATUS_POLL_LIMIT: u32 = 10;
/// Delay between two status reads.
pub const STATUS_POLL_DELAY_MS: u32 = 10;

/// Unsigned little-endian value of two bytes.
pub open spec fn le_u16(lo: u8, hi: u8) -> int {
    lo as int + 256 * (hi as int)
}

/// Two's-complement little-endian value of two bytes.
pub open spec fn le_i16(lo: u8, hi: u8) -> int {
    if le_u16(lo, hi) >= 32768 {
        le_u16(lo, hi) - 65536
    } else {
        le_u16(lo, hi)
    }
}

/// The twelve factory calibration coefficients of the chip.
#[derive(Clone, Copy, Debug, PartialEq, Eq, Structural)]
pub struct Calibration {
    pub dig_t1: u16,
    pub dig_t2: i16,
    pub dig_t3: i16,
    pub dig_p1: u16,
    pub dig_p2: i16,
    pub dig_p3: i16,
    pub dig_p4: i16,
    pub dig_p5: i16,
    pub dig_p6: i16,
    pub dig_p7: i16,
    pub dig_p8: i16,
    pub dig_p9: i16,
}

/// `c` is what the calibration block `b` holds: three temperature coefficients
/// then nine pressure coefficients, each two bytes little-endian, the first of
/// each group unsigned and the others signed.
pub open spec fn decodes_calibration(c: Calibration, b: Seq<u8>) -> bool {
    &&& b.len() == 24
    &&& c.dig_t1 as int == le_u16(b[0], b[1])
    &&& c.dig_t2 as int == le_i16(b[2], b[3])
    &&& c.dig_t3 as int == le_i16(b[4], b[5])
    &&& c.dig_p1 as int == le_u16(b[6], b[7])
    &&& c.dig_p2 as int == le_i16(b[8], b[9])
    &&& c.dig_p3 as int == le_i16(b[10], b[11])
    &&& c.dig_p4 as int == le_i16(b[12], b[13])
    &&& c.dig_p5 as int == le_i16(b[14], b[15])
    &&& c.dig_p6 as int == le_i16(b[16], b[17])
    &&& c.dig_p7 as int == le_i16(b[18], b[19])
    &&& c.dig_p8 as int == le_i16(b[20], b[21])
    &&& c.dig_p9 as int == le_i16(b[22], b[23])
}

fn u16_le(lo: u8, hi: u8) -> (r: u16)
    ensures
        r as int == le_u16(lo, hi),
{
    lo as u16 + (hi as u16) * 256
}

fn i16_le(lo: u8, hi: u8) -> (r: i16)
    ensures
        r as int == le_i16(lo, hi),
{
    let u: i32 = lo as i32 + (hi as i32) * 256;
    if u >= 32768 {
        (u - 65536) as i16
    } else {
        u as i16
    }
}

impl Calibration {
    /// Decodes the 24-byte calibration block.
    pub fn from_block(block: &[u8]) -> (c: Calibration)
        requires
            block@.len() == CALIBRATION_LEN,
        ensures
            decodes_calibration(c, block@),
    {
        Calibration {
            dig_t1: u16_le(block[0], block[1]),
            dig_t2: i16_le(block[2], block[3]),
            dig_t3: i16_le(block[4], block[5]),
            dig_p1: u16_le(block[6], block[7]),
            dig_p2: i16_le(block[8], block[9]),
            dig_p3: i16_le(block[10], block[11]),
            dig_p4: i16_le(block[12], block[13]),
            dig_p5: i16_le(block[14], block[15]),
            dig_p6: i16_le(block[16], block[17]),
            dig_p7: i16_le(block[18], block[19]),
            dig_p8: i16_le(block[20], block[21]),
            dig_p9: i16_le(block[22], block[23]),
        }
    }
}

/// Fine temperature of the vendor's fixed-point algorithm, from a 20-bit raw
/// temperature count. Arithmetic right shifts are floor divisions by powers of two.
pub open spec fn t_fine_of(c: Calibration, adc_t: int) -> int {
    let v1 = ((adc_t / 8 - 2 * (c.dig_t1 as int)) * (c.dig_t2 as int)) / 2048;
    let d = adc_t / 16 - c.dig_t1 as int;
    let v2 = (((d * d) / 4096) * (c.dig_t3 as int)) / 16384;
    v1 + v2
}

/// Temperature in hundredths of a degree Celsius for a fine temperature.
pub open spec fn centi_celsius_of(t_fine: int) -> int {
    (t_fine * 5 + 128) / 256
}

proof fn lemma_shr_3(x: i64)
    by (bit_vector)
    ensures
        (x >> 3u32) as int == x as int / 8,
{
}

proof fn lemma_shr_4(x: i64)
    by (bit_vector)
    ensures
        (x >> 4u32) as int == x as int / 16,
{
}

proof fn lemma_shr_8(x: i64)
    by (bit_vector)
    ensures
        (x >> 8u32) as int == x as int / 256,
{
}

proof fn lemma_shr_11(x: i64)
    by (bit_vector)
    ensures
        (x >> 11u32) as int == x as int / 2048,
{
}

proof fn lemma_shr_12(x: i64)
    by (bit_vector)
    ensures
        (x >> 12u32) as int == x as int / 4096,
{
}

proof fn lemma_shr_13(x: i64)
    by (bit_vector)
    ensures
        (x >> 13u32) as int == x as int / 8192,
{
}

proof fn lemma_shr_14(x: i64)
    by (bit_vector)
    ensures
        (x >> 14u32) as int == x as int / 16384,
{
}

proof fn lemma_shr_19(x: i64)
    by (bit_vector)
    ensures
        (x >> 19u32) as int == x as int / 524288,
{
}

proof fn lemma_shr_25(x: i64)
    by (bit_vector)
    ensures
        (x >> 25u32) as int == x as int / 33554432,
{
}

proof fn lemma_shr_33(x: i64)
    by (bit_vector)
    ensures
        (x >> 33u32) as int == x as int / 8589934592,
{
}

/// `x` lies in the range of `i64`.
pub open spec fn fits_i64(x: int) -> bool {
    i64::MIN <= x <= i64::MAX
}

/// Division rounding toward zero, as Rust's `/` on signed integers.
pub open spec fn trunc_div(x: int, d: int) -> int {
    let q = abs(x) / abs(d);
    if (x < 0) != (d < 0) {
        -q
    } else {
        q
    }
}

pub open spec fn abs(x: int) -> int {
    if x < 0 {
        -x
    } else {
        x
    }
}

/// First stage of the vendor's pressure algorithm: the offset term `var2` and
/// the denominator, or `None` where an intermediate value leaves the signed
/// 64-bit range.
pub open spec fn pressure_terms_of(c: Calibration, t_fine: int) -> Option<(int, int)> {
    let v1 = t_fine - 128000;
    let sq = v1 * v1;
    let a6 = sq * (c.dig_p6 as int);
    let a5 = v1 * (c.dig_p5 as int);
    let a5s = a5 * 131072;
    let a56 = a6 + a5s;
    let var2 = a56 + (c.dig_p4 as int) * 34359738368;
    let b3 = sq * (c.dig_p3 as int);
    let b2 = v1 * (c.dig_p2 as int);
    let b2s = b2 * 4096;
    let var1 = b3 / 256 + b2s;
    let e = 140737488355328 + var1;
    let f = e * (c.dig_p1 as int);
    if fits_i64(sq) && fits_i64(a6) && fits_i64(a5) && fits_i64(a5s) && fits_i64(a56) && fits_i64(
        var2,
    ) && fits_i64(b3) && fits_i64(b2) && fits_i64(b2s) && fits_i64(var1) && fits_i64(e)
        && fits_i64(f) {
        Some((var2, f / 8589934592))
    } else {
        None
    }
}

/// Second stage of the vendor's pressure algorithm, for a nonzero denominator:
/// the pressure in Q24.8 Pa, or `None` where an intermediate value leaves the
/// signed 64-bit range.
pub open spec fn pressure_from_terms(c: Calibration, var2: int, den: int, adc_p: int) -> Option<
    int,
> {
    let h = (1048576 - adc_p) * 2147483648;
    let k = h - var2;
    let m = k * 3125;
    let q = trunc_div(m, den);
    let r = q / 8192;
    let s = (c.dig_p9 as int) * r;
    let s2 = s * r;
    let g = (c.dig_p8 as int) * q;
    let u = q + s2 / 33554432;
    let w = u + g / 524288;
    let z = w / 256 + (c.dig_p7 as int) * 16;
    if fits_i64(k) && fits_i64(m) && fits_i64(q) && fits_i64(s) && fits_i64(s2) && fits_i64(g)
        && fits_i64(u) && fits_i64(w) && fits_i64(z) {
        Some(z)
    } else {
        None
    }
}

/// Pressure in Pa with 8 fractional bits (Q24.8) from the fine temperature and
/// a 20-bit raw pressure count, by the vendor's signed 64-bit algorithm. It is
/// `Some(0)` where the algorithm's denominator is zero, and `None` where an
/// intermediate value leaves the signed 64-bit range.
pub open spec fn pressure_q24_8_of(c: Calibration, t_fine: int, adc_p: int) -> Option<int> {
    match pressure_terms_of(c, t_fine) {
        None => None,
        Some((var2, den)) => if den == 0 {
            Some(0)
        } else {
            pressure_from_terms(c, var2, den, adc_p)
        },
    }
}

/// An optional machine integer as an optional mathematical one.
pub open spec fn opt_int(r: Option<i64>) -> Option<int> {
    match r {
        Some(v) => Some(v as int),
        None => None,
    }
}

/// 20-bit raw count held in three data registers: all of the first two bytes
/// and the upper nibble of the third.
pub open spec fn raw20(msb: u8, lsb: u8, xlsb: u8) -> int {
    (msb as int) * 4096 + (lsb as int) * 16 + (xlsb as int) / 16
}

fn raw20_from(msb: u8, lsb: u8, xlsb: u8) -> (r: i32)
    ensures
        r as int == raw20(msb, lsb, xlsb),
        0 <= r < 1048576,
{
    (msb as i32) * 4096 + (lsb as i32) * 16 + (xlsb as i32) / 16
}

/// Raw pressure count of a six-byte data burst.
pub open spec fn burst_adc_p(b: Seq<u8>) -> int {
    raw20(b[0], b[1], b[2])
}

/// Raw temperature count of a six-byte data burst.
pub open spec fn burst_adc_t(b: Seq<u8>) -> int {
    raw20(b[3], b[4], b[5])
}

/// Whether the status byte says a measurement is in progress (bit 3).
pub open spec fn measuring(status: u8) -> bool {
    (status as int / 8) % 2 == 1
}

/// Reads bit 3 of the status register.
pub fn is_measuring(status: u8) -> (r: bool)
    ensures
        r == measuring(status),
{
    let r = status & 0x08 != 0;
    assert(r == ((status as int / 8) % 2 == 1)) by (bit_vector)
        requires
            r == (status & 0x08 != 0),
    ;
    r
}

/// What the read cycle does after a status read.
#[derive(Clone, Copy, Debug, PartialEq, Eq, Structural)]
pub enum PollStep {
    /// No measurement is in progress: read the data now.
    ReadData,
    /// Wait, then read the status again.
    WaitAndPoll,
    /// The status read budget is spent: wait, then read the data regardless.
    WaitAndReadData,
}

/// Decides the next step after the `attempt`-th status read (counted from 1)
/// returned `status`.
pub fn status_poll_step(attempt: u32, status: u8) -> (r: PollStep)
    requires
        1 <= attempt <= STATUS_POLL_LIMIT,
    ensures
        !measuring(status) ==> r == PollStep::ReadData,
        measuring(status) && attempt < STATUS_POLL_LIMIT ==> r == PollStep::WaitAndPoll,
        measuring(status) && attempt == STATUS_POLL_LIMIT ==> r == PollStep::WaitAndReadData,
{
    if !is_measuring(status) {
        PollStep::ReadData
    } else if attempt < STATUS_POLL_LIMIT {
        PollStep::WaitAndPoll
    } else {
        PollStep::WaitAndReadData
    }
}

/// Whether the identity register holds the expected chip identity; a mismatch
/// is reported as a warning and does not stop construction.
pub fn chip_id_is_expected(id: u8) -> (r: bool)
    ensures
        r == (id == EXPECTED_CHIP_ID),
{
    id == EXPECTED_CHIP_ID
}

/// A compensated pressure sensor reading in fixed point.
#[derive(Clone, Copy, Debug, PartialEq, Eq, Structural)]
pub struct PressureReading {
    /// Temperature in hundredths of a degree Celsius.
    pub centi_celsius: i32,
    /// Pressure in Pa with 8 fractional bits.
    pub pressure_q24_8: i64,
}

/// The computing half of the pressure sensor driver: the calibration read at
/// construction and the fine temperature of the last temperature compensation.
#[derive(Clone, Copy, Debug)]
pub struct Bmp280 {
    pub calibration: Calibration,
    pub t_fine: i32,
}

impl Bmp280 {
    /// Compensates a 20-bit raw temperature: returns hundredths of a degree
    /// Celsius and keeps the fine temperature for the pressure compensation.
    pub fn compensate_temperature(&mut self, adc_t: i32) -> (r: i32)
        requires
            0 <= adc_t < 1048576,
        ensures
            final(self).calibration == old(self).calibration,
            final(self).t_fine as int == t_fine_of(old(self).calibration, adc_t as int),
            r as int == centi_celsius_of(t_fine_of(old(self).calibration, adc_t as int)),
    {
        let adc = adc_t as i64;
        let t1 = self.calibration.dig_t1 as i64;
        let t2 = self.calibration.dig_t2 as i64;
        let t3 = self.calibration.dig_t3 as i64;
        proof {
            lemma_shr_3(adc);
            lemma_shr_4(adc);
        }
        let diff1 = (adc >> 3u32) - t1 * 2;
        assert(-4294967296 <= diff1 * t2 <= 4294967296) by (nonlinear_arith)
            requires
                -131072 < diff1 < 131072,
                -32768 <= t2 < 32768,
        ;
        let prod1 = diff1 * t2;
        proof {
            lemma_shr_11(prod1);
        }
        let var1 = prod1 >> 11u32;
        assert(-2097152 <= var1 <= 2097152);
        let diff2 = (adc >> 4u32) - t1;
        assert(0 <= diff2 * diff2 < 4294967296) by (nonlinear_arith)
            requires
                -65536 < diff2 < 65536,
        ;
        let sq = diff2 * diff2;
        proof {
            lemma_shr_12(sq);
        }
        let scaled = sq >> 12u32;
        assert(0 <= scaled < 1048576);
        assert(-34359738368 <= scaled * t3 <= 34359738368) by (nonlinear_arith)
            requires
                0 <= scaled < 1048576,
                -32768 <= t3 < 32768,
        ;
        let prod2 = scaled * t3;
        proof {
            lemma_shr_14(prod2);
        }
        let var2 = prod2 >> 14u32;
        assert(-2097152 <= var2 <= 2097152);
        let t_fine = var1 + var2;
        self.t_fine = t_fine as i32;
        let centi = t_fine * 5 + 128;
        proof {
            lemma_shr_8(centi);
        }
        (centi >> 8u32) as i32
    }

    /// Turns a six-byte data burst into a reading: temperature first, which
    /// updates the fine temperature, then pressure from it.
    pub fn reading_from_burst(&mut self, burst: &[u8; 6]) -> (r: Result<PressureReading, SensorError>)
        ensures
            final(self).calibration == old(self).calibration,
            final(self).t_fine as int == t_fine_of(old(self).calibration, burst_adc_t(burst@)),
            match pressure_q24_8_of(
                old(self).calibration,
                t_fine_of(old(self).calibration, burst_adc_t(burst@)),
                burst_adc_p(burst@),
            ) {
                Some(p) => r == Ok::<PressureReading, SensorError>(
                    PressureReading {
                        centi_celsius: centi_celsius_of(
                            t_fine_of(old(self).calibration, burst_adc_t(burst@)),
                        ) as i32,
                        pressure_q24_8: p as i64,
                    },
                ),
                None => r == Err::<PressureReading, SensorError>(SensorError::OutOfRange),
            },
    {
        let adc_p = raw20_from(burst[0], burst[1], burst[2]);
        let adc_t = raw20_from(burst[3], burst[4], burst[5]);
        let centi_celsius = self.compensate_temperature(adc_t);
        match self.compensate_pressure(adc_p) {
            Some(pressure_q24_8) => Ok(PressureReading { centi_celsius, pressure_q24_8 }),
            None => Err(SensorError::OutOfRange),
        }
    }

    /// Compensates a 20-bit raw pressure with the fine temperature of the last
    /// temperature compensation: pressure in Pa with 8 fractional bits, 0 where
    /// the algorithm's denominator is zero, `None` where the 64-bit pipeline
    /// would overflow.
    pub fn compensate_pressure(&self, adc_p: i32) -> (r: Option<i64>)
        requires
            0 <= adc_p < 1048576,
        ensures
            opt_int(r) == pressure_q24_8_of(self.calibration, self.t_fine as int, adc_p as int),
    {
        let (var2, den) = match pressure_terms(&self.calibration, self.t_fine) {
            Some(t) => t,
            None => return None,
        };
        if den == 0 {
            return Some(0);
        }
        pressure_with_terms(&self.calibration, var2, den, adc_p)
    }
}

/// A bus operation of the driver's construction.
#[derive(Clone, Copy, Debug, PartialEq, Eq, Structural)]
pub enum BusOp {
    /// Read `len` bytes starting at register `reg`.
    Read { reg: u8, len: usize },
    /// Write `value` to register `reg`.
    Write { reg: u8, value: u8 },
    /// Wait `ms` milliseconds.
    Delay { ms: u32 },
}

/// Number of bus operations of a construction.
pub const INIT_STEPS: usize = 7;

/// Operation number `step` of a construction: read the identity, read the
/// calibration block, soft reset and settle, write the two configuration
/// registers and settle.
pub open spec fn init_op(step: int) -> BusOp {
    if step == 0 {
        BusOp::Read { reg: REG_CHIP_ID, len: 1 }
    } else if step == 1 {
        BusOp::Read { reg: REG_CALIBRATION, len: CALIBRATION_LEN }
    } else if step == 2 {
        BusOp::Write { reg: REG_RESET, value: RESET_VALUE }
    } else if step == 3 {
        BusOp::Delay { ms: RESET_SETTLE_MS }
    } else if step == 4 {
        BusOp::Write { reg: REG_CTRL_MEAS, value: CTRL_MEAS_VALUE }
    } else if step == 5 {
        BusOp::Write { reg: REG_CONFIG, value: CONFIG_VALUE }
    } else {
        BusOp::Delay { ms: CONFIG_SETTLE_MS }
    }
}

/// Progress of a driver construction: the operations completed so far and
/// what the reads among them returned. A failed operation fails the
/// construction as a whole.
#[derive(Clone, Copy, Debug)]
pub struct Bmp280Init {
    pub done: usize,
    pub chip_id: u8,
    pub calibration: Calibration,
}

impl Bmp280Init {
    pub open spec fn wf(&self) -> bool {
        self.done <= INIT_STEPS
    }

    /// A construction that has performed no operation yet.
    pub fn new() -> (r: Bmp280Init)
        ensures
            r.wf(),
            r.done == 0,
    {
        Bmp280Init {
            done: 0,
            chip_id: 0,
            calibration: Calibration {
                dig_t1: 0,
                dig_t2: 0,
                dig_t3: 0,
                dig_p1: 0,
                dig_p2: 0,
                dig_p3: 0,
                dig_p4: 0,
                dig_p5: 0,
                dig_p6: 0,
                dig_p7: 0,
                dig_p8: 0,
                dig_p9: 0,
            },
        }
    }

    /// Whether every operation has been performed.
    pub fn is_complete(&self) -> (r: bool)
        ensures
            r == (self.done == INIT_STEPS),
    {
        self.done == INIT_STEPS
    }

    /// The next operation to perform.
    pub fn next_op(&self) -> (r: BusOp)
        requires
            self.done < INIT_STEPS,
        ensures
            r == init_op(self.done as int),
    {
        if self.done == 0 {
            BusOp::Read { reg: REG_CHIP_ID, len: 1 }
        } else if self.done == 1 {
            BusOp::Read { reg: REG_CALIBRATION, len: CALIBRATION_LEN }
        } else if self.done == 2 {
            BusOp::Write { reg: REG_RESET, value: RESET_VALUE }
        } else if self.done == 3 {
            BusOp::Delay { ms: RESET_SETTLE_MS }
        } else if self.done == 4 {
            BusOp::Write { reg: REG_CTRL_MEAS, value: CTRL_MEAS_VALUE }
        } else if self.done == 5 {
            BusOp::Write { reg: REG_CONFIG, value: CONFIG_VALUE }
        } else {
            BusOp::Delay { ms: CONFIG_SETTLE_MS }
        }
    }

    /// Records that the next operation succeeded; `data` is what a read
    /// returned, and is ignored after a write or a delay.
    pub fn on_success(&mut self, data: &[u8])
        requires
            old(self).done < INIT_STEPS,
            init_op(old(self).done as int) matches BusOp::Read { len, .. } ==> data@.len() == len,
        ensures
            final(self).wf(),
            final(self).done == old(self).done + 1,
            old(self).done == 0 ==> final(self).chip_id == data@[0],
            old(self).done != 0 ==> final(self).chip_id == old(self).chip_id,
            old(self).done == 1 ==> decodes_calibration(final(self).calibration, data@),
            old(self).done != 1 ==> final(self).calibration == old(self).calibration,
    {
        if self.done == 0 {
            self.chip_id = data[0];
        } else if self.done == 1 {
            self.calibration = Calibration::from_block(data);
        }
        self.done = self.done + 1;
    }

    /// The driver that a completed construction yields.
    pub fn finish(&self) -> (d: Bmp280)
        requires
            self.done == INIT_STEPS,
        ensures
            d.calibration == self.calibration,
            d.t_fine == 0,
    {
        Bmp280 { calibration: self.calibration, t_fine: 0 }
    }
}

/// Constructing the driver twice on an unchanged chip, which reads the same
/// calibration block both times, gives identical calibration coefficients.
pub proof fn lemma_reconstruction_same_calibration(block: Seq<u8>, first: Bmp280, second: Bmp280)
    requires
        decodes_calibration(first.calibration, block),
        decodes_calibration(second.calibration, block),
    ensures
        first.calibration == second.calibration,
{
}

fn pressure_terms(c: &Calibration, t_fine: i32) -> (r: Option<(i64, i64)>)
    ensures
        match r {
            Some((var2, den)) => pressure_terms_of(*c, t_fine as int) == Some(
                (var2 as int, den as int),
            ),
            None => pressure_terms_of(*c, t_fine as int) is None,
        },
{
    let v1: i64 = t_fine as i64 - 128000;
    let sq = match v1.checked_mul(v1) { Some(x) => x, None => return None };
    let a6 = match sq.checked_mul(c.dig_p6 as i64) { Some(x) => x, None => return None };
    let a5 = match v1.checked_mul(c.dig_p5 as i64) { Some(x) => x, None => return None };
    let a5s = match a5.checked_mul(131072) { Some(x) => x, None => return None };
    let a56 = match a6.checked_add(a5s) { Some(x) => x, None => return None };
    let var2 = match a56.checked_add(c.dig_p4 as i64 * 34359738368) {
        Some(x) => x,
        None => return None,
    };
    let b3 = match sq.checked_mul(c.dig_p3 as i64) { Some(x) => x, None => return None };
    let b2 = match v1.checked_mul(c.dig_p2 as i64) { Some(x) => x, None => return None };
    let b2s = match b2.checked_mul(4096) { Some(x) => x, None => return None };
    proof {
        lemma_shr_8(b3);
    }
    let var1 = match (b3 >> 8u32).checked_add(b2s) { Some(x) => x, None => return None };
    let e = match var1.checked_add(140737488355328) { Some(x) => x, None => return None };
    let f = match e.checked_mul(c.dig_p1 as i64) { Some(x) => x, None => return None };
    proof {
        lemma_shr_33(f);
    }
    Some((var2, f >> 33u32))
}

fn pressure_with_terms(c: &Calibration, var2: i64, den: i64, adc_p: i32) -> (r: Option<i64>)
    requires
        0 <= adc_p < 1048576,
        den != 0,
    ensures
        opt_int(r) == pressure_from_terms(*c, var2 as int, den as int, adc_p as int),
{
    let h = (1048576 - adc_p as i64) * 2147483648;
    let k = match h.checked_sub(var2) { Some(x) => x, None => return None };
    let m = match k.checked_mul(3125) { Some(x) => x, None => return None };
    let q = match m.checked_div(den) { Some(x) => x, None => return None };
    proof {
        lemma_shr_13(q);
    }
    let r = q >> 13u32;
    let s = match (c.dig_p9 as i64).checked_mul(r) { Some(x) => x, None => return None };
    let s2 = match s.checked_mul(r) { Some(x) => x, None => return None };
    let g = match (c.dig_p8 as i64).checked_mul(q) { Some(x) => x, None => return None };
    proof {
        lemma_shr_25(s2);
        lemma_shr_19(g);
    }
    let u = match q.checked_add(s2 >> 25u32) { Some(x) => x, None => return None };
    let w = match u.checked_add(g >> 19u32) { Some(x) => x, None => return None };
    proof {
        lemma_shr_8(w);
    }
    let z = match (w >> 8u32).checked_add(c.dig_p7 as i64 * 16) {
        Some(x) => x,
        None => return None,
    };
    Some(z)
}

} // verus!
