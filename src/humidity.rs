//! Decoding of the humidity sensor's single-wire pulse protocol: waiting for a
//! line level within a budget, turning pulse widths into bits and bytes, and
//! checking and converting the five-byte payload.
use vstd::arithmetic::power2::{pow2, lemma_pow2_unfold, lemma2_to64};
use vstd::prelude::*;

use crate::error::SensorError;

verus! {

/// Idle time with the line high before the start pulse.
pub const START_IDLE_MS: u32 = 1;
/// Width of the start pulse, with the line held low.
pub const START_LOW_US: u32 = 18000;
/// Time the line is released high before the sensor answers.
pub const RELEASE_US: u32 = 40;
/// Longest wait for any level change of the sensor.
pub const WAIT_BUDGET_US: u64 = 100;
/// A high pulse longer than this encodes a one bit.
pub const ONE_THRESHOLD_US: u64 = 40;
/// Bits in one payload: five bytes, most significant bit first.
pub const FRAME_BITS: usize = 40;

/// Outcome of one look at the line while waiting for a level.
#[derive(Clone, Copy, Debug, PartialEq, Eq, Structural)]
pub enum WaitStep {
    /// The line is at the wanted level; the time waited so far, in microseconds.
    Reached(u64),
    /// Not yet: look again.
    Pending,
    /// The budget is exceeded.
    TimedOut,
}

/// Decides a wait for `wanted` after `elapsed_us` microseconds, with the line
/// now at `level`.
pub fn wait_step(level: bool, wanted: bool, elapsed_us: u64, budget_us: u64) -> (r: WaitStep)
    ensures
        level == wanted ==> r == WaitStep::Reached(elapsed_us),
        level != wanted && elapsed_us > budget_us ==> r == WaitStep::TimedOut,
        level != wanted && elapsed_us <= budget_us ==> r == WaitStep::Pending,
{
    if level == wanted {
        WaitStep::Reached(elapsed_us)
    } else if elapsed_us > budget_us {
        WaitStep::TimedOut
    } else {
        WaitStep::Pending
    }
}

/// The bit that a high pulse of `high_us` microseconds encodes.
pub open spec fn pulse_bit(high_us: u64) -> bool {
    high_us > ONE_THRESHOLD_US
}

/// Reads one bit from the width of its high pulse.
pub fn bit_from_pulse(high_us: u64) -> (r: bool)
    ensures
        r == pulse_bit(high_us),
{
    high_us > ONE_THRESHOLD_US
}

/// Value of the bits that the pulse widths `p` encode, most significant first.
pub open spec fn pulses_value(p: Seq<u64>) -> nat
    decreases p.len(),
{
    if p.len() == 0 {
        0
    } else {
        2 * pulses_value(p.drop_last()) + if pulse_bit(p.last()) {
            1nat
        } else {
            0nat
        }
    }
}

/// Byte `k` of a payload given by the high-pulse widths of its bits.
pub open spec fn frame_byte(p: Seq<u64>, k: int) -> nat {
    pulses_value(p.subrange(8 * k, 8 * k + 8))
}

/// Reads the byte whose eight bits have high-pulse widths `pulses[start..start + 8]`.
pub fn byte_from_pulses(pulses: &Vec<u64>, start: usize) -> (r: u8)
    requires
        start + 8 <= pulses@.len(),
    ensures
        r as nat == pulses_value(pulses@.subrange(start as int, start + 8)),
{
    let len = pulses.len();
    let mut byte: u32 = 0;
    let mut i: usize = 0;
    proof {
        lemma2_to64();
    }
    while i < 8
        invariant
            i <= 8,
            len == pulses@.len(),
            start + 8 <= pulses@.len(),
            byte as nat == pulses_value(pulses@.subrange(start as int, start + i)),
            byte < pow2(i as nat),
        decreases 8 - i,
    {
        let prefix = Ghost(pulses@.subrange(start as int, start + i + 1));
        assert(prefix@.drop_last() =~= pulses@.subrange(start as int, start + i));
        assert(prefix@.last() == pulses@[start + i]);
        proof {
            lemma_pow2_unfold((i + 1) as nat);
            lemma2_to64();
        }
        let bit: u32 = if bit_from_pulse(pulses[start + i]) {
            1
        } else {
            0
        };
        byte = byte * 2 + bit;
        i = i + 1;
    }
    proof {
        lemma2_to64();
    }
    byte as u8
}

/// Reads the five payload bytes from the forty high-pulse widths.
pub fn frame_from_pulses(pulses: &Vec<u64>) -> (r: [u8; 5])
    requires
        pulses@.len() == FRAME_BITS,
    ensures
        forall|k: int| 0 <= k < 5 ==> #[trigger] r@[k] as nat == frame_byte(pulses@, k),
{
    let frame = [
        byte_from_pulses(pulses, 0),
        byte_from_pulses(pulses, 8),
        byte_from_pulses(pulses, 16),
        byte_from_pulses(pulses, 24),
        byte_from_pulses(pulses, 32),
    ];
    assert(forall|k: int| 0 <= k < 5 ==> #[trigger] frame@[k] as nat == frame_byte(pulses@, k)) by {
        assert(frame@[0] as nat == frame_byte(pulses@, 0));
        assert(frame@[1] as nat == frame_byte(pulses@, 1));
        assert(frame@[2] as nat == frame_byte(pulses@, 2));
        assert(frame@[3] as nat == frame_byte(pulses@, 3));
        assert(frame@[4] as nat == frame_byte(pulses@, 4));
    }
    frame
}

/// Checksum that the sensor sends for the data bytes `a, b, c, d`: their sum
/// modulo 256.
pub open spec fn checksum_of(a: u8, b: u8, c: u8, d: u8) -> int {
    (a as int + b as int + c as int + d as int) % 256
}

/// Computes the checksum of the four data bytes of a payload.
pub fn checksum(frame: &[u8; 5]) -> (r: u8)
    ensures
        r as int == checksum_of(frame@[0], frame@[1], frame@[2], frame@[3]),
{
    let sum: u32 = frame[0] as u32 + frame[1] as u32 + frame[2] as u32 + frame[3] as u32;
    (sum % 256) as u8
}

/// A humidity sensor reading as the sensor sends it: whole and tenth parts.
#[derive(Clone, Copy, Debug, PartialEq, Eq, Structural)]
pub struct HumidityReading {
    pub humidity_whole: u8,
    pub humidity_tenths: u8,
    pub temperature_whole: u8,
    pub temperature_tenths: u8,
}

impl HumidityReading {
    /// Relative humidity in tenths of a percent: whole part plus a tenth of the
    /// second byte.
    pub open spec fn humidity_deci(self) -> int {
        10 * self.humidity_whole as int + self.humidity_tenths as int
    }

    /// Temperature in tenths of a degree Celsius.
    pub open spec fn temperature_deci(self) -> int {
        10 * self.temperature_whole as int + self.temperature_tenths as int
    }

    /// Relative humidity in tenths of a percent.
    pub fn humidity_in_tenths(&self) -> (r: u16)
        ensures
            r as int == self.humidity_deci(),
    {
        10 * self.humidity_whole as u16 + self.humidity_tenths as u16
    }

    /// Temperature in tenths of a degree Celsius.
    pub fn temperature_in_tenths(&self) -> (r: u16)
        ensures
            r as int == self.temperature_deci(),
    {
        10 * self.temperature_whole as u16 + self.temperature_tenths as u16
    }
}

/// The reading that a payload with a valid checksum carries.
pub open spec fn reading_of(f: Seq<u8>) -> HumidityReading {
    HumidityReading {
        humidity_whole: f[0],
        humidity_tenths: f[1],
        temperature_whole: f[2],
        temperature_tenths: f[3],
    }
}

/// Checks and converts a five-byte payload: a reading where the last byte is
/// the checksum of the other four, else a checksum error.
pub fn decode_frame(frame: &[u8; 5]) -> (r: Result<HumidityReading, SensorError>)
    ensures
        frame@[4] as int == checksum_of(frame@[0], frame@[1], frame@[2], frame@[3]) ==> r == Ok::<
            HumidityReading,
            SensorError,
        >(reading_of(frame@)),
        frame@[4] as int != checksum_of(frame@[0], frame@[1], frame@[2], frame@[3]) ==> r == Err::<
            HumidityReading,
            SensorError,
        >(SensorError::Checksum),
{
    if checksum(frame) != frame[4] {
        return Err(SensorError::Checksum);
    }
    Ok(
        HumidityReading {
            humidity_whole: frame[0],
            humidity_tenths: frame[1],
            temperature_whole: frame[2],
            temperature_tenths: frame[3],
        },
    )
}

/// Decodes a full transmission from the high-pulse widths of its forty bits.
pub fn decode_pulses(pulses: &Vec<u64>) -> (r: Result<HumidityReading, SensorError>)
    requires
        pulses@.len() == FRAME_BITS,
    ensures
        ({
            let b = Seq::new(5, |k: int| frame_byte(pulses@, k) as u8);
            &&& b[4] as int == checksum_of(b[0], b[1], b[2], b[3]) ==> r == Ok::<
                HumidityReading,
                SensorError,
            >(reading_of(b))
            &&& b[4] as int != checksum_of(b[0], b[1], b[2], b[3]) ==> r == Err::<
                HumidityReading,
                SensorError,
            >(SensorError::Checksum)
        }),
{
    let frame = frame_from_pulses(pulses);
    let ghost b = Seq::new(5, |k: int| frame_byte(pulses@, k) as u8);
    assert(frame@ =~= b);
    decode_frame(&frame)
}

/// Level waits in one transmission: two for the sensor's answer, then three
/// for each bit (low, high, then low again, which ends the measured high pulse).
pub const TOTAL_WAITS: usize = 122;

/// The level that wait number `n` of a transmission waits for.
pub open spec fn level_of_wait(n: int) -> bool {
    if n < 2 {
        n == 1
    } else {
        (n - 2) % 3 == 1
    }
}

/// Whether wait number `n` ends a bit's high pulse, so that its duration is
/// that pulse's width.
pub open spec fn wait_measures(n: int) -> bool {
    n >= 2 && (n - 2) % 3 == 2
}

/// Number of pulse widths measured in the first `n` waits.
pub open spec fn measured_in(n: int) -> int {
    if n <= 2 {
        0
    } else {
        (n - 2) / 3
    }
}

/// What the receiver does after a wait.
#[derive(Clone, Copy, Debug, PartialEq, Eq, Structural)]
pub enum ReceptionStep {
    /// Wait for the next level.
    Continue,
    /// The wait exceeded its budget: the transmission is abandoned.
    TimedOut,
    /// All forty pulse widths are measured.
    Complete,
}

/// Progress through one transmission of the humidity sensor: how many level
/// waits have completed and the high-pulse widths measured so far.
pub struct Reception {
    pub waits_done: usize,
    pub pulses: Vec<u64>,
}

impl Reception {
    pub open spec fn wf(&self) -> bool {
        &&& self.waits_done <= TOTAL_WAITS
        &&& self.pulses@.len() == measured_in(self.waits_done as int)
    }

    /// A reception that has not waited for anything yet.
    pub fn new() -> (r: Reception)
        ensures
            r.wf(),
            r.waits_done == 0,
            r.pulses@ == Seq::<u64>::empty(),
    {
        Reception { waits_done: 0, pulses: Vec::new() }
    }

    /// The level that the next wait waits for.
    pub fn wanted_level(&self) -> (r: bool)
        requires
            self.wf(),
        ensures
            r == level_of_wait(self.waits_done as int),
    {
        if self.waits_done < 2 {
            self.waits_done == 1
        } else {
            (self.waits_done - 2) % 3 == 1
        }
    }

    /// Records the outcome of the next wait: its duration in microseconds, or
    /// `None` where it exceeded its budget.
    pub fn on_wait(&mut self, outcome: Option<u64>) -> (r: ReceptionStep)
        requires
            old(self).wf(),
            old(self).waits_done < TOTAL_WAITS,
        ensures
            final(self).wf(),
            outcome is None ==> r == ReceptionStep::TimedOut && *final(self) == *old(self),
            outcome matches Some(us) ==> {
                &&& final(self).waits_done == old(self).waits_done + 1
                &&& final(self).pulses@ == if wait_measures(old(self).waits_done as int) {
                    old(self).pulses@.push(us)
                } else {
                    old(self).pulses@
                }
                &&& r == if final(self).waits_done == TOTAL_WAITS {
                    ReceptionStep::Complete
                } else {
                    ReceptionStep::Continue
                }
            },
    {
        match outcome {
            None => ReceptionStep::TimedOut,
            Some(us) => {
                if self.waits_done >= 2 && (self.waits_done - 2) % 3 == 2 {
                    self.pulses.push(us);
                }
                self.waits_done = self.waits_done + 1;
                if self.waits_done == TOTAL_WAITS {
                    ReceptionStep::Complete
                } else {
                    ReceptionStep::Continue
                }
            },
        }
    }

    /// Decodes the payload of a completed reception.
    pub fn decode(&self) -> (r: Result<HumidityReading, SensorError>)
        requires
            self.wf(),
            self.waits_done == TOTAL_WAITS,
        ensures
            ({
                let b = Seq::new(5, |k: int| frame_byte(self.pulses@, k) as u8);
                &&& b[4] as int == checksum_of(b[0], b[1], b[2], b[3]) ==> r == Ok::<
                    HumidityReading,
                    SensorError,
                >(reading_of(b))
                &&& b[4] as int != checksum_of(b[0], b[1], b[2], b[3]) ==> r == Err::<
                    HumidityReading,
                    SensorError,
                >(SensorError::Checksum)
            }),
    {
        decode_pulses(&self.pulses)
    }
}

} // verus!
