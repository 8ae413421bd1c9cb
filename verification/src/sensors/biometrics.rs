//! Biometric telemetry: a rolling window of readings.
use vstd::prelude::*;

verus! {

/// One reading.
#[derive(Debug, Clone, Copy)]
pub struct BiometricReading {
    pub heart_rate: u8,
    pub oxygen_saturation: u8,
    /// 0-100
    pub stress_level: u8,
    pub timestamp: u64,
}

/// Longest history kept before the oldest reading is dropped.
pub const HISTORY_LIMIT: usize = 100;

/// The readings kept, oldest first, and how many were recorded.
pub struct BiometricSensor {
    pub history: Vec<BiometricReading>,
    pub counter: usize,
}

impl BiometricSensor {
    /// No readings.
    pub fn new() -> (s: Self)
        ensures
            s.history@.len() == 0,
            s.counter == 0,
    {
        BiometricSensor { history: Vec::new(), counter: 0 }
    }

    /// Records a reading: once more than 100 are kept the oldest goes first.
    /// Returns whether this reading is one to log (every tenth, from the first).
    pub fn record(&mut self, reading: BiometricReading) -> (log: bool)
        ensures
            log == (old(self).counter % 10 == 0),
            final(self).counter == old(self).counter.wrapping_add(1),
            old(self).history@.len() > HISTORY_LIMIT ==> final(self).history@ == old(self).history@.drop_first().push(reading),
            old(self).history@.len() <= HISTORY_LIMIT ==> final(self).history@ == old(self).history@.push(reading),
    {
        let count = self.counter;
        self.counter = self.counter.wrapping_add(1);
        if self.history.len() > HISTORY_LIMIT {
            self.history.remove(0);
            assert(self.history@ =~= old(self).history@.drop_first());
        }
        self.history.push(reading);
        count % 10 == 0
    }

    /// The latest reading, if any.
    pub fn get_latest(&self) -> (r: Option<BiometricReading>)
        ensures
            self.history@.len() == 0 ==> r is None,
            self.history@.len() > 0 ==> r == Some(self.history@.last()),
    {
        if self.history.len() == 0 {
            None
        } else {
            Some(self.history[self.history.len() - 1])
        }
    }
}

/// The biometrics self-test: a recorded reading is the latest one.
pub fn test_biometrics() -> (passed: bool)
    ensures
        passed,
{
    let mut sensor = BiometricSensor::new();
    let _ = sensor.record(BiometricReading { heart_rate: 75, oxygen_saturation: 99, stress_level: 20, timestamp: 100 });
    match sensor.get_latest() {
        Some(latest) => latest.heart_rate == 75,
        None => false,
    }
}

/// The latest reading is always the one recorded last.
pub proof fn lemma_record_then_latest(hist: Seq<BiometricReading>, reading: BiometricReading)
    ensures
        hist.push(reading).last() == reading,
        hist.drop_first().push(reading).last() == reading,
{
}

} // verus!
