use vstd::prelude::*;

verus! {

/// One discretized snapshot of analyzed audio energy, split into
/// fixed-width frequency bands of one hundred hertz each, band zero
/// being the lowest frequencies.
///
/// A band value is an amplitude in thousandths: `1000` is a full-scale
/// band (`1.0`), `0` is silence.  Frames are produced once per analysis
/// tick, handed through a channel, and consumed within one pipeline
/// tick.
pub struct AudioFrame {
    pub hundred_hz_buckets: Vec<u32>,
}

} // verus!
