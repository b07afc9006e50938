//! The data that flows through the pipeline: timestamps and frames.

use vstd::prelude::*;

verus! {

/// A duration since the pipeline's epoch, split into whole seconds and the
/// remaining nanoseconds, as the frame sources report it.
#[derive(Clone, Copy, PartialEq, Eq, Structural, Debug)]
pub struct Timestamp {
    pub secs: u64,
    pub nanos: u32,
}

impl Timestamp {
    /// A timestamp is well formed when the nanosecond part names less than
    /// one whole second.
    pub open spec fn wf(self) -> bool {
        self.nanos < 1_000_000_000
    }

    pub fn new(secs: u64, nanos: u32) -> (r: Timestamp)
        requires
            nanos < 1_000_000_000,
        ensures
            r == (Timestamp { secs, nanos }),
            r.wf(),
    {
        Timestamp { secs, nanos }
    }
}

/// A unit of data that the pipeline can carry: it knows its own timestamp and
/// can be duplicated for fan-out without loss.
///
/// `Model` is the mathematical content of one item; `dup` must preserve it
/// exactly, which is what lets the distributor promise complete, unaltered
/// delivery on every branch.
pub trait FrameData: Sized {
    type Model;

    /// The mathematical content of this item.
    spec fn model(&self) -> Self::Model;

    /// When this item was produced.
    spec fn ts(&self) -> Timestamp;

    fn time_stamp(&self) -> (r: Timestamp)
        ensures
            r == self.ts(),
    ;

    /// Duplicate the item for delivery to one more consumer.
    fn dup(&self) -> (r: Self)
        ensures
            r.model() == self.model(),
            r.ts() == self.ts(),
    ;
}

/// A sensor or camera frame: an opaque payload (for a camera, the encoded
/// image bytes) plus the time it was captured.
#[derive(Debug, PartialEq, Eq)]
pub struct Frame {
    pub payload: Vec<u8>,
    pub time_stamp: Timestamp,
}

/// The mathematical content of a [`Frame`].
pub struct FrameModel {
    pub payload: Seq<u8>,
    pub time_stamp: Timestamp,
}

impl FrameData for Frame {
    type Model = FrameModel;

    open spec fn model(&self) -> FrameModel {
        FrameModel { payload: self.payload@, time_stamp: self.time_stamp }
    }

    open spec fn ts(&self) -> Timestamp {
        self.time_stamp
    }

    fn time_stamp(&self) -> (r: Timestamp) {
        self.time_stamp
    }

    fn dup(&self) -> (r: Self) {
        Frame { payload: self.payload.clone(), time_stamp: self.time_stamp }
    }
}

/// One reading of the joint-angle sensor.
#[derive(Clone, Copy, PartialEq, Eq, Structural, Debug)]
pub struct AngleData {
    pub data: u16,
    pub time_stamp: Timestamp,
}

impl FrameData for AngleData {
    type Model = AngleData;

    open spec fn model(&self) -> AngleData {
        *self
    }

    open spec fn ts(&self) -> Timestamp {
        self.time_stamp
    }

    fn time_stamp(&self) -> (r: Timestamp) {
        self.time_stamp
    }

    fn dup(&self) -> (r: Self) {
        *self
    }
}

} // verus!
