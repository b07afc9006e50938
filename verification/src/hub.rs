//! Fan-out distribution: replicate one inbound frame stream onto several
//! independent outbound streams, preserving order and content.
//!
//! The workers that move the copies between channels live outside the
//! library; the library supplies the replication itself and its guarantee:
//! every branch receives the whole stream, in arrival order, unaltered.

use vstd::prelude::*;

use crate::frame::FrameData;

verus! {

/// The mathematical content of a stream: the model of each item, in order.
pub open spec fn stream_model<FD: FrameData>(s: Seq<FD>) -> Seq<FD::Model> {
    s.map_values(|f: FD| f.model())
}

/// Make one copy of a frame per outbound branch.
///
/// This is the per-frame step of the distributor: the worker receives one
/// frame, calls this, and sends `copies[k]` down branch `k` before reading
/// the next frame, so no branch can fall a whole frame behind another.
pub fn replicate<FD: FrameData>(f: &FD, n: usize) -> (copies: Vec<FD>)
    ensures
        copies.len() == n,
        forall|k: int|
            0 <= k < n ==> (#[trigger] copies[k].model()) == f.model() && copies[k].ts() == f.ts(),
{
    let mut copies: Vec<FD> = Vec::new();
    let mut k: usize = 0;
    while k < n
        invariant
            copies.len() == k,
            k <= n,
            forall|j: int|
                0 <= j < k ==> (#[trigger] copies[j].model()) == f.model() && copies[j].ts()
                    == f.ts(),
        decreases n - k,
    {
        copies.push(f.dup());
        k = k + 1;
    }
    copies
}

/// Fan a finite stream out to `n` branches.
///
/// Every branch receives a stream with exactly the content of the source, in
/// the source's order: there is no partial fan-out and no reordering.
pub fn fan_out<FD: FrameData>(src: &Vec<FD>, n: usize) -> (outs: Vec<Vec<FD>>)
    ensures
        outs.len() == n,
        forall|k: int| 0 <= k < n ==> stream_model(#[trigger] outs[k]@) == stream_model(src@),
{
    let mut outs: Vec<Vec<FD>> = Vec::new();
    let mut k: usize = 0;
    while k < n
        invariant
            outs.len() == k,
            k <= n,
            forall|j: int| 0 <= j < k ==> stream_model(#[trigger] outs[j]@) == stream_model(src@),
        decreases n - k,
    {
        let mut branch: Vec<FD> = Vec::new();
        let mut i: usize = 0;
        while i < src.len()
            invariant
                branch.len() == i,
                i <= src.len(),
                forall|j: int|
                    0 <= j < i ==> (#[trigger] branch[j].model()) == src[j].model(),
            decreases src.len() - i,
        {
            branch.push(src[i].dup());
            i = i + 1;
        }
        proof {
            assert(stream_model(branch@) =~= stream_model(src@));
        }
        outs.push(branch);
        k = k + 1;
    }
    outs
}

} // verus!
