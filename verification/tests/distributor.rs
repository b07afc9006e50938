use rpi::fan_out;
use rpi::replicate;
use rpi::Frame;
use rpi::FrameData;
use rpi::Timestamp;

fn sample_frames() -> Vec<Frame> {
    vec![
        Frame { payload: vec![1, 2, 3], time_stamp: Timestamp::new(0, 0) },
        Frame { payload: vec![], time_stamp: Timestamp::new(1, 500) },
        Frame { payload: vec![255], time_stamp: Timestamp::new(2, 999_999_999) },
    ]
}

#[test]
fn fan_out_delivers_whole_stream_to_every_branch() {
    let src = sample_frames();
    let outs = fan_out(&src, 4);
    assert_eq!(outs.len(), 4);
    for branch in &outs {
        assert_eq!(branch, &src);
    }
}

#[test]
fn fan_out_to_one_branch_is_identity() {
    let src = sample_frames();
    let outs = fan_out(&src, 1);
    assert_eq!(outs.len(), 1);
    assert_eq!(outs[0], src);
}

#[test]
fn fan_out_of_empty_stream() {
    let src: Vec<Frame> = Vec::new();
    let outs = fan_out(&src, 3);
    assert_eq!(outs.len(), 3);
    for branch in &outs {
        assert!(branch.is_empty());
    }
}

#[test]
fn replicate_copies_one_frame_per_branch() {
    let f = Frame { payload: vec![9, 8, 7], time_stamp: Timestamp::new(5, 42) };
    let copies = replicate(&f, 3);
    assert_eq!(copies.len(), 3);
    for c in &copies {
        assert_eq!(c, &f);
    }
}

#[test]
fn dup_preserves_payload_and_timestamp() {
    let f = Frame { payload: vec![4, 5], time_stamp: Timestamp::new(7, 1) };
    let d = f.dup();
    assert_eq!(d, f);
    assert_eq!(f.time_stamp(), Timestamp::new(7, 1));
}
