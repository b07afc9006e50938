use std::sync::mpsc::channel;

use rpi::VideoRecorder;
use rpi::VideoRecorderSignal;

#[test]
fn start_and_end_drive_the_backend_channel() {
    let (tx, rx) = channel();
    let mut vr = VideoRecorder::new(tx);
    assert!(!vr.is_recording());

    assert!(vr.start_record(String::from("run.mp4")));
    assert!(vr.is_recording());
    assert_eq!(rx.try_recv(), Ok(VideoRecorderSignal::Start(String::from("run.mp4"))));

    // A second start while recording sends nothing.
    assert!(!vr.start_record(String::from("other.mp4")));
    assert!(vr.is_recording());
    assert!(rx.try_recv().is_err());

    assert!(vr.end_record());
    assert!(!vr.is_recording());
    assert_eq!(rx.try_recv(), Ok(VideoRecorderSignal::End));

    // Ending while idle sends nothing.
    assert!(!vr.end_record());
    assert!(rx.try_recv().is_err());
}

#[test]
fn hung_up_backend_leaves_the_recorder_idle() {
    let (tx, rx) = channel::<VideoRecorderSignal>();
    drop(rx);
    let mut vr = VideoRecorder::new(tx);
    assert!(!vr.start_record(String::from("run.mp4")));
    assert!(!vr.is_recording());
}
