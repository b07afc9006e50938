use rpi::recorder_run;
use rpi::recorder_step;
use rpi::AngleData;
use rpi::Command;
use rpi::DataFile;
use rpi::MemoryFile;
use rpi::RecordCommand;
use rpi::SinkRole;
use rpi::Timestamp;

fn angle(t: u64) -> AngleData {
    AngleData { data: t as u16, time_stamp: Timestamp::new(t, 0) }
}

/// The source emits five frames; the controller starts a session after the
/// second and ends it after the fourth, so exactly the third and fourth
/// frames reach the sink.
#[test]
fn session_window_captures_exactly_the_middle_frames() {
    let t: Vec<AngleData> = (0..5).map(angle).collect();
    let steps = vec![
        (None, t[0]),
        (None, t[1]),
        (Some(Command::StartRecord(String::from("a"))), t[2]),
        (None, t[3]),
        (Some(Command::EndRecord), t[4]),
    ];
    let mut sink: MemoryFile<AngleData> = MemoryFile::new();
    recorder_run(&mut sink, steps, &());
    assert!(!sink.is_started());
    assert_eq!(sink.entries(), &vec![t[2], t[3]]);
}

#[test]
fn idle_recorder_writes_nothing() {
    let mut sink: MemoryFile<AngleData> = MemoryFile::new();
    for k in 0..4 {
        recorder_step(&mut sink, None, angle(k), &());
    }
    assert!(!sink.is_started());
    assert!(sink.entries().is_empty());
}

#[test]
fn start_while_armed_is_ignored() {
    let mut sink: MemoryFile<AngleData> = MemoryFile::new();
    recorder_step(&mut sink, Some(Command::StartRecord(String::from("a"))), angle(0), &());
    recorder_step(&mut sink, None, angle(1), &());
    recorder_step(&mut sink, Some(Command::StartRecord(String::from("b"))), angle(2), &());
    assert!(sink.is_started());
    assert_eq!(sink.current_path(), Some(&String::from("a")));
    assert_eq!(sink.entries(), &vec![angle(0), angle(1), angle(2)]);
}

#[test]
fn end_while_idle_is_ignored() {
    let mut sink: MemoryFile<AngleData> = MemoryFile::new();
    recorder_step(&mut sink, Some(Command::EndRecord), angle(0), &());
    assert!(!sink.is_started());
    assert!(sink.entries().is_empty());
}

#[test]
fn command_takes_effect_before_the_frame_that_carries_it() {
    let mut sink: MemoryFile<AngleData> = MemoryFile::new();
    recorder_step(&mut sink, Some(Command::StartRecord(String::from("a"))), angle(0), &());
    assert_eq!(sink.entries(), &vec![angle(0)]);
    recorder_step(&mut sink, Some(Command::EndRecord), angle(1), &());
    assert_eq!(sink.entries(), &vec![angle(0)]);
}

#[test]
fn restart_truncates_previous_session() {
    let mut sink: MemoryFile<AngleData> = MemoryFile::new();
    recorder_step(&mut sink, Some(Command::StartRecord(String::from("a"))), angle(0), &());
    recorder_step(&mut sink, Some(Command::EndRecord), angle(1), &());
    assert_eq!(sink.entries(), &vec![angle(0)]);
    recorder_step(&mut sink, Some(Command::StartRecord(String::from("b"))), angle(2), &());
    assert_eq!(sink.current_path(), Some(&String::from("b")));
    assert_eq!(sink.entries(), &vec![angle(2)]);
}

#[test]
fn memory_file_lifecycle() {
    let mut sink: MemoryFile<u32> = MemoryFile::new();
    assert!(!sink.is_started());
    assert_eq!(sink.current_path(), None);
    sink.start_new("out.csv", &());
    assert!(sink.is_started());
    assert_eq!(sink.current_path(), Some(&String::from("out.csv")));
    sink.record(10);
    sink.record(20);
    sink.end();
    assert!(!sink.is_started());
    assert_eq!(sink.current_path(), None);
    assert_eq!(sink.entries(), &vec![10, 20]);
}

#[test]
fn record_command_selects_the_path_for_each_sink() {
    let rc = RecordCommand::Start {
        imu: String::from("imu.csv"),
        env_camera: String::from("env.mp4"),
        left_finger: String::from("left.csv"),
        right_finger: String::from("right.csv"),
    };
    assert_eq!(rc.command_for(SinkRole::Imu), Command::StartRecord(String::from("imu.csv")));
    assert_eq!(rc.command_for(SinkRole::EnvCamera), Command::StartRecord(String::from("env.mp4")));
    assert_eq!(
        rc.command_for(SinkRole::LeftFinger),
        Command::StartRecord(String::from("left.csv"))
    );
    assert_eq!(
        rc.command_for(SinkRole::RightFinger),
        Command::StartRecord(String::from("right.csv"))
    );
    assert_eq!(RecordCommand::End.command_for(SinkRole::Imu), Command::EndRecord);
}
