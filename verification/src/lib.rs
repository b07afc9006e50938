//! Pipeline backbone for a sensor/video acquisition rig.
//!
//! Timestamped frames flow from a source through a fan-out distributor to
//! independent consumers: a start/stop-signaled recording sink and a
//! single-viewer live relay.  This crate holds the verified core of that
//! pipeline — the data model, the fan-out, the recorder state machine, the
//! relay's ownership slot with its paired-task cancellation, and the wire
//! formats — while the process wiring (threads, sockets, files) stays in the
//! surrounding application.

mod control;
mod frame;
mod hub;
mod recorder;
mod relay;
mod video_recorder;
mod wire;

pub use control::encode_signal;
pub use control::lemma_signal_wire_injective;
pub use control::parse_signal;
pub use control::plain_text;
pub use control::signal_wire;
pub use control::wire_ready;
pub use frame::AngleData;
pub use frame::Frame;
pub use frame::FrameData;
pub use frame::Timestamp;
pub use hub::fan_out;
pub use hub::replicate;
pub use hub::stream_model;
pub use recorder::apply_command;
pub use recorder::frames_of;
pub use recorder::idle_sink;
pub use recorder::lemma_run_append;
pub use recorder::lemma_run_no_commands;
pub use recorder::lemma_single_session_window;
pub use recorder::recorder_run;
pub use recorder::recorder_run_model;
pub use recorder::recorder_step;
pub use recorder::recorder_step_model;
pub use recorder::Command;
pub use recorder::DataFile;
pub use recorder::MemoryFile;
pub use recorder::RecordCommand;
pub use recorder::SinkRole;
pub use recorder::SinkState;
pub use recorder::VideoDesc;
pub use relay::admits;
pub use relay::claimed;
pub use relay::connect;
pub use relay::is_terminal;
pub use relay::lemma_second_identity_rejected;
pub use relay::lemma_terminal_frees_slot;
pub use relay::lemma_first_terminal_event_settles_the_run;
pub use relay::lemma_terminated_connection_is_inert;
pub use relay::on_event;
pub use relay::relay_run;
pub use relay::relay_step;
pub use relay::Connection;
pub use relay::OwnershipSlot;
pub use relay::PeerId;
pub use relay::RelayEvent;
pub use relay::TaskState;
pub use video_recorder::VideoRecorder;
pub use video_recorder::VideoRecorderSignal;
pub use wire::angle_data_json;
pub use wire::angle_json;
pub use wire::angle_messages;
pub use wire::decode_angle;
pub use wire::duration_json;
pub use wire::frame_messages;
pub use wire::spec_decimal;
pub use wire::timestamp_json;
pub use wire::u64_decimal;
pub use wire::WsMessage;
