//! The start/stop-signaled recording sink.
//!
//! A recorder consumes one data stream and a command stream.  It is Idle
//! until a `StartRecord` signal opens a sink at the named path, Armed until
//! the matching `EndRecord` closes it again.  Commands are polled once per
//! frame, so a signal takes effect at the next frame that arrives.  While
//! Armed, every frame is written to the sink exactly once, in arrival order.

use vstd::prelude::*;

verus! {

/// An operator signal: open a recording session writing to `path`, or close
/// the current one.
#[derive(Debug, Clone, PartialEq, Eq)]
pub enum Command {
    StartRecord(String),
    EndRecord,
}

/// The rig-wide recording signal: one sink path per data source, or end all
/// sessions.  Each recorder picks the path for its own sink out of it.
#[derive(Debug, Clone, PartialEq, Eq)]
pub enum RecordCommand {
    Start { imu: String, env_camera: String, left_finger: String, right_finger: String },
    End,
}

/// Which of the rig's sinks a recorder feeds.
#[derive(Debug, Clone, Copy, PartialEq, Eq, Structural)]
pub enum SinkRole {
    Imu,
    EnvCamera,
    LeftFinger,
    RightFinger,
}

impl RecordCommand {
    /// The sink path that a `Start` signal assigns to `role`.
    pub open spec fn sink_path(&self, role: SinkRole) -> Seq<char>
        recommends
            self is Start,
    {
        match role {
            SinkRole::Imu => self->imu@,
            SinkRole::EnvCamera => self->env_camera@,
            SinkRole::LeftFinger => self->left_finger@,
            SinkRole::RightFinger => self->right_finger@,
        }
    }

    /// Narrow a rig-wide signal to the command for one recorder: `Start`
    /// becomes `StartRecord` at that recorder's path, `End` becomes
    /// `EndRecord`.
    pub fn command_for(&self, role: SinkRole) -> (c: Command)
        ensures
            self is Start ==> (c matches Command::StartRecord(p) && p@ == self.sink_path(role)),
            self is End ==> c is EndRecord,
    {
        match self {
            RecordCommand::Start { imu, env_camera, left_finger, right_finger } => {
                let path = match role {
                    SinkRole::Imu => imu,
                    SinkRole::EnvCamera => env_camera,
                    SinkRole::LeftFinger => left_finger,
                    SinkRole::RightFinger => right_finger,
                };
                Command::StartRecord(path.clone())
            },
            RecordCommand::End => Command::EndRecord,
        }
    }
}

/// The session parameters of a video sink, fixed when a session starts.
#[derive(Debug, Clone, Copy, PartialEq, Eq, Structural)]
pub struct VideoDesc {
    pub width: u32,
    pub height: u32,
    pub fps: u32,
}

/// The observable state of a sink: whether a session is open, and the rows
/// written to the current (or, once closed, the most recent) session, oldest
/// first.
pub struct SinkState<D> {
    pub armed: bool,
    pub rows: Seq<D>,
}

/// The state of a sink with no session open and nothing written.
pub open spec fn idle_sink<D>() -> SinkState<D> {
    SinkState { armed: false, rows: Seq::empty() }
}

/// A recording sink: a named destination that can be opened, written row by
/// row, and closed.
///
/// `model` ties every implementation to one observable [`SinkState`]; the
/// recorder's guarantees are stated over it.  Opening a session at a path
/// that already holds data truncates it, as `start_new`'s contract says.
pub trait DataFile: Sized {
    type Param;

    type Data;

    /// The observable state of this sink.  Implementations override this;
    /// the default leaves the state unconstrained, so an implementation
    /// outside the library compiles, with nothing promised of it.
    open spec fn model(&self) -> SinkState<Self::Data> {
        arbitrary()
    }

    fn new() -> (r: Self)
        ensures
            r.model() == idle_sink::<Self::Data>(),
    ;

    fn is_started(&self) -> (r: bool)
        ensures
            r == self.model().armed,
    ;

    /// Open a session writing to `path`, discarding whatever a previous
    /// session at that destination held.
    fn start_new(&mut self, path: &str, param: &Self::Param)
        ensures
            final(self).model() == (SinkState::<Self::Data> { armed: true, rows: Seq::empty() }),
    ;

    /// Append one row to the open session.
    fn record(&mut self, data: Self::Data)
        requires
            old(self).model().armed,
        ensures
            final(self).model() == (SinkState::<Self::Data> {
                armed: true,
                rows: old(self).model().rows.push(data),
            }),
    ;

    /// Flush and close the session, keeping what was written.
    fn end(&mut self)
        ensures
            final(self).model() == (SinkState::<Self::Data> {
                armed: false,
                rows: old(self).model().rows,
            }),
    ;
}

/// A sink that keeps its rows in memory: the reference implementation of
/// [`DataFile`], and the sink the scenario tests read back.
pub struct MemoryFile<D> {
    path: Option<String>,
    entries: Vec<D>,
}

impl<D> MemoryFile<D> {
    /// The destination of the open session, if one is open.
    pub closed spec fn path_spec(&self) -> Option<Seq<char>> {
        match self.path {
            Some(p) => Some(p@),
            None => None,
        }
    }

    /// The rows written to the current (or most recent) session.
    pub fn entries(&self) -> (r: &Vec<D>)
        ensures
            r@ == self.model().rows,
    {
        &self.entries
    }

    /// The destination of the open session, if one is open.
    pub fn current_path(&self) -> (r: Option<&String>)
        ensures
            match r {
                Some(p) => self.path_spec() == Some(p@),
                None => self.path_spec() is None,
            },
    {
        self.path.as_ref()
    }
}

impl<D> DataFile for MemoryFile<D> {
    type Param = ();

    type Data = D;

    closed spec fn model(&self) -> SinkState<D> {
        SinkState { armed: self.path is Some, rows: self.entries@ }
    }

    fn new() -> (r: Self) {
        MemoryFile { path: None, entries: Vec::new() }
    }

    fn is_started(&self) -> (r: bool) {
        self.path.is_some()
    }

    fn start_new(&mut self, path: &str, _param: &()) {
        self.path = Some(path.to_owned());
        self.entries.clear();
    }

    fn record(&mut self, data: D) {
        self.entries.push(data);
    }

    fn end(&mut self) {
        self.path = None;
    }
}

/// What one recorder iteration does to a sink, before any frame is written:
/// `StartRecord` opens a session if none is open (a `Start` while Armed is
/// deliberately ignored, so an operator repeating it cannot truncate a
/// running session), `EndRecord` closes the open session, and no pending
/// signal leaves the sink as it is.
pub open spec fn apply_command<D>(s: SinkState<D>, cmd: Option<Command>) -> SinkState<D> {
    match cmd {
        Some(Command::StartRecord(_)) => if s.armed {
            s
        } else {
            SinkState { armed: true, rows: Seq::empty() }
        },
        Some(Command::EndRecord) => SinkState { armed: false, rows: s.rows },
        None => s,
    }
}

/// One recorder iteration: drain at most one pending command, then write the
/// frame if and only if a session is open afterwards.
pub open spec fn recorder_step_model<D>(s: SinkState<D>, cmd: Option<Command>, data: D) -> SinkState<
    D,
> {
    let t = apply_command(s, cmd);
    if t.armed {
        SinkState { armed: true, rows: t.rows.push(data) }
    } else {
        t
    }
}

/// A whole recorder run: fold [`recorder_step_model`] over the iterations.
pub open spec fn recorder_run_model<D>(
    s: SinkState<D>,
    steps: Seq<(Option<Command>, D)>,
) -> SinkState<D>
    decreases steps.len(),
{
    if steps.len() == 0 {
        s
    } else {
        recorder_run_model(recorder_step_model(s, steps[0].0, steps[0].1), steps.drop_first())
    }
}

/// The frames of a run, without their commands.
pub open spec fn frames_of<D>(steps: Seq<(Option<Command>, D)>) -> Seq<D> {
    steps.map_values(|p: (Option<Command>, D)| p.1)
}

/// One iteration of the recorder: poll at most one pending command, apply it,
/// then write the frame to the sink if a session is open.
pub fn recorder_step<DF: DataFile>(
    f: &mut DF,
    cmd: Option<Command>,
    data: DF::Data,
    param: &DF::Param,
)
    ensures
        final(f).model() == recorder_step_model(old(f).model(), cmd, data),
{
    match &cmd {
        Some(Command::StartRecord(path)) => {
            if !f.is_started() {
                f.start_new(path.as_str(), param);
            }
        },
        Some(Command::EndRecord) => {
            if f.is_started() {
                f.end();
            }
        },
        None => {},
    }
    if f.is_started() {
        f.record(data);
    }
}

/// Run the recorder over a finite prefix of its input: each iteration pairs
/// the frame that arrived with the command (if any) polled just before it.
pub fn recorder_run<DF: DataFile>(
    f: &mut DF,
    steps: Vec<(Option<Command>, DF::Data)>,
    param: &DF::Param,
)
    ensures
        final(f).model() == recorder_run_model(old(f).model(), steps@),
{
    let mut rest = steps;
    while rest.len() > 0
        invariant
            recorder_run_model(f.model(), rest@) == recorder_run_model(old(f).model(), steps@),
        decreases rest.len(),
    {
        let ghost rest_before = rest@;
        let (cmd, data) = rest.remove(0);
        proof {
            assert(rest_before[0] == (cmd, data));
            assert(rest_before.drop_first() =~= rest@);
        }
        recorder_step(f, cmd, data, param);
    }
}

/// Running the recorder over two input stretches in turn is the same as
/// running it over their concatenation.
pub proof fn lemma_run_append<D>(
    s: SinkState<D>,
    a: Seq<(Option<Command>, D)>,
    b: Seq<(Option<Command>, D)>,
)
    ensures
        recorder_run_model(s, a + b) == recorder_run_model(recorder_run_model(s, a), b),
    decreases a.len(),
{
    if a.len() == 0 {
        assert(a + b =~= b);
    } else {
        assert((a + b)[0] == a[0]);
        assert((a + b).drop_first() =~= a.drop_first() + b);
        lemma_run_append(recorder_step_model(s, a[0].0, a[0].1), a.drop_first(), b);
    }
}

/// While no command arrives, an idle recorder writes nothing and an armed
/// recorder writes every frame, in arrival order.
pub proof fn lemma_run_no_commands<D>(s: SinkState<D>, steps: Seq<(Option<Command>, D)>)
    requires
        forall|k: int| 0 <= k < steps.len() ==> (#[trigger] steps[k].0) is None,
    ensures
        recorder_run_model(s, steps).armed == s.armed,
        recorder_run_model(s, steps).rows == if s.armed {
            s.rows + frames_of(steps)
        } else {
            s.rows
        },
    decreases steps.len(),
{
    if steps.len() == 0 {
        assert(frames_of(steps) =~= Seq::<D>::empty());
        assert(s.rows + frames_of(steps) =~= s.rows);
    } else {
        let t = recorder_step_model(s, steps[0].0, steps[0].1);
        lemma_run_no_commands(t, steps.drop_first());
        if s.armed {
            assert(frames_of(steps.drop_first()) =~= frames_of(steps).drop_first());
            assert(s.rows.push(steps[0].1) + frames_of(steps).drop_first() =~= s.rows + frames_of(
                steps,
            ));
        }
    }
}

/// Frames offered to the recorder strictly before a session's `Start` is
/// polled, or from the iteration at which its `End` is polled onward, are
/// never written to the sink; every frame from the `Start` up to the `End`
/// is written exactly once, in arrival order.  Here `steps` is a whole run
/// holding one session: the `Start` is polled at iteration `i` and the
/// matching `End` at iteration `j`.
pub proof fn lemma_single_session_window<D>(steps: Seq<(Option<Command>, D)>, i: int, j: int)
    requires
        0 <= i < j < steps.len(),
        steps[i].0 matches Some(Command::StartRecord(_)),
        steps[j].0 matches Some(Command::EndRecord),
        forall|k: int|
            0 <= k < steps.len() && k != i && k != j ==> (#[trigger] steps[k].0) is None,
    ensures
        !recorder_run_model(idle_sink::<D>(), steps).armed,
        recorder_run_model(idle_sink::<D>(), steps).rows == frames_of(steps.subrange(i, j)),
{
    let pre = steps.subrange(0, i);
    let start_step = steps.subrange(i, i + 1);
    let mid = steps.subrange(i + 1, j);
    let end_step = steps.subrange(j, j + 1);
    let post = steps.subrange(j + 1, steps.len() as int);
    assert(steps =~= pre + start_step + mid + end_step + post);

    reveal_with_fuel(recorder_run_model, 2);
    let s0 = idle_sink::<D>();
    lemma_run_append(s0, pre, start_step + mid + end_step + post);
    lemma_run_no_commands(s0, pre);
    let s1 = recorder_run_model(s0, pre);
    assert(s1 == idle_sink::<D>());

    lemma_run_append(s1, start_step, mid + end_step + post);
    assert(start_step.len() == 1 && start_step[0] == steps[i]);
    assert(start_step.drop_first() =~= Seq::<(Option<Command>, D)>::empty());
    assert(recorder_run_model(s1, start_step) == recorder_step_model(s1, steps[i].0, steps[i].1));
    let s2 = recorder_run_model(s1, start_step);
    assert(s2.armed && s2.rows =~= seq![steps[i].1]);

    lemma_run_append(s2, mid, end_step + post);
    lemma_run_no_commands(s2, mid);
    let s3 = recorder_run_model(s2, mid);

    lemma_run_append(s3, end_step, post);
    assert(end_step.len() == 1 && end_step[0] == steps[j]);
    assert(end_step.drop_first() =~= Seq::<(Option<Command>, D)>::empty());
    assert(recorder_run_model(s3, end_step) == recorder_step_model(s3, steps[j].0, steps[j].1));
    let s4 = recorder_run_model(s3, end_step);
    assert(!s4.armed && s4.rows == s3.rows);

    lemma_run_no_commands(s4, post);
    assert(pre + (start_step + mid + end_step + post) =~= steps);
    assert(start_step + mid + end_step + post =~= start_step + (mid + end_step + post));
    assert(mid + end_step + post =~= mid + (end_step + post));
    assert(recorder_run_model(s0, steps) == s4);

    assert(steps.subrange(i, j) =~= start_step + mid);
    assert(frames_of(start_step + mid) =~= frames_of(start_step) + frames_of(mid));
    assert(s4.rows =~= frames_of(steps.subrange(i, j)));
}

} // verus!
