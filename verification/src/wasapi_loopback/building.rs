//! How a loopback stream is built.
//!
//! A stream that leaves nothing out captures the endpoint. One that leaves one process tree out
//! captures all sound but that of the tree. One that leaves several out captures the endpoint and
//! each of the trees, and subtracts.

use vstd::prelude::*;

use crate::text::{ascii_lower, join};
use crate::types::{
    BackendSpecificError, BuildStreamError, ErrorView, SampleFormat, StreamConfig,
};
use crate::wasapi_loopback::activation::{
    PROCESS_LOOPBACK_MODE_EXCLUDE_TARGET_PROCESS_TREE,
    PROCESS_LOOPBACK_MODE_INCLUDE_TARGET_PROCESS_TREE,
};
use crate::wasapi_loopback::capture_client::{EVENT_CALLBACK, EVENT_CALLBACK_AND_LOOPBACK};
use crate::wasapi_loopback::device::Device;
use crate::wasapi_loopback::error::{invalidated_or_backend, invalidation_error, WindowsError};
use crate::wasapi_loopback::process::{snapshot_entries, ProcessEntry};
use crate::wasapi_loopback::process_tree::{named_pids, resolve_excluded_pids, tree_roots};
use crate::wasapi_loopback::stream::{
    CaptureComponents, IncludeCapture, Stream, StreamInner, StreamSource,
};

verus! {

// ---------------------------------------------------------------------------
// Phases, actions and replies
// ---------------------------------------------------------------------------

/// How far a stream is built.
#[derive(Clone, Copy, Debug, PartialEq, Eq, Structural)]
pub enum BuildPhase {
    Silence,
    /// The audio client of the endpoint is due.
    OpenEndpoint,
    /// The audio client for all sound but that of the one process tree is due.
    ActivateExclude,
    /// That client is to be initialized.
    InitializeCapture,
    /// The audio client for the next process tree is due.
    ActivateInclude,
    /// That client is to be initialized.
    InitializeInclude,
    OpenClock,
    Done,
    Failed,
}

/// What is to be done next.
#[derive(Clone, Copy, Debug, PartialEq, Eq, Structural)]
pub enum BuildAction {
    CreateSilence,
    OpenEndpoint,
    ActivateProcess { pid: u32, mode: u32 },
    /// The client that was opened or activated last is to be initialized.
    Initialize { stream_flags: u32 },
    OpenClock,
    Finished,
}

/// What came of it.
pub enum BuildReply {
    /// Whether silence is played.
    Silence(bool),
    Opened(Result<(), WindowsError>),
    Activated(Result<(), BuildStreamError>),
    Initialized(Result<CaptureComponents, BuildStreamError>),
    Clock(Result<(), String>),
}

impl BuildReply {
    /// Whether the reply is one to what was due.
    pub open spec fn answers(self, phase: BuildPhase) -> bool {
        match phase {
            BuildPhase::Silence => self is Silence,
            BuildPhase::OpenEndpoint => self is Opened,
            BuildPhase::ActivateExclude | BuildPhase::ActivateInclude => self is Activated,
            BuildPhase::InitializeCapture | BuildPhase::InitializeInclude => self is Initialized,
            BuildPhase::OpenClock => self is Clock,
            BuildPhase::Done | BuildPhase::Failed => false,
        }
    }
}

/// A stream that is being built.
pub struct InputStreamBuild {
    pub phase: BuildPhase,
    /// The processes whose trees are left out.
    pub pids: Vec<u32>,
    pub silence: bool,
    pub capture: Option<CaptureComponents>,
    /// The process whose tree is captured next.
    pub next: usize,
    pub includes: Vec<IncludeCapture>,
    pub error: Option<BuildStreamError>,
}

/// What an [`InputStreamBuild`] is.
pub struct BuildView {
    pub phase: BuildPhase,
    pub pids: Seq<u32>,
    pub silence: bool,
    pub capture: Option<CaptureComponents>,
    pub next: int,
    pub includes: Seq<IncludeCapture>,
    pub error: Option<ErrorView>,
}

/// What an error that may be absent says.
pub open spec fn optional_error(error: Option<BuildStreamError>) -> Option<ErrorView> {
    match error {
        Some(e) => Some(e@),
        None => None,
    }
}

impl View for InputStreamBuild {
    type V = BuildView;

    open spec fn view(&self) -> BuildView {
        BuildView {
            phase: self.phase,
            pids: self.pids@,
            silence: self.silence,
            capture: self.capture,
            next: self.next as int,
            includes: self.includes@,
            error: optional_error(self.error),
        }
    }
}

// ---------------------------------------------------------------------------
// Transitions
// ---------------------------------------------------------------------------

/// The phase in which the first client is had.
pub open spec fn first_client_phase(pids: Seq<u32>) -> BuildPhase {
    if pids.len() == 1 {
        BuildPhase::ActivateExclude
    } else {
        BuildPhase::OpenEndpoint
    }
}

impl BuildView {
    /// A stream at its start. No silence is played on a Bluetooth endpoint.
    pub open spec fn start(pids: Seq<u32>, bluetooth: bool) -> Self {
        BuildView {
            phase: if bluetooth {
                first_client_phase(pids)
            } else {
                BuildPhase::Silence
            },
            pids,
            silence: false,
            capture: None,
            next: 0,
            includes: seq![],
            error: None,
        }
    }

    /// The same in another phase.
    pub open spec fn at(self, phase: BuildPhase) -> Self {
        BuildView { phase, ..self }
    }

    /// The end, with an error.
    pub open spec fn failed(self, error: ErrorView) -> Self {
        BuildView { phase: BuildPhase::Failed, error: Some(error), ..self }
    }

    /// The same past the current process tree.
    pub open spec fn past_include(self) -> Self {
        BuildView {
            next: self.next + 1,
            phase: if self.next + 1 < self.pids.len() {
                BuildPhase::ActivateInclude
            } else if self.includes.len() == 0 {
                BuildPhase::OpenClock
            } else {
                BuildPhase::Done
            },
            ..self
        }
    }

    /// The stream after a reply.
    pub open spec fn after(self, reply: BuildReply) -> Self {
        match (self.phase, reply) {
            (BuildPhase::Silence, BuildReply::Silence(silence)) => BuildView {
                silence,
                phase: first_client_phase(self.pids),
                ..self
            },
            (BuildPhase::OpenEndpoint, BuildReply::Opened(Ok(_))) => self.at(
                BuildPhase::InitializeCapture,
            ),
            (BuildPhase::OpenEndpoint, BuildReply::Opened(Err(e))) => self.failed(
                invalidation_error(e),
            ),
            (BuildPhase::ActivateExclude, BuildReply::Activated(Ok(_))) => self.at(
                BuildPhase::InitializeCapture,
            ),
            (BuildPhase::ActivateExclude, BuildReply::Activated(Err(e))) => self.failed(e@),
            (BuildPhase::InitializeCapture, BuildReply::Initialized(Ok(components))) => BuildView {
                capture: Some(components),
                phase: if self.pids.len() >= 2 {
                    BuildPhase::ActivateInclude
                } else {
                    BuildPhase::OpenClock
                },
                ..self
            },
            (BuildPhase::InitializeCapture, BuildReply::Initialized(Err(e))) => self.failed(e@),
            (BuildPhase::ActivateInclude, BuildReply::Activated(Ok(_))) => self.at(
                BuildPhase::InitializeInclude,
            ),
            (BuildPhase::ActivateInclude, BuildReply::Activated(Err(_))) => self.past_include(),
            (BuildPhase::InitializeInclude, BuildReply::Initialized(Ok(components))) => BuildView {
                includes: self.includes.push(
                    IncludeCapture { pid: self.pids[self.next], components },
                ),
                ..self
            }.past_include(),
            (BuildPhase::InitializeInclude, BuildReply::Initialized(Err(_))) => self.past_include(),
            (BuildPhase::OpenClock, BuildReply::Clock(Ok(_))) => self.at(BuildPhase::Done),
            (BuildPhase::OpenClock, BuildReply::Clock(Err(e))) => self.failed(
                ErrorView::BackendSpecific("failed to build audio clock: "@ + e@),
            ),
            _ => self,
        }
    }

    /// What is to be done next. A client for one process tree is told at its activation what it
    /// captures; the endpoint's client is told by its flags.
    pub open spec fn action(self) -> BuildAction {
        match self.phase {
            BuildPhase::Silence => BuildAction::CreateSilence,
            BuildPhase::OpenEndpoint => BuildAction::OpenEndpoint,
            BuildPhase::ActivateExclude => BuildAction::ActivateProcess {
                pid: self.pids[0],
                mode: PROCESS_LOOPBACK_MODE_EXCLUDE_TARGET_PROCESS_TREE,
            },
            BuildPhase::InitializeCapture => BuildAction::Initialize {
                stream_flags: if self.pids.len() == 1 {
                    EVENT_CALLBACK
                } else {
                    EVENT_CALLBACK_AND_LOOPBACK
                },
            },
            BuildPhase::ActivateInclude => BuildAction::ActivateProcess {
                pid: self.pids[self.next],
                mode: PROCESS_LOOPBACK_MODE_INCLUDE_TARGET_PROCESS_TREE,
            },
            BuildPhase::InitializeInclude => BuildAction::Initialize {
                stream_flags: EVENT_CALLBACK,
            },
            BuildPhase::OpenClock => BuildAction::OpenClock,
            BuildPhase::Done | BuildPhase::Failed => BuildAction::Finished,
        }
    }

    /// What holds of every stream that is being built.
    pub open spec fn well_formed(self) -> bool {
        let several = self.pids.len() >= 2;
        &&& 0 <= self.next <= self.pids.len()
        &&& self.includes.len() <= self.next
        &&& forall|i: int|
            0 <= i < self.includes.len() ==> self.pids.contains((#[trigger] self.includes[i]).pid)
        &&& self.phase == BuildPhase::Failed <==> self.error is Some
        &&& match self.phase {
            BuildPhase::Silence => self.next == 0 && self.capture is None && !self.silence,
            BuildPhase::OpenEndpoint => self.next == 0 && self.capture is None && self.pids.len()
                != 1,
            BuildPhase::ActivateExclude => self.next == 0 && self.capture is None
                && self.pids.len() == 1,
            BuildPhase::InitializeCapture => self.next == 0 && self.capture is None,
            BuildPhase::ActivateInclude | BuildPhase::InitializeInclude => several && self.next
                < self.pids.len() && self.capture is Some,
            BuildPhase::OpenClock => self.capture is Some && self.includes.len() == 0 && (several
                ==> self.next == self.pids.len()),
            BuildPhase::Done => self.capture is Some && (self.includes.len() > 0 ==> several) && (
            several ==> self.next == self.pids.len()),
            BuildPhase::Failed => true,
        }
    }

    /// How many steps are left, at most.
    pub open spec fn steps_left(self) -> int {
        let includes = 2 * (self.pids.len() - self.next);
        match self.phase {
            BuildPhase::Silence => includes + 5,
            BuildPhase::OpenEndpoint | BuildPhase::ActivateExclude => includes + 4,
            BuildPhase::InitializeCapture => includes + 3,
            BuildPhase::ActivateInclude => includes + 2,
            BuildPhase::InitializeInclude => includes + 1,
            BuildPhase::OpenClock => 1,
            BuildPhase::Done | BuildPhase::Failed => 0,
        }
    }

    /// Whether the sound of the process trees is subtracted in the end.
    pub open spec fn subtracts(self) -> bool {
        self.includes.len() > 0
    }
}

impl InputStreamBuild {
    /// A stream at its start.
    pub fn start(pids: Vec<u32>, bluetooth: bool) -> (build: Self)
        ensures
            build@ == BuildView::start(pids@, bluetooth),
            build@.well_formed(),
            build.phase == BuildPhase::Silence <==> !bluetooth,
            build.pids == pids,
            !build.silence && build.capture is None && build.includes@.len() == 0 && build.next
                == 0 && build.error is None,
    {
        let phase: BuildPhase = if !bluetooth {
            BuildPhase::Silence
        } else if pids.len() == 1 {
            BuildPhase::ActivateExclude
        } else {
            BuildPhase::OpenEndpoint
        };
        InputStreamBuild {
            phase,
            pids,
            silence: false,
            capture: None,
            next: 0,
            includes: Vec::new(),
            error: None,
        }
    }

    /// What is to be done next; the reply goes to [`InputStreamBuild::advance`].
    pub fn action(&self) -> (action: BuildAction)
        requires
            self@.well_formed(),
        ensures
            action == self@.action(),
    {
        match self.phase {
            BuildPhase::Silence => BuildAction::CreateSilence,
            BuildPhase::OpenEndpoint => BuildAction::OpenEndpoint,
            BuildPhase::ActivateExclude => BuildAction::ActivateProcess {
                pid: self.pids[0],
                mode: PROCESS_LOOPBACK_MODE_EXCLUDE_TARGET_PROCESS_TREE,
            },
            BuildPhase::InitializeCapture => BuildAction::Initialize {
                stream_flags: if self.pids.len() == 1 {
                    EVENT_CALLBACK
                } else {
                    EVENT_CALLBACK_AND_LOOPBACK
                },
            },
            BuildPhase::ActivateInclude => BuildAction::ActivateProcess {
                pid: self.pids[self.next],
                mode: PROCESS_LOOPBACK_MODE_INCLUDE_TARGET_PROCESS_TREE,
            },
            BuildPhase::InitializeInclude => BuildAction::Initialize {
                stream_flags: EVENT_CALLBACK,
            },
            BuildPhase::OpenClock => BuildAction::OpenClock,
            BuildPhase::Done | BuildPhase::Failed => BuildAction::Finished,
        }
    }

    fn fail(&mut self, error: BuildStreamError)
        ensures
            final(self)@ == old(self)@.failed(error@),
    {
        self.phase = BuildPhase::Failed;
        self.error = Some(error);
    }

    fn pass_include(&mut self)
        requires
            old(self).next < old(self).pids@.len(),
        ensures
            final(self)@ == old(self)@.past_include(),
    {
        let count: usize = self.pids.len();
        self.next = self.next + 1;
        self.phase = if self.next < count {
            BuildPhase::ActivateInclude
        } else if self.includes.is_empty() {
            BuildPhase::OpenClock
        } else {
            BuildPhase::Done
        };
    }

    /// Takes the reply to what was due. Where the sound of a process tree cannot be captured, the
    /// tree is passed over; where that of none can, the endpoint is captured as it is.
    pub fn advance(&mut self, reply: BuildReply)
        requires
            old(self)@.well_formed(),
            reply.answers(old(self).phase),
        ensures
            final(self)@ == old(self)@.after(reply),
            final(self)@.well_formed(),
    {
        proof {
            steps_keep_builds_well_formed(self@, reply);
        }
        match reply {
            BuildReply::Silence(silence) => {
                self.silence = silence;
                self.phase = if self.pids.len() == 1 {
                    BuildPhase::ActivateExclude
                } else {
                    BuildPhase::OpenEndpoint
                };
            },
            BuildReply::Opened(result) => match result {
                Ok(_) => {
                    self.phase = BuildPhase::InitializeCapture;
                },
                Err(e) => {
                    self.fail(invalidated_or_backend(e));
                },
            },
            BuildReply::Activated(result) => match result {
                Ok(_) => {
                    self.phase = match self.phase {
                        BuildPhase::ActivateExclude => BuildPhase::InitializeCapture,
                        _ => BuildPhase::InitializeInclude,
                    };
                },
                Err(e) => match self.phase {
                    BuildPhase::ActivateExclude => {
                        self.fail(e);
                    },
                    _ => {
                        self.pass_include();
                    },
                },
            },
            BuildReply::Initialized(result) => match self.phase {
                BuildPhase::InitializeCapture => match result {
                    Ok(components) => {
                        self.capture = Some(components);
                        self.phase = if self.pids.len() >= 2 {
                            BuildPhase::ActivateInclude
                        } else {
                            BuildPhase::OpenClock
                        };
                    },
                    Err(e) => {
                        self.fail(e);
                    },
                },
                _ => {
                    match result {
                        Ok(components) => {
                            self.includes.push(
                                IncludeCapture { pid: self.pids[self.next], components },
                            );
                        },
                        Err(_) => {},
                    }
                    self.pass_include();
                },
            },
            BuildReply::Clock(result) => match result {
                Ok(_) => {
                    self.phase = BuildPhase::Done;
                },
                Err(e) => {
                    let description: String = join("failed to build audio clock: ", e.as_str());
                    self.fail(
                        BuildStreamError::BackendSpecific {
                            err: BackendSpecificError { description },
                        },
                    );
                },
            },
        }
    }

    /// The stream that was built, or why there is none.
    pub fn finish(self, config: &StreamConfig, sample_format: SampleFormat) -> (result: Result<
        Stream,
        BuildStreamError,
    >)
        requires
            self@.well_formed(),
            self.phase == BuildPhase::Done || self.phase == BuildPhase::Failed,
        ensures
            match self@.error {
                Some(error) => result matches Err(e) && e@ == error,
                None => result matches Ok(stream) && {
                    let captured = self.capture->0;
                    &&& stream.silence == self.silence
                    &&& if self@.subtracts() {
                        stream.source == StreamSource::Subtraction {
                            total: captured,
                            includes: self.includes,
                            sample_format,
                            bytes_per_frame: captured.bytes_per_frame,
                        }
                    } else {
                        stream.source matches StreamSource::Single(inner) && {
                            &&& !inner.playing
                            &&& inner.max_frames_in_buffer == captured.max_frames_in_buffer
                            &&& inner.bytes_per_frame == captured.bytes_per_frame
                            &&& inner.config@ == config@
                            &&& inner.sample_format == sample_format
                        }
                    }
                },
            },
            result is Err <==> self.error is Some,
            result matches Ok(stream) ==> (stream.source is Subtraction <==> self.includes@.len()
                > 0) && stream.silence == self.silence,
    {
        match self.error {
            Some(e) => Err(e),
            None => {
                let captured: CaptureComponents = self.capture.unwrap();
                if self.includes.is_empty() {
                    let inner: StreamInner = StreamInner::new(captured, config, sample_format);
                    Ok(Stream::new_input(inner, self.silence))
                } else {
                    Ok(
                        Stream::new_multi_exclude(
                            captured,
                            self.includes,
                            sample_format,
                            captured.bytes_per_frame,
                            self.silence,
                        ),
                    )
                }
            },
        }
    }
}

impl<C> Device<C> {
    /// Starts to build a stream: finds the processes that the configuration leaves out, and plays
    /// silence unless the endpoint is a Bluetooth one.
    pub fn build_input_stream_raw(
        &self,
        config: &StreamConfig,
        snapshot: &Option<Vec<ProcessEntry>>,
        enumerator_name: &Option<String>,
    ) -> (build: InputStreamBuild)
        ensures
            build@ == BuildView::start(
                tree_roots(
                    snapshot_entries(*snapshot),
                    named_pids(config@, snapshot_entries(*snapshot)),
                ),
                enumerator_name matches Some(name) && name@.map_values(
                    |c: char| ascii_lower(c),
                ) == "BTHENUM"@.map_values(|c: char| ascii_lower(c)),
            ),
            build@.well_formed(),
    {
        let pids: Vec<u32> = resolve_excluded_pids(config, snapshot);
        InputStreamBuild::start(pids, self.is_bluetooth(enumerator_name))
    }
}

// ---------------------------------------------------------------------------
// Laws
// ---------------------------------------------------------------------------

/// A stream that is being built stays well-formed, and each step brings the end nearer.
pub proof fn steps_keep_builds_well_formed(build: BuildView, reply: BuildReply)
    requires
        build.well_formed(),
        reply.answers(build.phase),
    ensures
        build.after(reply).well_formed(),
        0 <= build.after(reply).steps_left() < build.steps_left(),
{
    let next: BuildView = build.after(reply);
    if build.phase == BuildPhase::InitializeInclude {
        assert(build.pids.contains(build.pids[build.next]));
        assert forall|i: int| 0 <= i < next.includes.len() implies next.pids.contains(
            (#[trigger] next.includes[i]).pid,
        ) by {
            if i < build.includes.len() {
                assert(next.includes[i] == build.includes[i]);
            }
        }
    }
}

/// Silence is asked for first, unless the endpoint is a Bluetooth one, where it is never played.
/// What came of it is kept to the end, and that it could not be played is no failure.
pub proof fn silence_is_played_except_on_bluetooth(
    pids: Seq<u32>,
    played: bool,
    build: BuildView,
    reply: BuildReply,
)
    requires
        build.well_formed(),
        reply.answers(build.phase),
    ensures
        BuildView::start(pids, false).action() == BuildAction::CreateSilence,
        BuildView::start(pids, true).action() != BuildAction::CreateSilence,
        !BuildView::start(pids, true).silence && !BuildView::start(pids, false).silence,
        ({
            let next = BuildView::start(pids, false).after(BuildReply::Silence(played));
            next.silence == played && next.error is None && next.action() == BuildView::start(
                pids,
                true,
            ).action() && next.pids == pids
        }),
        BuildView::start(pids, true).pids == pids && BuildView::start(pids, false).pids == pids,
        build.phase != BuildPhase::Silence ==> build.after(reply).silence == build.silence,
        build.after(reply).pids == build.pids,
{
}

/// A stream fails exactly where the endpoint's client cannot be had, where the one that leaves a
/// process tree out cannot be activated, where that client cannot be set up, or where it has no
/// clock; the error is that of the step.
pub proof fn builds_fail_for_the_main_client_only(build: BuildView, reply: BuildReply)
    requires
        build.well_formed(),
        reply.answers(build.phase),
    ensures
        ({
            let next = build.after(reply);
            let failed = next.phase == BuildPhase::Failed;
            &&& failed <==> {
                ||| build.phase == BuildPhase::OpenEndpoint && (reply matches BuildReply::Opened(
                    Err(_),
                ))
                ||| build.phase == BuildPhase::ActivateExclude && (
                reply matches BuildReply::Activated(Err(_)))
                ||| build.phase == BuildPhase::InitializeCapture && (
                reply matches BuildReply::Initialized(Err(_)))
                ||| build.phase == BuildPhase::OpenClock && (reply matches BuildReply::Clock(
                    Err(_),
                ))
            }
            &&& failed <==> next.error is Some
            &&& reply matches BuildReply::Opened(Err(e)) ==> if e.code == -2004287484 {
                next.error == Some(ErrorView::DeviceNotAvailable)
            } else {
                next.error == Some(ErrorView::BackendSpecific(e.message@))
            }
            &&& failed ==> (reply matches BuildReply::Activated(Err(e)) ==> next.error == Some(e@))
            &&& failed ==> (reply matches BuildReply::Initialized(Err(e)) ==> next.error == Some(
                e@,
            ))
            &&& reply matches BuildReply::Clock(Err(e)) ==> next.error == Some(
                ErrorView::BackendSpecific("failed to build audio clock: "@ + e@),
            )
        }),
{
}

/// Where nothing fails the main client is had, then set up, and what it is like is kept. After
/// that the process trees are captured where several are left out; the clock is asked for
/// otherwise, and ends the stream.
pub proof fn main_clients_are_set_up_in_order(build: BuildView, components: CaptureComponents)
    requires
        build.well_formed(),
    ensures
        build.phase == BuildPhase::OpenEndpoint ==> build.after(BuildReply::Opened(Ok(()))).phase
            == BuildPhase::InitializeCapture,
        build.phase == BuildPhase::ActivateExclude ==> build.after(
            BuildReply::Activated(Ok(())),
        ).phase == BuildPhase::InitializeCapture,
        build.phase == BuildPhase::InitializeCapture ==> {
            let next = build.after(BuildReply::Initialized(Ok(components)));
            &&& next.capture == Some(components)
            &&& build.pids.len() >= 2 ==> next.action() == (BuildAction::ActivateProcess {
                pid: build.pids[0],
                mode: PROCESS_LOOPBACK_MODE_INCLUDE_TARGET_PROCESS_TREE,
            })
            &&& build.pids.len() < 2 ==> next.action() == BuildAction::OpenClock
        },
        build.phase == BuildPhase::InitializeInclude ==> {
            let next = build.after(BuildReply::Initialized(Ok(components)));
            &&& next.capture == build.capture
            &&& next.includes == build.includes.push(
                IncludeCapture { pid: build.pids[build.next], components },
            )
            &&& next.next == build.next + 1
        },
        build.phase == BuildPhase::OpenClock ==> build.after(BuildReply::Clock(Ok(()))).phase
            == BuildPhase::Done,
        build.action() matches BuildAction::ActivateProcess { mode, .. } ==> (mode == 0
            <==> build.pids.len() >= 2) && (mode == 1 <==> build.pids.len() == 1),
        build.action() matches BuildAction::Initialize { stream_flags } ==> stream_flags == 0x60000
            || stream_flags == 0x40000,
{
}

/// That the sound of a process tree cannot be captured never makes a stream fail, and takes no
/// other tree with it.
pub proof fn missing_includes_are_passed_over(build: BuildView, error: BuildStreamError)
    requires
        build.well_formed(),
    ensures
        build.phase == BuildPhase::ActivateInclude ==> {
            let next = build.after(BuildReply::Activated(Err(error)));
            next.error is None && next.includes == build.includes && next.capture == build.capture
        },
        build.phase == BuildPhase::InitializeInclude ==> {
            let next = build.after(BuildReply::Initialized(Err(error)));
            next.error is None && next.includes == build.includes && next.capture == build.capture
        },
{
}

/// What a whole sequence of replies leads to.
pub open spec fn build_run(build: BuildView, replies: Seq<BuildReply>) -> BuildView
    decreases replies.len(),
{
    if replies.len() == 0 {
        build
    } else {
        build_run(build, replies.drop_last()).after(replies.last())
    }
}

/// Whether each of the replies is one to what was due when it came.
pub open spec fn answered(build: BuildView, replies: Seq<BuildReply>) -> bool
    decreases replies.len(),
{
    replies.len() > 0 ==> {
        &&& answered(build, replies.drop_last())
        &&& replies.last().answers(build_run(build, replies.drop_last()).phase)
    }
}

/// Every stream is built, or fails, within a number of steps that its start gives.
pub proof fn builds_end(build: BuildView, replies: Seq<BuildReply>)
    requires
        build.well_formed(),
        answered(build, replies),
    ensures
        build_run(build, replies).well_formed(),
        build_run(build, replies).pids == build.pids,
        0 <= build_run(build, replies).steps_left() <= build.steps_left() - replies.len(),
    decreases replies.len(),
{
    if replies.len() > 0 {
        builds_end(build, replies.drop_last());
        steps_keep_builds_well_formed(build_run(build, replies.drop_last()), replies.last());
    }
}

/// How many process trees are left out decides what is captured. With one, its tree is left out
/// where the client is activated, and nothing else is activated. With several, the endpoint is
/// captured and the trees are, each for itself. Only then is anything subtracted.
pub proof fn strategy_follows_the_number_left_out(build: BuildView)
    requires
        build.well_formed(),
    ensures
        build.action() is OpenEndpoint ==> build.pids.len() != 1,
        build.action() matches BuildAction::ActivateProcess { pid, mode } ==> {
            ||| build.pids == seq![pid] && mode == PROCESS_LOOPBACK_MODE_EXCLUDE_TARGET_PROCESS_TREE
            ||| build.pids.len() >= 2 && build.pids.contains(pid) && mode
                == PROCESS_LOOPBACK_MODE_INCLUDE_TARGET_PROCESS_TREE
        },
        build.phase == BuildPhase::ActivateInclude ==> build.action() == (
        BuildAction::ActivateProcess { pid: build.pids[build.next], mode: 0 }),
        build.action() matches BuildAction::Initialize { stream_flags } ==> (stream_flags
            == EVENT_CALLBACK_AND_LOOPBACK <==> build.capture is None && build.pids.len() != 1),
        build.phase == BuildPhase::Done && build.subtracts() ==> build.pids.len() >= 2,
{
    if build.phase == BuildPhase::ActivateExclude {
        assert(build.pids =~= seq![build.pids[0]]);
    }
}

/// Whether a reply reports no failure.
pub open spec fn succeeds(reply: BuildReply) -> bool {
    match reply {
        BuildReply::Silence(_) => true,
        BuildReply::Opened(result) => result is Ok,
        BuildReply::Activated(result) => result is Ok,
        BuildReply::Initialized(result) => result is Ok,
        BuildReply::Clock(result) => result is Ok,
    }
}

/// The processes whose trees are captured.
pub open spec fn included_pids(build: BuildView) -> Seq<u32> {
    build.includes.map_values(|c: IncludeCapture| c.pid)
}

/// Where nothing fails, a stream is built, and one that leaves several process trees out subtracts
/// each of them, once and in the order in which they are given.
pub proof fn successful_builds_subtract_every_tree(
    pids: Seq<u32>,
    bluetooth: bool,
    replies: Seq<BuildReply>,
)
    requires
        answered(BuildView::start(pids, bluetooth), replies),
        forall|i: int| 0 <= i < replies.len() ==> succeeds(#[trigger] replies[i]),
    ensures
        ({
            let build = build_run(BuildView::start(pids, bluetooth), replies);
            &&& build.phase != BuildPhase::Failed
            &&& included_pids(build) == pids.take(build.next)
            &&& build.phase == BuildPhase::Done && pids.len() >= 2 ==> included_pids(build) == pids
            &&& build.phase == BuildPhase::Done && pids.len() < 2 ==> !build.subtracts()
        }),
    decreases replies.len(),
{
    let start: BuildView = BuildView::start(pids, bluetooth);
    let build: BuildView = build_run(start, replies);
    builds_end(start, replies);
    if replies.len() > 0 {
        let before: BuildView = build_run(start, replies.drop_last());
        assert forall|i: int| 0 <= i < replies.drop_last().len() implies succeeds(
            #[trigger] replies.drop_last()[i],
        ) by {
            assert(succeeds(replies[i]));
        }
        assert(succeeds(replies[replies.len() - 1]));
        successful_builds_subtract_every_tree(pids, bluetooth, replies.drop_last());
        builds_end(start, replies.drop_last());
        if before.phase == BuildPhase::InitializeInclude {
            assert(pids.take(before.next + 1) =~= pids.take(before.next).push(pids[before.next]));
            assert(included_pids(build) =~= included_pids(before).push(pids[before.next]));
        }
    }
    assert(included_pids(build) =~= pids.take(build.next));
    assert(pids.take(pids.len() as int) =~= pids);
}

/// Whether the replies report that the client for tree `i` was activated.
pub open spec fn tree_activated(build: BuildView, replies: Seq<BuildReply>, i: int) -> bool
    decreases replies.len(),
{
    replies.len() > 0 && {
        let before = build_run(build, replies.drop_last());
        ||| tree_activated(build, replies.drop_last(), i)
        ||| before.phase == BuildPhase::ActivateInclude && before.next == i && (
        replies.last() matches BuildReply::Activated(Ok(_)))
    }
}

/// Whether the replies report that the client for tree `i` was initialized.
pub open spec fn tree_initialized(build: BuildView, replies: Seq<BuildReply>, i: int) -> bool
    decreases replies.len(),
{
    replies.len() > 0 && {
        let before = build_run(build, replies.drop_last());
        ||| tree_initialized(build, replies.drop_last(), i)
        ||| before.phase == BuildPhase::InitializeInclude && before.next == i && (
        replies.last() matches BuildReply::Initialized(Ok(_)))
    }
}

/// Those of the first `n` processes whose trees are captured: their clients were activated and
/// initialized.
pub open spec fn captured_pids(build: BuildView, replies: Seq<BuildReply>, n: int) -> Seq<u32>
    decreases n,
{
    if n <= 0 {
        seq![]
    } else if tree_activated(build, replies, n - 1) && tree_initialized(build, replies, n - 1) {
        captured_pids(build, replies, n - 1).push(build.pids[n - 1])
    } else {
        captured_pids(build, replies, n - 1)
    }
}

proof fn later_trees_are_untouched(build: BuildView, replies: Seq<BuildReply>, i: int)
    requires
        build.well_formed(),
        build.next == 0,
        build.phase != BuildPhase::InitializeInclude,
        answered(build, replies),
    ensures
        i > build_run(build, replies).next ==> !tree_activated(build, replies, i),
        i >= build_run(build, replies).next ==> !tree_initialized(build, replies, i),
        i == build_run(build, replies).next ==> (tree_activated(build, replies, i) <==> build_run(
            build,
            replies,
        ).phase == BuildPhase::InitializeInclude),
    decreases replies.len(),
{
    if replies.len() > 0 {
        later_trees_are_untouched(build, replies.drop_last(), i);
        builds_end(build, replies.drop_last());
    }
}

proof fn captures_are_kept(build: BuildView, replies: Seq<BuildReply>, n: int)
    requires
        replies.len() > 0,
        n <= build_run(build, replies.drop_last()).next,
    ensures
        captured_pids(build, replies, n) == captured_pids(build, replies.drop_last(), n),
    decreases n,
{
    if n > 0 {
        captures_are_kept(build, replies, n - 1);
    }
}

/// Whatever fails, the trees that are captured are just those whose clients were activated and
/// initialized, each once and in the order in which the processes are given. When all have been
/// tried they are what is subtracted; where there are none, nothing is subtracted, and the clock
/// of the endpoint's client is due before the stream is built.
pub proof fn captured_trees_are_subtracted(
    pids: Seq<u32>,
    bluetooth: bool,
    replies: Seq<BuildReply>,
)
    requires
        answered(BuildView::start(pids, bluetooth), replies),
    ensures
        ({
            let start = BuildView::start(pids, bluetooth);
            let build = build_run(start, replies);
            let captured = captured_pids(start, replies, pids.len() as int);
            &&& included_pids(build) == captured
            &&& build.subtracts() <==> captured.len() > 0
            &&& pids.len() >= 2 && build.next == pids.len() && captured.len() > 0 ==> build.phase
                == BuildPhase::Done
            &&& pids.len() >= 2 && build.next == pids.len() && captured.len() == 0 ==> {
                ||| build.phase == BuildPhase::OpenClock
                ||| replies.len() > 0 && replies.last() is Clock && build_run(
                    start,
                    replies.drop_last(),
                ).phase == BuildPhase::OpenClock
            }
        }),
{
    let start: BuildView = BuildView::start(pids, bluetooth);
    let build: BuildView = build_run(start, replies);
    builds_end(start, replies);
    captures_up_to_next(pids, bluetooth, replies);
    captures_end_at_next(start, replies, pids.len() as int);
    assert(included_pids(build).len() == build.includes.len());
    if replies.len() > 0 {
        builds_end(start, replies.drop_last());
    }
}

proof fn captures_end_at_next(build: BuildView, replies: Seq<BuildReply>, n: int)
    requires
        build.well_formed(),
        build.next == 0,
        build.phase != BuildPhase::InitializeInclude,
        answered(build, replies),
        n >= build_run(build, replies).next,
    ensures
        captured_pids(build, replies, n) == captured_pids(
            build,
            replies,
            build_run(build, replies).next,
        ),
    decreases n,
{
    builds_end(build, replies);
    if n > build_run(build, replies).next {
        later_trees_are_untouched(build, replies, n - 1);
        captures_end_at_next(build, replies, n - 1);
    }
}

proof fn captures_up_to_next(pids: Seq<u32>, bluetooth: bool, replies: Seq<BuildReply>)
    requires
        answered(BuildView::start(pids, bluetooth), replies),
    ensures
        included_pids(build_run(BuildView::start(pids, bluetooth), replies)) == captured_pids(
            BuildView::start(pids, bluetooth),
            replies,
            build_run(BuildView::start(pids, bluetooth), replies).next,
        ),
    decreases replies.len(),
{
    let start: BuildView = BuildView::start(pids, bluetooth);
    let build: BuildView = build_run(start, replies);
    if replies.len() > 0 {
        let before: BuildView = build_run(start, replies.drop_last());
        builds_end(start, replies.drop_last());
        captures_up_to_next(pids, bluetooth, replies.drop_last());
        captures_are_kept(start, replies, before.next);
        later_trees_are_untouched(start, replies.drop_last(), before.next);
        if build.next == before.next {
            assert(build.includes == before.includes);
        } else {
            assert(build.next == before.next + 1);
            if build.includes.len() > before.includes.len() {
                assert(included_pids(build) =~= included_pids(before).push(pids[before.next]));
            } else {
                assert(included_pids(build) =~= included_pids(before));
            }
        }
    } else {
        assert(included_pids(build) =~= seq![]);
    }
}

} // verus!
