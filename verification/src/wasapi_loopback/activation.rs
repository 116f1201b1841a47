//! Activation of an audio client for the sound of one process tree.

use vstd::prelude::*;
use vstd::string::*;

use crate::text::{decimal, decimal_text, join, join3};
use crate::types::{BackendSpecificError, BuildStreamError, ErrorView};
use crate::wasapi_loopback::error::WindowsError;

verus! {

/// Process loopback is what is to be activated.
pub const ACTIVATION_TYPE_PROCESS_LOOPBACK: u32 = 1;

/// Capture only what the process tree plays.
pub const PROCESS_LOOPBACK_MODE_INCLUDE_TARGET_PROCESS_TREE: u32 = 0;

/// Capture all but what the process tree plays.
pub const PROCESS_LOOPBACK_MODE_EXCLUDE_TARGET_PROCESS_TREE: u32 = 1;

/// A null pointer came where an interface was due: `E_POINTER`, `0x80004003`.
pub const NULL_POINTER: i32 = -2147467261;

/// Which process tree is captured, and how.
#[derive(Clone, Copy, Debug, PartialEq, Eq, Structural)]
pub struct AudioClientProcessLoopbackParams {
    pub target_process_id: u32,
    pub process_loopback_mode: u32,
}

/// What an activation asks for.
#[derive(Clone, Copy, Debug, PartialEq, Eq, Structural)]
pub struct AudioClientActivationParams {
    pub activation_type: u32,
    pub process_loopback_params: AudioClientProcessLoopbackParams,
}

/// What the activation for a process tree asks for.
pub fn activation_params(target_pid: u32, process_loopback_mode: u32) -> (params:
    AudioClientActivationParams)
    ensures
        params == (AudioClientActivationParams {
            activation_type: ACTIVATION_TYPE_PROCESS_LOOPBACK,
            process_loopback_params: AudioClientProcessLoopbackParams {
                target_process_id: target_pid,
                process_loopback_mode,
            },
        }),
{
    AudioClientActivationParams {
        activation_type: ACTIVATION_TYPE_PROCESS_LOOPBACK,
        process_loopback_params: AudioClientProcessLoopbackParams {
            target_process_id: target_pid,
            process_loopback_mode,
        },
    }
}

/// The path of the virtual device of process loopback, as NUL-terminated UTF-16 units.
pub fn process_loopback_device_path() -> (units: Vec<u16>)
    ensures
        units@ == "VAD\\Process_Loopback"@.map_values(|c: char| c as u16).push(0u16),
{
    let path: &str = "VAD\\Process_Loopback";
    let len: usize = path.unicode_len();
    let mut units: Vec<u16> = Vec::new();
    let mut i: usize = 0;
    while i < len
        invariant
            i <= len,
            len == path@.len(),
            units@.len() == i,
            forall|j: int| 0 <= j < i ==> #[trigger] units@[j] == path@[j] as u16,
        decreases len - i,
    {
        units.push(path.get_char(i) as u16);
        i = i + 1;
    }
    units.push(0);
    proof {
        assert(units@ =~= path@.map_values(|c: char| c as u16).push(0u16));
    }
    units
}

/// What came of an activation.
pub enum ActivationReply {
    /// It could not be started.
    NotStarted { error: String },
    /// It did not complete in time.
    TimedOut,
    /// It completed without a client.
    Failed { error: String },
    Activated,
}

/// The words for an activation that failed.
pub open spec fn activation_failure(target_pid: u32, reply: ActivationReply) -> Option<Seq<char>> {
    match reply {
        ActivationReply::NotStarted { error } => Some(
            "ActivateAudioInterfaceAsync failed (process loopback for PID "@ + decimal(
                target_pid as nat,
            ) + "): "@ + error@,
        ),
        ActivationReply::TimedOut => Some(
            "ActivateAudioInterfaceAsync timed out for PID "@ + decimal(target_pid as nat),
        ),
        ActivationReply::Failed { error } => Some(
            "ActivateAudioInterfaceAsync failed for PID "@ + decimal(target_pid as nat) + ": "@
                + error@,
        ),
        ActivationReply::Activated => None,
    }
}

/// What the activation of an audio client for a process tree comes to.
pub fn activate_process_loopback_audio_client(target_pid: u32, reply: ActivationReply) -> (result:
    Result<(), BuildStreamError>)
    ensures
        match activation_failure(target_pid, reply) {
            Some(description) => result matches Err(e) && e@ == ErrorView::BackendSpecific(
                description,
            ),
            None => result is Ok,
        },
        result is Ok <==> reply is Activated,
        reply matches ActivationReply::NotStarted { error } ==> (result matches Err(e) && e@
            == ErrorView::BackendSpecific(
            "ActivateAudioInterfaceAsync failed (process loopback for PID "@ + decimal(
                target_pid as nat,
            ) + "): "@ + error@,
        )),
        reply is TimedOut ==> (result matches Err(e) && e@ == ErrorView::BackendSpecific(
            "ActivateAudioInterfaceAsync timed out for PID "@ + decimal(target_pid as nat),
        )),
        reply matches ActivationReply::Failed { error } ==> (result matches Err(e) && e@
            == ErrorView::BackendSpecific(
            "ActivateAudioInterfaceAsync failed for PID "@ + decimal(target_pid as nat) + ": "@
                + error@,
        )),
{
    let pid: String = decimal_text(target_pid);
    let description: String = match reply {
        ActivationReply::NotStarted { error } => {
            let start: String = join3(
                "ActivateAudioInterfaceAsync failed (process loopback for PID ",
                pid.as_str(),
                "): ",
            );
            join(start.as_str(), error.as_str())
        },
        ActivationReply::TimedOut => join(
            "ActivateAudioInterfaceAsync timed out for PID ",
            pid.as_str(),
        ),
        ActivationReply::Failed { error } => {
            let start: String = join3(
                "ActivateAudioInterfaceAsync failed for PID ",
                pid.as_str(),
                ": ",
            );
            join(start.as_str(), error.as_str())
        },
        ActivationReply::Activated => {
            return Ok(());
        },
    };
    Err(BuildStreamError::BackendSpecific { err: BackendSpecificError { description } })
}

/// What the system hands to the completion handler of an activation.
pub enum CompletionOutcome {
    /// The result could not be read.
    Unreadable(WindowsError),
    /// The result is a failure.
    Refused(WindowsError),
    /// The result is a null pointer.
    NoInterface,
    /// The result is an interface, which is an audio client or is not.
    Interface(Result<(), WindowsError>),
}

/// The completion handler of an activation. It has one message to send.
pub struct ActivationCompletionHandler {
    pub pending: bool,
}

/// What a completion has to say: that there is a client, or why there is none.
pub open spec fn completion_message(outcome: CompletionOutcome) -> Result<(), (i32, Seq<char>)> {
    match outcome {
        CompletionOutcome::Unreadable(e) => Err((e.code, e.message@)),
        CompletionOutcome::Refused(e) => Err((e.code, e.message@)),
        CompletionOutcome::NoInterface => Err(
            (NULL_POINTER, "ActivateAudioInterfaceAsync returned null interface (0x80004003)"@),
        ),
        CompletionOutcome::Interface(Ok(_)) => Ok(()),
        CompletionOutcome::Interface(Err(e)) => Err((e.code, e.message@)),
    }
}

/// What a message says.
pub open spec fn message_view(message: Option<Result<(), WindowsError>>) -> Option<
    Result<(), (i32, Seq<char>)>,
> {
    match message {
        None => None,
        Some(Ok(_)) => Some(Ok(())),
        Some(Err(e)) => Some(Err((e.code, e.message@))),
    }
}

impl ActivationCompletionHandler {
    /// A handler that has not sent its message.
    pub fn new() -> (handler: Self)
        ensures
            handler.pending,
    {
        ActivationCompletionHandler { pending: true }
    }

    /// The message to send. The first completion is answered, whatever came of it; there is
    /// nothing to send after that.
    pub fn activate_completed(&mut self, outcome: CompletionOutcome) -> (message: Option<
        Result<(), WindowsError>,
    >)
        ensures
            message_view(message) == if old(self).pending {
                Some(completion_message(outcome))
            } else {
                None
            },
            !final(self).pending,
            message is Some <==> old(self).pending,
            message matches Some(Ok(_)) <==> old(self).pending && (
            outcome matches CompletionOutcome::Interface(Ok(_))),
            message matches Some(Err(e)) ==> {
                &&& outcome matches CompletionOutcome::Unreadable(cause) ==> e.code == cause.code
                    && e.message@ == cause.message@
                &&& outcome matches CompletionOutcome::Refused(cause) ==> e.code == cause.code
                    && e.message@ == cause.message@
                &&& outcome matches CompletionOutcome::Interface(Err(cause)) ==> e.code
                    == cause.code && e.message@ == cause.message@
                &&& outcome is NoInterface ==> e.code == -2147467261 && e.message@
                    == "ActivateAudioInterfaceAsync returned null interface (0x80004003)"@
            },
    {
        if !self.pending {
            return None;
        }
        self.pending = false;
        let message: Result<(), WindowsError> = match outcome {
            CompletionOutcome::Unreadable(e) => Err(e),
            CompletionOutcome::Refused(e) => Err(e),
            CompletionOutcome::NoInterface => Err(
                WindowsError {
                    code: NULL_POINTER,
                    message:
                        "ActivateAudioInterfaceAsync returned null interface (0x80004003)".to_owned(),
                },
            ),
            CompletionOutcome::Interface(result) => result,
        };
        Some(message)
    }
}

} // verus!
