//! The inbound queue: what is done for each entry.

use vstd::prelude::*;

use crate::flow_engine::admission::{
    admission_start, process_incoming_message, Admission, AdmissionAction, AdmissionActionView,
    AdmissionView,
};
use crate::models::payloads::{IncomingMessage, IncomingMessageView};

verus! {

/// The stream that events arrive on.
pub const INCOMING_STREAM: &'static str = "agentic:queue:incoming";

/// The consumer group under which the core reads the inbound stream.
pub const CONSUMER_GROUP: &'static str = "agentic_core_group";

/// The name of the one consumer of a process.
pub const CONSUMER_NAME: &'static str = "core_worker_1";

/// The field of an entry that holds its payload, on both streams.
pub const PAYLOAD_FIELD: &'static str = "payload";

/// For how many milliseconds at most one read of the inbound stream blocks.
pub const READ_BLOCK_MS: u64 = 5000;

/// How many entries at most one read of the inbound stream takes.
pub const READ_COUNT: u64 = 10;

/// For how many milliseconds the reader rests after a read that failed.
pub const READ_RETRY_MS: u64 = 1000;

/// The order that goes into the record of a step that is processed out of
/// turn.
pub const UNSCHEDULED_STEP_ORDER: i32 = -1;

/// What an entry of the inbound queue sets off.
#[derive(Debug, PartialEq, Eq)]
pub enum Work {
    /// An admission, with its first action.
    Admission { state: Admission, action: AdmissionAction },
    /// The processing of one step, out of turn.
    Step { execution_id: String, step_id: String, step_order: i32 },
}

/// The mathematical value of a `Work`.
pub enum WorkView {
    Admission { state: AdmissionView, action: AdmissionActionView },
    Step { execution_id: Seq<char>, step_id: Seq<char>, step_order: int },
}

impl View for Work {
    type V = WorkView;

    open spec fn view(&self) -> WorkView {
        match self {
            Work::Admission { state, action } => WorkView::Admission {
                state: state@,
                action: action@,
            },
            Work::Step { execution_id, step_id, step_order } => WorkView::Step {
                execution_id: execution_id@,
                step_id: step_id@,
                step_order: *step_order as int,
            },
        }
    }
}

/// What `message` sets off: a chat message starts an admission on its text,
/// the empty text where it has none; a request for a step has that step
/// processed under the order minus one.
pub open spec fn work_for(message: IncomingMessageView) -> WorkView {
    match message {
        IncomingMessageView::NewMessage {
            bot_id,
            session_id,
            identifier,
            platform,
            from_me,
            sender,
            message,
        } => {
            let content = match message.text {
                Some(text) => text,
                None => Seq::empty(),
            };
            let (state, action) = admission_start(bot_id, session_id, from_me, sender, content);
            WorkView::Admission { state, action }
        },
        IncomingMessageView::ExecuteStep { execution_id, step_id } => WorkView::Step {
            execution_id,
            step_id,
            step_order: UNSCHEDULED_STEP_ORDER as int,
        },
    }
}

/// Turns an entry of the inbound queue into the work it sets off.
pub fn dispatch(message: IncomingMessage) -> (work: Work)
    ensures
        work@ == work_for(message@),
{
    match message {
        IncomingMessage::NewMessage {
            bot_id,
            session_id,
            identifier,
            platform,
            from_me,
            sender,
            message,
        } => {
            let content = match message.text {
                Some(text) => text,
                None => String::new(),
            };
            let (state, action) = process_incoming_message(
                bot_id.as_str(),
                session_id.as_str(),
                identifier.as_str(),
                from_me,
                sender.as_str(),
                content.as_str(),
            );
            Work::Admission { state, action }
        },
        IncomingMessage::ExecuteStep { execution_id, step_id } => Work::Step {
            execution_id,
            step_id,
            step_order: UNSCHEDULED_STEP_ORDER,
        },
    }
}

} // verus!
