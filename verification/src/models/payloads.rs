//! What arrives on the inbound queue.

use vstd::prelude::*;

verus! {

/// The body of a chat message. Only its text is looked at.
#[derive(Debug, PartialEq, Eq)]
pub struct MessageContent {
    pub text: Option<String>,
}

/// The mathematical value of a `MessageContent`.
pub struct MessageContentView {
    pub text: Option<Seq<char>>,
}

impl View for MessageContent {
    type V = MessageContentView;

    open spec fn view(&self) -> MessageContentView {
        MessageContentView { text: self.text.deep_view() }
    }
}

/// One entry of the inbound queue.
#[derive(Debug, PartialEq, Eq)]
pub enum IncomingMessage {
    /// A chat message was seen on a session.
    NewMessage {
        bot_id: String,
        session_id: String,
        identifier: String,
        platform: String,
        from_me: bool,
        sender: String,
        message: MessageContent,
    },
    /// One step of an execution is to be processed out of turn.
    ExecuteStep { execution_id: String, step_id: String },
}

/// The mathematical value of an `IncomingMessage`.
pub enum IncomingMessageView {
    NewMessage {
        bot_id: Seq<char>,
        session_id: Seq<char>,
        identifier: Seq<char>,
        platform: Seq<char>,
        from_me: bool,
        sender: Seq<char>,
        message: MessageContentView,
    },
    ExecuteStep { execution_id: Seq<char>, step_id: Seq<char> },
}

impl View for IncomingMessage {
    type V = IncomingMessageView;

    open spec fn view(&self) -> IncomingMessageView {
        match self {
            IncomingMessage::NewMessage {
                bot_id,
                session_id,
                identifier,
                platform,
                from_me,
                sender,
                message,
            } => IncomingMessageView::NewMessage {
                bot_id: bot_id@,
                session_id: session_id@,
                identifier: identifier@,
                platform: platform@,
                from_me: *from_me,
                sender: sender@,
                message: message@,
            },
            IncomingMessage::ExecuteStep {
                execution_id,
                step_id,
            } => IncomingMessageView::ExecuteStep {
                execution_id: execution_id@,
                step_id: step_id@,
            },
        }
    }
}

} // verus!
