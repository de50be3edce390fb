//! The values that pass through the pipeline, each with its mathematical view.

use vstd::prelude::*;

verus! {

/// One message as the session layer delivers it.
#[derive(Clone, Debug, PartialEq, Eq)]
pub struct InboundMessage {
    /// The author is a bot or another automated account.
    pub author_is_automated: bool,
    /// The text of the message.
    pub body: String,
    /// The channel the message was posted in.
    pub channel_id: u64,
    /// The message's own identifier.
    pub message_id: u64,
}

/// What an [`InboundMessage`] is, to the contracts.
pub ghost struct InboundMessageView {
    pub author_is_automated: bool,
    pub body: Seq<char>,
    pub channel_id: u64,
    pub message_id: u64,
}

impl View for InboundMessage {
    type V = InboundMessageView;

    open spec fn view(&self) -> InboundMessageView {
        InboundMessageView {
            author_is_automated: self.author_is_automated,
            body: self.body@,
            channel_id: self.channel_id,
            message_id: self.message_id,
        }
    }
}

/// What the recognizer found in one message body.
#[derive(Clone, Debug, PartialEq, Eq)]
pub struct CommandMatch {
    /// The label written between the quotes, where the command gave one.
    pub explicit_label: Option<String>,
    /// The body is a command.
    pub matched: bool,
}

/// What a [`CommandMatch`] is, to the contracts.
pub ghost struct CommandMatchView {
    pub explicit_label: Option<Seq<char>>,
    pub matched: bool,
}

impl View for CommandMatch {
    type V = CommandMatchView;

    open spec fn view(&self) -> CommandMatchView {
        CommandMatchView {
            explicit_label: match self.explicit_label {
                Some(label) => Some(label@),
                None => None,
            },
            matched: self.matched,
        }
    }
}

impl CommandMatchView {
    /// Only a body that is a command carries a label.
    pub open spec fn wf(self) -> bool {
        self.explicit_label is Some ==> self.matched
    }
}

/// The one thing the pipeline asks of the outside world: open a thread named
/// `label` in `channel_id`, anchored to the message `anchor_message_id`.
#[derive(Clone, Debug, PartialEq, Eq)]
pub struct ActionRequest {
    pub channel_id: u64,
    pub anchor_message_id: u64,
    pub label: String,
}

/// What an [`ActionRequest`] is, to the contracts.
pub ghost struct ActionRequestView {
    pub channel_id: u64,
    pub anchor_message_id: u64,
    pub label: Seq<char>,
}

impl View for ActionRequest {
    type V = ActionRequestView;

    open spec fn view(&self) -> ActionRequestView {
        ActionRequestView {
            channel_id: self.channel_id,
            anchor_message_id: self.anchor_message_id,
            label: self.label@,
        }
    }
}

} // verus!
