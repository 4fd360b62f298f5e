//! The branches of a time-conditional step, and the record a step puts on the
//! outbound queue.

use vstd::prelude::*;

use crate::models::db::copy_optional_text;

verus! {

/// One window of the day with what is sent inside it. Both ends are written
/// `HH:MM` on a 24-hour clock. `branch_type` is one of `TEXT`, `IMAGE` and
/// `AUDIO`; a branch of another type sends nothing.
#[derive(Debug, PartialEq, Eq)]
pub struct TimeBranch {
    pub start_time: String,
    pub end_time: String,
    pub branch_type: String,
    pub content: Option<String>,
    pub media_url: Option<String>,
}

/// The mathematical value of a `TimeBranch`.
pub struct TimeBranchView {
    pub start_time: Seq<char>,
    pub end_time: Seq<char>,
    pub branch_type: Seq<char>,
    pub content: Option<Seq<char>>,
    pub media_url: Option<Seq<char>>,
}

impl View for TimeBranch {
    type V = TimeBranchView;

    open spec fn view(&self) -> TimeBranchView {
        TimeBranchView {
            start_time: self.start_time@,
            end_time: self.end_time@,
            branch_type: self.branch_type@,
            content: self.content.deep_view(),
            media_url: self.media_url.deep_view(),
        }
    }
}

impl DeepView for TimeBranch {
    type V = TimeBranchView;

    open spec fn deep_view(&self) -> TimeBranchView {
        self@
    }
}

impl Clone for TimeBranch {
    fn clone(&self) -> (copy: Self)
        ensures
            copy@ == self@,
    {
        TimeBranch {
            start_time: self.start_time.clone(),
            end_time: self.end_time.clone(),
            branch_type: self.branch_type.clone(),
            content: copy_optional_text(&self.content),
            media_url: copy_optional_text(&self.media_url),
        }
    }
}

/// What is sent when no window holds the current time.
#[derive(Debug, PartialEq, Eq)]
pub struct FallbackBranch {
    pub branch_type: String,
    pub content: Option<String>,
    pub media_url: Option<String>,
}

/// The mathematical value of a `FallbackBranch`.
pub struct FallbackBranchView {
    pub branch_type: Seq<char>,
    pub content: Option<Seq<char>>,
    pub media_url: Option<Seq<char>>,
}

impl View for FallbackBranch {
    type V = FallbackBranchView;

    open spec fn view(&self) -> FallbackBranchView {
        FallbackBranchView {
            branch_type: self.branch_type@,
            content: self.content.deep_view(),
            media_url: self.media_url.deep_view(),
        }
    }
}

impl DeepView for FallbackBranch {
    type V = FallbackBranchView;

    open spec fn deep_view(&self) -> FallbackBranchView {
        self@
    }
}

impl Clone for FallbackBranch {
    fn clone(&self) -> (copy: Self)
        ensures
            copy@ == self@,
    {
        FallbackBranch {
            branch_type: self.branch_type.clone(),
            content: copy_optional_text(&self.content),
            media_url: copy_optional_text(&self.media_url),
        }
    }
}

/// The metadata of a time-conditional step: windows in the order in which
/// they are tried, and an optional fallback.
#[derive(Debug, PartialEq, Eq)]
pub struct ConditionalTimeMetadata {
    pub branches: Vec<TimeBranch>,
    pub fallback: Option<FallbackBranch>,
}

/// The mathematical value of a `ConditionalTimeMetadata`.
pub struct ConditionalTimeMetadataView {
    pub branches: Seq<TimeBranchView>,
    pub fallback: Option<FallbackBranchView>,
}

impl View for ConditionalTimeMetadata {
    type V = ConditionalTimeMetadataView;

    open spec fn view(&self) -> ConditionalTimeMetadataView {
        ConditionalTimeMetadataView {
            branches: self.branches.deep_view(),
            fallback: self.fallback.deep_view(),
        }
    }
}

impl DeepView for ConditionalTimeMetadata {
    type V = ConditionalTimeMetadataView;

    open spec fn deep_view(&self) -> ConditionalTimeMetadataView {
        self@
    }
}

impl Clone for ConditionalTimeMetadata {
    fn clone(&self) -> (copy: Self)
        ensures
            copy@ == self@,
    {
        let mut branches: Vec<TimeBranch> = Vec::new();
        let mut i: usize = 0;
        while i < self.branches.len()
            invariant
                i <= self.branches.len(),
                branches.len() == i,
                forall|k: int| 0 <= k < i ==> branches[k]@ == self.branches[k]@,
            decreases self.branches.len() - i,
        {
            branches.push(self.branches[i].clone());
            i += 1;
        }
        assert(branches.deep_view() =~= self.branches.deep_view());
        ConditionalTimeMetadata {
            branches,
            fallback: match &self.fallback {
                Some(f) => Some(f.clone()),
                None => None,
            },
        }
    }
}

/// A piece of media by its address.
#[derive(Debug, PartialEq, Eq)]
pub struct MediaPayload {
    pub url: String,
}

/// The mathematical value of a `MediaPayload`.
pub struct MediaPayloadView {
    pub url: Seq<char>,
}

impl View for MediaPayload {
    type V = MediaPayloadView;

    open spec fn view(&self) -> MediaPayloadView {
        MediaPayloadView { url: self.url@ }
    }
}

impl DeepView for MediaPayload {
    type V = MediaPayloadView;

    open spec fn deep_view(&self) -> MediaPayloadView {
        self@
    }
}

/// What a step asks the platform adapter to send. A payload with none of
/// `text`, `image` and `audio` is not put on the queue.
#[derive(Debug, PartialEq, Eq)]
pub struct OutgoingPayload {
    pub text: Option<String>,
    pub image: Option<MediaPayload>,
    pub audio: Option<MediaPayload>,
    pub caption: Option<String>,
    pub ptt: Option<bool>,
}

/// The mathematical value of an `OutgoingPayload`.
pub struct OutgoingPayloadView {
    pub text: Option<Seq<char>>,
    pub image: Option<MediaPayloadView>,
    pub audio: Option<MediaPayloadView>,
    pub caption: Option<Seq<char>>,
    pub ptt: Option<bool>,
}

impl View for OutgoingPayload {
    type V = OutgoingPayloadView;

    open spec fn view(&self) -> OutgoingPayloadView {
        OutgoingPayloadView {
            text: self.text.deep_view(),
            image: self.image.deep_view(),
            audio: self.audio.deep_view(),
            caption: self.caption.deep_view(),
            ptt: self.ptt,
        }
    }
}

impl OutgoingPayloadView {
    /// The payload that sends nothing.
    pub open spec fn empty() -> OutgoingPayloadView {
        OutgoingPayloadView { text: None, image: None, audio: None, caption: None, ptt: None }
    }

    /// Whether there is anything to put on the queue.
    pub open spec fn has_content(self) -> bool {
        self.text is Some || self.image is Some || self.audio is Some
    }
}

impl OutgoingPayload {
    /// The payload that sends nothing.
    pub fn empty() -> (payload: OutgoingPayload)
        ensures
            payload@ == OutgoingPayloadView::empty(),
    {
        OutgoingPayload { text: None, image: None, audio: None, caption: None, ptt: None }
    }

    /// Whether there is anything to put on the queue.
    pub fn has_content(&self) -> (some: bool)
        ensures
            some == self@.has_content(),
    {
        self.text.is_some() || self.image.is_some() || self.audio.is_some()
    }
}

/// One record of the outbound queue. `execution_id` and `step_order` let a
/// consumer recognise a record it has seen before.
#[derive(Debug, PartialEq, Eq)]
pub struct OutgoingMessage {
    pub bot_id: String,
    pub target: String,
    pub execution_id: String,
    pub step_order: i32,
    pub payload: OutgoingPayload,
}

/// The mathematical value of an `OutgoingMessage`.
pub struct OutgoingMessageView {
    pub bot_id: Seq<char>,
    pub target: Seq<char>,
    pub execution_id: Seq<char>,
    pub step_order: int,
    pub payload: OutgoingPayloadView,
}

impl View for OutgoingMessage {
    type V = OutgoingMessageView;

    open spec fn view(&self) -> OutgoingMessageView {
        OutgoingMessageView {
            bot_id: self.bot_id@,
            target: self.target@,
            execution_id: self.execution_id@,
            step_order: self.step_order as int,
            payload: self.payload@,
        }
    }
}

impl DeepView for OutgoingMessage {
    type V = OutgoingMessageView;

    open spec fn deep_view(&self) -> OutgoingMessageView {
        self@
    }
}

} // verus!
