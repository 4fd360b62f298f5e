//! Rows of the relational store, with the mathematical view of each.

use vstd::prelude::*;

use crate::models::conditionals::ConditionalTimeMetadata;
use crate::models::conditionals::ConditionalTimeMetadataView;
use crate::text::same_text;

verus! {

/// What a step sends, or how it branches.
#[allow(non_camel_case_types)]
#[derive(Debug, Clone, Copy, PartialEq, Eq, Structural)]
pub enum StepType {
    TEXT,
    IMAGE,
    AUDIO,
    VIDEO,
    DOCUMENT,
    PTT,
    CONDITIONAL_TIME,
}

impl StepType {
    /// The name of the variant as the store spells it.
    pub open spec fn name(self) -> Seq<char> {
        match self {
            StepType::TEXT => "TEXT"@,
            StepType::IMAGE => "IMAGE"@,
            StepType::AUDIO => "AUDIO"@,
            StepType::VIDEO => "VIDEO"@,
            StepType::DOCUMENT => "DOCUMENT"@,
            StepType::PTT => "PTT"@,
            StepType::CONDITIONAL_TIME => "CONDITIONAL_TIME"@,
        }
    }

    pub fn as_str(&self) -> (s: &'static str)
        ensures
            s@ == self.name(),
    {
        match self {
            StepType::TEXT => "TEXT",
            StepType::IMAGE => "IMAGE",
            StepType::AUDIO => "AUDIO",
            StepType::VIDEO => "VIDEO",
            StepType::DOCUMENT => "DOCUMENT",
            StepType::PTT => "PTT",
            StepType::CONDITIONAL_TIME => "CONDITIONAL_TIME",
        }
    }
}

/// How a trigger's keyword is held against the text of an event.
#[derive(Debug, Clone, Copy, PartialEq, Eq, Structural)]
pub enum MatchType {
    EXACT,
    CONTAINS,
    REGEX,
}

impl MatchType {
    /// The name of the variant as the store spells it.
    pub open spec fn name(self) -> Seq<char> {
        match self {
            MatchType::EXACT => "EXACT"@,
            MatchType::CONTAINS => "CONTAINS"@,
            MatchType::REGEX => "REGEX"@,
        }
    }

    pub fn as_str(&self) -> (s: &'static str)
        ensures
            s@ == self.name(),
    {
        match self {
            MatchType::EXACT => "EXACT",
            MatchType::CONTAINS => "CONTAINS",
            MatchType::REGEX => "REGEX",
        }
    }
}

/// The direction of the events a trigger listens to.
#[derive(Debug, Clone, Copy, PartialEq, Eq, Structural)]
pub enum TriggerScope {
    INCOMING,
    OUTGOING,
    BOTH,
}

/// The chat platform a session lives on.
#[derive(Debug, Clone, Copy, PartialEq, Eq, Structural)]
pub enum Platform {
    WHATSAPP,
    TELEGRAM,
}

impl Platform {
    /// The name of the variant as the store spells it.
    pub open spec fn name(self) -> Seq<char> {
        match self {
            Platform::WHATSAPP => "WHATSAPP"@,
            Platform::TELEGRAM => "TELEGRAM"@,
        }
    }

    pub fn as_str(&self) -> (s: &'static str)
        ensures
            s@ == self.name(),
    {
        match self {
            Platform::WHATSAPP => "WHATSAPP",
            Platform::TELEGRAM => "TELEGRAM",
        }
    }
}

/// The connection state of a session.
#[derive(Debug, Clone, Copy, PartialEq, Eq, Structural)]
pub enum SessionStatus {
    CONNECTED,
    DISCONNECTED,
    AUTHENTICATING,
    FAILED,
}

/// Copies an optional text.
pub fn copy_optional_text(text: &Option<String>) -> (copy: Option<String>)
    ensures
        copy == *text,
{
    match text {
        Some(s) => Some(s.clone()),
        None => None,
    }
}

/// Copies a list of texts.
pub fn copy_texts(texts: &Vec<String>) -> (copy: Vec<String>)
    ensures
        copy.deep_view() == texts.deep_view(),
{
    let mut copy: Vec<String> = Vec::new();
    let mut i: usize = 0;
    while i < texts.len()
        invariant
            i <= texts.len(),
            copy.len() == i,
            forall|k: int| 0 <= k < i ==> copy[k]@ == texts[k]@,
        decreases texts.len() - i,
    {
        copy.push(texts[i].clone());
        i += 1;
    }
    assert(copy.deep_view() =~= texts.deep_view());
    copy
}

/// One scripted action of a flow. Steps of a flow are told apart by `order`.
/// Times are milliseconds since the Unix epoch.
#[derive(Debug, PartialEq, Eq)]
pub struct Step {
    pub id: String,
    pub flow_id: String,
    pub step_type: StepType,
    pub content: Option<String>,
    pub media_url: Option<String>,
    pub metadata: Option<ConditionalTimeMetadata>,
    pub delay_ms: i32,
    pub jitter_pct: i32,
    pub order: i32,
    pub created_at: i64,
    pub updated_at: i64,
}

/// The mathematical value of a `Step`.
pub struct StepView {
    pub id: Seq<char>,
    pub flow_id: Seq<char>,
    pub step_type: StepType,
    pub content: Option<Seq<char>>,
    pub media_url: Option<Seq<char>>,
    pub metadata: Option<ConditionalTimeMetadataView>,
    pub delay_ms: int,
    pub jitter_pct: int,
    pub order: int,
    pub created_at: int,
    pub updated_at: int,
}

impl View for Step {
    type V = StepView;

    open spec fn view(&self) -> StepView {
        StepView {
            id: self.id@,
            flow_id: self.flow_id@,
            step_type: self.step_type,
            content: self.content.deep_view(),
            media_url: self.media_url.deep_view(),
            metadata: self.metadata.deep_view(),
            delay_ms: self.delay_ms as int,
            jitter_pct: self.jitter_pct as int,
            order: self.order as int,
            created_at: self.created_at as int,
            updated_at: self.updated_at as int,
        }
    }
}

impl DeepView for Step {
    type V = StepView;

    open spec fn deep_view(&self) -> StepView {
        self@
    }
}

impl Clone for Step {
    fn clone(&self) -> (copy: Self)
        ensures
            copy@ == self@,
    {
        Step {
            id: self.id.clone(),
            flow_id: self.flow_id.clone(),
            step_type: self.step_type,
            content: copy_optional_text(&self.content),
            media_url: copy_optional_text(&self.media_url),
            metadata: match &self.metadata {
                Some(m) => Some(m.clone()),
                None => None,
            },
            delay_ms: self.delay_ms,
            jitter_pct: self.jitter_pct,
            order: self.order,
            created_at: self.created_at,
            updated_at: self.updated_at,
        }
    }
}

/// One run of a flow for a session and a counterparty. `current_step` is the
/// order of the step that is dispatched next.
#[derive(Debug, PartialEq, Eq)]
pub struct Execution {
    pub id: String,
    pub session_id: String,
    pub flow_id: String,
    pub platform_user_id: String,
    pub status: String,
    pub current_step: i32,
    pub variable_context: Option<String>,
    pub started_at: i64,
    pub updated_at: i64,
    pub completed_at: Option<i64>,
    pub error: Option<String>,
    pub trigger: Option<String>,
}

/// The mathematical value of an `Execution`.
pub struct ExecutionView {
    pub id: Seq<char>,
    pub session_id: Seq<char>,
    pub flow_id: Seq<char>,
    pub platform_user_id: Seq<char>,
    pub status: Seq<char>,
    pub current_step: int,
    pub variable_context: Option<Seq<char>>,
    pub started_at: int,
    pub updated_at: int,
    pub completed_at: Option<int>,
    pub error: Option<Seq<char>>,
    pub trigger: Option<Seq<char>>,
}

impl View for Execution {
    type V = ExecutionView;

    open spec fn view(&self) -> ExecutionView {
        ExecutionView {
            id: self.id@,
            session_id: self.session_id@,
            flow_id: self.flow_id@,
            platform_user_id: self.platform_user_id@,
            status: self.status@,
            current_step: self.current_step as int,
            variable_context: self.variable_context.deep_view(),
            started_at: self.started_at as int,
            updated_at: self.updated_at as int,
            completed_at: match self.completed_at {
                Some(t) => Some(t as int),
                None => None,
            },
            error: self.error.deep_view(),
            trigger: self.trigger.deep_view(),
        }
    }
}

impl DeepView for Execution {
    type V = ExecutionView;

    open spec fn deep_view(&self) -> ExecutionView {
        self@
    }
}

impl Clone for Execution {
    fn clone(&self) -> (copy: Self)
        ensures
            copy@ == self@,
    {
        Execution {
            id: self.id.clone(),
            session_id: self.session_id.clone(),
            flow_id: self.flow_id.clone(),
            platform_user_id: self.platform_user_id.clone(),
            status: self.status.clone(),
            current_step: self.current_step,
            variable_context: copy_optional_text(&self.variable_context),
            started_at: self.started_at,
            updated_at: self.updated_at,
            completed_at: self.completed_at,
            error: copy_optional_text(&self.error),
            trigger: copy_optional_text(&self.trigger),
        }
    }
}

impl ExecutionView {
    /// Whether the execution is still running, so that its steps are dispatched.
    pub open spec fn is_running(self) -> bool {
        self.status == "RUNNING"@
    }
}

impl Execution {
    /// Whether the execution is still running. An execution in any other
    /// status is finished for good.
    pub fn is_running(&self) -> (running: bool)
        ensures
            running == self@.is_running(),
    {
        same_text(self.status.as_str(), "RUNNING")
    }
}

/// A bot's presence on a platform for one account.
#[derive(Debug, PartialEq, Eq)]
pub struct Session {
    pub id: String,
    pub platform: Platform,
    pub identifier: String,
    pub bot_id: String,
    pub name: Option<String>,
    pub status: SessionStatus,
    pub auth_data: Option<String>,
    pub created_at: i64,
    pub updated_at: i64,
}

/// The mathematical value of a `Session`.
pub struct SessionView {
    pub id: Seq<char>,
    pub platform: Platform,
    pub identifier: Seq<char>,
    pub bot_id: Seq<char>,
    pub name: Option<Seq<char>>,
    pub status: SessionStatus,
    pub auth_data: Option<Seq<char>>,
    pub created_at: int,
    pub updated_at: int,
}

impl View for Session {
    type V = SessionView;

    open spec fn view(&self) -> SessionView {
        SessionView {
            id: self.id@,
            platform: self.platform,
            identifier: self.identifier@,
            bot_id: self.bot_id@,
            name: self.name.deep_view(),
            status: self.status,
            auth_data: self.auth_data.deep_view(),
            created_at: self.created_at as int,
            updated_at: self.updated_at as int,
        }
    }
}

impl DeepView for Session {
    type V = SessionView;

    open spec fn deep_view(&self) -> SessionView {
        self@
    }
}

impl Clone for Session {
    fn clone(&self) -> (copy: Self)
        ensures
            copy@ == self@,
    {
        Session {
            id: self.id.clone(),
            platform: self.platform,
            identifier: self.identifier.clone(),
            bot_id: self.bot_id.clone(),
            name: copy_optional_text(&self.name),
            status: self.status,
            auth_data: copy_optional_text(&self.auth_data),
            created_at: self.created_at,
            updated_at: self.updated_at,
        }
    }
}

/// A keyword and a match rule that bind a flow to events. The last three
/// fields are the owning flow's, joined in by the query; an absent one counts
/// as zero, or as no flows.
#[derive(Debug, PartialEq, Eq)]
pub struct Trigger {
    pub id: String,
    pub bot_id: String,
    pub session_id: Option<String>,
    pub keyword: String,
    pub match_type: MatchType,
    pub is_active: bool,
    pub flow_id: String,
    pub created_at: i64,
    pub updated_at: i64,
    pub scope: TriggerScope,
    pub cooldown_ms: Option<i32>,
    pub usage_limit: Option<i32>,
    pub excludes_flows: Option<Vec<String>>,
}

/// The mathematical value of a `Trigger`.
pub struct TriggerView {
    pub id: Seq<char>,
    pub bot_id: Seq<char>,
    pub session_id: Option<Seq<char>>,
    pub keyword: Seq<char>,
    pub match_type: MatchType,
    pub is_active: bool,
    pub flow_id: Seq<char>,
    pub created_at: int,
    pub updated_at: int,
    pub scope: TriggerScope,
    pub cooldown_ms: Option<int>,
    pub usage_limit: Option<int>,
    pub excludes_flows: Option<Seq<Seq<char>>>,
}

impl View for Trigger {
    type V = TriggerView;

    open spec fn view(&self) -> TriggerView {
        TriggerView {
            id: self.id@,
            bot_id: self.bot_id@,
            session_id: self.session_id.deep_view(),
            keyword: self.keyword@,
            match_type: self.match_type,
            is_active: self.is_active,
            flow_id: self.flow_id@,
            created_at: self.created_at as int,
            updated_at: self.updated_at as int,
            scope: self.scope,
            cooldown_ms: match self.cooldown_ms {
                Some(ms) => Some(ms as int),
                None => None,
            },
            usage_limit: match self.usage_limit {
                Some(limit) => Some(limit as int),
                None => None,
            },
            excludes_flows: self.excludes_flows.deep_view(),
        }
    }
}

impl DeepView for Trigger {
    type V = TriggerView;

    open spec fn deep_view(&self) -> TriggerView {
        self@
    }
}

impl Clone for Trigger {
    fn clone(&self) -> (copy: Self)
        ensures
            copy@ == self@,
    {
        Trigger {
            id: self.id.clone(),
            bot_id: self.bot_id.clone(),
            session_id: copy_optional_text(&self.session_id),
            keyword: self.keyword.clone(),
            match_type: self.match_type,
            is_active: self.is_active,
            flow_id: self.flow_id.clone(),
            created_at: self.created_at,
            updated_at: self.updated_at,
            scope: self.scope,
            cooldown_ms: self.cooldown_ms,
            usage_limit: self.usage_limit,
            excludes_flows: match &self.excludes_flows {
                Some(flows) => Some(copy_texts(flows)),
                None => None,
            },
        }
    }
}

impl TriggerView {
    /// The flow's cooldown in milliseconds; zero where none is set.
    pub open spec fn cooldown(self) -> int {
        match self.cooldown_ms {
            Some(ms) => ms,
            None => 0,
        }
    }

    /// The flow's usage limit; zero, which is no limit, where none is set.
    pub open spec fn limit(self) -> int {
        match self.usage_limit {
            Some(limit) => limit,
            None => 0,
        }
    }

    /// The flows that shut this one out; none where none is set.
    pub open spec fn excluded(self) -> Seq<Seq<char>> {
        match self.excludes_flows {
            Some(flows) => flows,
            None => Seq::empty(),
        }
    }
}

/// A scripted interaction: an ordered list of steps, with its rate rules.
/// `usage_limit` zero means no limit.
#[derive(Debug, PartialEq, Eq)]
pub struct Flow {
    pub id: String,
    pub bot_id: String,
    pub name: String,
    pub description: Option<String>,
    pub created_at: i64,
    pub updated_at: i64,
    pub cooldown_ms: i32,
    pub usage_limit: i32,
    pub excludes_flows: Vec<String>,
}

/// The mathematical value of a `Flow`.
pub struct FlowView {
    pub id: Seq<char>,
    pub bot_id: Seq<char>,
    pub name: Seq<char>,
    pub description: Option<Seq<char>>,
    pub created_at: int,
    pub updated_at: int,
    pub cooldown_ms: int,
    pub usage_limit: int,
    pub excludes_flows: Seq<Seq<char>>,
}

impl View for Flow {
    type V = FlowView;

    open spec fn view(&self) -> FlowView {
        FlowView {
            id: self.id@,
            bot_id: self.bot_id@,
            name: self.name@,
            description: self.description.deep_view(),
            created_at: self.created_at as int,
            updated_at: self.updated_at as int,
            cooldown_ms: self.cooldown_ms as int,
            usage_limit: self.usage_limit as int,
            excludes_flows: self.excludes_flows.deep_view(),
        }
    }
}

impl Clone for Flow {
    fn clone(&self) -> (copy: Self)
        ensures
            copy@ == self@,
    {
        Flow {
            id: self.id.clone(),
            bot_id: self.bot_id.clone(),
            name: self.name.clone(),
            description: copy_optional_text(&self.description),
            created_at: self.created_at,
            updated_at: self.updated_at,
            cooldown_ms: self.cooldown_ms,
            usage_limit: self.usage_limit,
            excludes_flows: copy_texts(&self.excludes_flows),
        }
    }
}

} // verus!
