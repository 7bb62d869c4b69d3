//! Data model of the Blaze API: cards, plans and their enumerations.

use vstd::prelude::*;

verus! {

/// Card priority levels, from least to most pressing.
#[derive(Clone, Copy, Debug, PartialEq, Eq, Structural)]
pub enum Priority {
    Low,
    Medium,
    High,
    Urgent,
}

impl Priority {
    /// The wire name of the priority.
    pub open spec fn spec_name(self) -> Seq<char> {
        match self {
            Priority::Low => "low"@,
            Priority::Medium => "medium"@,
            Priority::High => "high"@,
            Priority::Urgent => "urgent"@,
        }
    }

    pub open spec fn spec_emoji(self) -> Seq<char> {
        match self {
            Priority::Low => "🟢"@,
            Priority::Medium => "🟡"@,
            Priority::High => "🟠"@,
            Priority::Urgent => "🔴"@,
        }
    }

    /// The lower-case wire name (`low`, `medium`, `high`, `urgent`).
    pub fn name(&self) -> (r: &'static str)
        ensures
            r@ == self.spec_name(),
    {
        match self {
            Priority::Low => "low",
            Priority::Medium => "medium",
            Priority::High => "high",
            Priority::Urgent => "urgent",
        }
    }

    /// The priorities from most to least pressing.
    pub open spec fn spec_by_urgency() -> Seq<Priority> {
        seq![Priority::Urgent, Priority::High, Priority::Medium, Priority::Low]
    }

    /// Every priority, from most to least pressing.
    pub fn by_urgency() -> (r: Vec<Priority>)
        ensures
            r@ == Self::spec_by_urgency(),
    {
        let r = vec![Priority::Urgent, Priority::High, Priority::Medium, Priority::Low];
        assert(r@ =~= Self::spec_by_urgency());
        r
    }

    /// Colored emoji representation.
    pub fn emoji(&self) -> (r: &'static str)
        ensures
            r@ == self.spec_emoji(),
    {
        match self {
            Priority::Low => "🟢",
            Priority::Medium => "🟡",
            Priority::High => "🟠",
            Priority::Urgent => "🔴",
        }
    }
}

/// Agent workflow status of a card.
#[derive(Clone, Copy, Debug, PartialEq, Eq, Structural)]
pub enum AgentStatus {
    Ready,
    InProgress,
    Blocked,
    NeedsReview,
}

impl AgentStatus {
    pub open spec fn spec_name(self) -> Seq<char> {
        match self {
            AgentStatus::Ready => "ready"@,
            AgentStatus::InProgress => "in_progress"@,
            AgentStatus::Blocked => "blocked"@,
            AgentStatus::NeedsReview => "needs_review"@,
        }
    }

    pub open spec fn spec_emoji(self) -> Seq<char> {
        match self {
            AgentStatus::Ready => "🟢"@,
            AgentStatus::InProgress => "🔵"@,
            AgentStatus::Blocked => "🟡"@,
            AgentStatus::NeedsReview => "🔴"@,
        }
    }

    /// The snake-case wire name of the status.
    pub fn name(&self) -> (r: &'static str)
        ensures
            r@ == self.spec_name(),
    {
        match self {
            AgentStatus::Ready => "ready",
            AgentStatus::InProgress => "in_progress",
            AgentStatus::Blocked => "blocked",
            AgentStatus::NeedsReview => "needs_review",
        }
    }

    /// Status emoji.
    pub fn emoji(&self) -> (r: &'static str)
        ensures
            r@ == self.spec_emoji(),
    {
        match self {
            AgentStatus::Ready => "🟢",
            AgentStatus::InProgress => "🔵",
            AgentStatus::Blocked => "🟡",
            AgentStatus::NeedsReview => "🔴",
        }
    }
}

/// Board columns (workflow stages), in workflow order.
#[derive(Clone, Copy, Debug, PartialEq, Eq, Structural)]
pub enum Column {
    Backlog,
    Todo,
    InProgress,
    Review,
    Done,
}

impl Column {
    pub open spec fn spec_name(self) -> Seq<char> {
        match self {
            Column::Backlog => "backlog"@,
            Column::Todo => "todo"@,
            Column::InProgress => "in_progress"@,
            Column::Review => "review"@,
            Column::Done => "done"@,
        }
    }

    pub open spec fn spec_display_name(self) -> Seq<char> {
        match self {
            Column::Backlog => "Backlog"@,
            Column::Todo => "Todo"@,
            Column::InProgress => "In Progress"@,
            Column::Review => "Review"@,
            Column::Done => "Done"@,
        }
    }

    /// The columns in workflow order.
    pub open spec fn spec_all() -> Seq<Column> {
        seq![Column::Backlog, Column::Todo, Column::InProgress, Column::Review, Column::Done]
    }

    /// The snake-case wire name of the column.
    pub fn name(&self) -> (r: &'static str)
        ensures
            r@ == self.spec_name(),
    {
        match self {
            Column::Backlog => "backlog",
            Column::Todo => "todo",
            Column::InProgress => "in_progress",
            Column::Review => "review",
            Column::Done => "done",
        }
    }

    /// Human-readable display name.
    pub fn display_name(&self) -> (r: &'static str)
        ensures
            r@ == self.spec_display_name(),
    {
        match self {
            Column::Backlog => "Backlog",
            Column::Todo => "Todo",
            Column::InProgress => "In Progress",
            Column::Review => "Review",
            Column::Done => "Done",
        }
    }

    /// Every column, in workflow order.
    pub fn all() -> (r: Vec<Column>)
        ensures
            r@ == Self::spec_all(),
    {
        let r = vec![Column::Backlog, Column::Todo, Column::InProgress, Column::Review, Column::Done];
        assert(r@ =~= Self::spec_all());
        r
    }
}

/// Plan status levels.
#[derive(Clone, Copy, Debug, PartialEq, Eq, Structural)]
pub enum PlanStatus {
    Draft,
    Ready,
    Approved,
}

impl PlanStatus {
    pub open spec fn spec_name(self) -> Seq<char> {
        match self {
            PlanStatus::Draft => "draft"@,
            PlanStatus::Ready => "ready"@,
            PlanStatus::Approved => "approved"@,
        }
    }

    pub open spec fn spec_emoji(self) -> Seq<char> {
        match self {
            PlanStatus::Draft => "📝"@,
            PlanStatus::Ready => "👀"@,
            PlanStatus::Approved => "✅"@,
        }
    }

    /// The lower-case wire name of the status.
    pub fn name(&self) -> (r: &'static str)
        ensures
            r@ == self.spec_name(),
    {
        match self {
            PlanStatus::Draft => "draft",
            PlanStatus::Ready => "ready",
            PlanStatus::Approved => "approved",
        }
    }

    /// Status emoji.
    pub fn emoji(&self) -> (r: &'static str)
        ensures
            r@ == self.spec_emoji(),
    {
        match self {
            PlanStatus::Draft => "📝",
            PlanStatus::Ready => "👀",
            PlanStatus::Approved => "✅",
        }
    }
}

/// An instant in UTC: whole seconds since the Unix epoch and the nanoseconds
/// past that second.
#[derive(Clone, Copy, Debug, PartialEq, Eq, Structural)]
pub struct Timestamp {
    pub secs: i64,
    pub nanos: u32,
}

impl Timestamp {
    /// `self` lies strictly before `other`.
    pub open spec fn spec_before(self, other: Timestamp) -> bool {
        self.secs < other.secs || (self.secs == other.secs && self.nanos < other.nanos)
    }

    /// Whether `self` lies strictly before `other`.
    pub fn is_before(&self, other: &Timestamp) -> (r: bool)
        ensures
            r == self.spec_before(*other),
    {
        self.secs < other.secs || (self.secs == other.secs && self.nanos < other.nanos)
    }
}

/// One entry of a card's agent progress log.
#[derive(Clone, Debug, PartialEq)]
pub struct AgentProgressEntry {
    pub timestamp: Timestamp,
    pub message: String,
}

/// Full card model.
#[derive(Clone, Debug, PartialEq)]
pub struct Card {
    pub id: String,
    pub title: String,
    pub description: Option<String>,
    pub priority: Priority,
    pub column: Column,
    pub due_date: Option<Timestamp>,
    pub tags: Vec<String>,
    pub created_at: Timestamp,
    pub updated_at: Timestamp,
    pub position: i32,
    pub agent_assignable: bool,
    pub agent_status: Option<AgentStatus>,
    pub agent_progress: Vec<AgentProgressEntry>,
    pub acceptance_criteria: Vec<String>,
    pub acceptance_checked: Vec<bool>,
    pub blocked_reason: Option<String>,
}

/// Request body for creating a card.
#[derive(Clone, Debug, PartialEq)]
pub struct CardCreate {
    pub title: String,
    pub description: Option<String>,
    pub priority: Priority,
    pub column: Column,
    pub due_date: Option<Timestamp>,
    pub tags: Vec<String>,
}

/// Request body for updating a card; absent fields are left unchanged.
#[derive(Clone, Debug, PartialEq)]
pub struct CardUpdate {
    pub title: Option<String>,
    pub description: Option<String>,
    pub priority: Option<Priority>,
    pub column: Option<Column>,
    pub due_date: Option<Timestamp>,
    pub tags: Option<Vec<String>>,
    pub agent_assignable: Option<bool>,
}

/// Request body for moving a card.
#[derive(Clone, Copy, Debug, PartialEq, Eq, Structural)]
pub struct CardMove {
    pub column: Column,
}

/// Board statistics. The per-column and per-priority counts are keyed by wire
/// name; each name occurs at most once.
#[derive(Clone, Debug, PartialEq)]
pub struct BoardStats {
    pub total_cards: i32,
    pub by_column: Vec<(String, i32)>,
    pub by_priority: Vec<(String, i32)>,
    pub overdue_count: i32,
}

/// Health check response.
#[derive(Clone, Debug, PartialEq)]
pub struct HealthResponse {
    pub status: String,
}

/// A file within a plan.
#[derive(Clone, Debug, PartialEq)]
pub struct PlanFile {
    pub name: String,
    pub content: String,
}

/// Full plan model.
#[derive(Clone, Debug, PartialEq)]
pub struct Plan {
    pub id: String,
    pub title: String,
    pub status: PlanStatus,
    pub files: Vec<PlanFile>,
    pub created_at: Timestamp,
    pub updated_at: Timestamp,
    pub position: i32,
}

/// Request body for creating a plan.
#[derive(Clone, Debug, PartialEq)]
pub struct PlanCreate {
    pub title: String,
    pub files: Vec<PlanFileCreate>,
}

/// Request body for creating a file in a plan.
#[derive(Clone, Debug, PartialEq)]
pub struct PlanFileCreate {
    pub name: String,
    pub content: String,
}

/// Request body for updating a plan.
#[derive(Clone, Debug, PartialEq)]
pub struct PlanUpdate {
    pub title: Option<String>,
    pub status: Option<PlanStatus>,
}

/// Request body for updating a plan file.
#[derive(Clone, Debug, PartialEq)]
pub struct PlanFileUpdate {
    pub name: Option<String>,
    pub content: Option<String>,
}

} // verus!
