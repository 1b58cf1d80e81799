//! A task: one unit of work with a title, optional description and due
//! date, a priority, and creation / last-modified timestamps.

use vstd::prelude::*;

use crate::ids::fresh_id;
use crate::time::{now_timestamp, ts_in_range};

verus! {

/// The ordered priority scale: `Low < Medium < High < Critical`.
#[derive(Clone, Copy, Debug, PartialEq, Eq, Structural)]
pub enum Priority {
    Low,
    Medium,
    High,
    Critical,
}

impl Default for Priority {
    fn default() -> (r: Self)
        ensures
            r == Priority::Medium,
    {
        Priority::Medium
    }
}

impl Priority {
    /// The next priority up the scale; `Critical` is a ceiling.
    pub open spec fn spec_up(self) -> Priority {
        match self {
            Priority::Low => Priority::Medium,
            Priority::Medium => Priority::High,
            Priority::High => Priority::Critical,
            Priority::Critical => Priority::Critical,
        }
    }

    /// The next priority down the scale; `Low` is a floor.
    pub open spec fn spec_down(self) -> Priority {
        match self {
            Priority::Low => Priority::Low,
            Priority::Medium => Priority::Low,
            Priority::High => Priority::Medium,
            Priority::Critical => Priority::High,
        }
    }

    pub fn up(self) -> (r: Priority)
        ensures
            r == self.spec_up(),
    {
        match self {
            Priority::Low => Priority::Medium,
            Priority::Medium => Priority::High,
            Priority::High => Priority::Critical,
            Priority::Critical => Priority::Critical,
        }
    }

    pub fn down(self) -> (r: Priority)
        ensures
            r == self.spec_down(),
    {
        match self {
            Priority::Low => Priority::Low,
            Priority::Medium => Priority::Low,
            Priority::High => Priority::Medium,
            Priority::Critical => Priority::High,
        }
    }

    /// The tag the persistence layer stores for each priority.
    pub open spec fn spec_tag(self) -> Seq<char> {
        match self {
            Priority::Low => "Low"@,
            Priority::Medium => "Medium"@,
            Priority::High => "High"@,
            Priority::Critical => "Critical"@,
        }
    }

    pub fn tag(&self) -> (r: String)
        ensures
            r@ == self.spec_tag(),
    {
        match self {
            Priority::Low => "Low".to_owned(),
            Priority::Medium => "Medium".to_owned(),
            Priority::High => "High".to_owned(),
            Priority::Critical => "Critical".to_owned(),
        }
    }
}

/// The priority whose tag is `s`, if any. The four tags are pairwise
/// distinct, so at most one priority matches.
pub open spec fn spec_priority_of_tag(s: Seq<char>) -> Option<Priority> {
    if s == "Low"@ {
        Some(Priority::Low)
    } else if s == "Medium"@ {
        Some(Priority::Medium)
    } else if s == "High"@ {
        Some(Priority::High)
    } else if s == "Critical"@ {
        Some(Priority::Critical)
    } else {
        None
    }
}

pub fn priority_of_tag(s: &String) -> (r: Option<Priority>)
    ensures
        r == spec_priority_of_tag(s@),
{
    if s.eq(&"Low".to_owned()) {
        Some(Priority::Low)
    } else if s.eq(&"Medium".to_owned()) {
        Some(Priority::Medium)
    } else if s.eq(&"High".to_owned()) {
        Some(Priority::High)
    } else if s.eq(&"Critical".to_owned()) {
        Some(Priority::Critical)
    } else {
        None
    }
}

/// Every tag parses back to the priority it was written for.
pub proof fn lemma_priority_tag_round_trip(p: Priority)
    ensures
        spec_priority_of_tag(p.spec_tag()) == Some(p),
{
    reveal_strlit("Low");
    reveal_strlit("Medium");
    reveal_strlit("High");
    reveal_strlit("Critical");
    match p {
        Priority::Low => {
            assert("Low"@.len() == 3);
        },
        Priority::Medium => {
            assert("Medium"@.len() == 6);
        },
        Priority::High => {
            assert("High"@.len() == 4);
        },
        Priority::Critical => {
            assert("Critical"@.len() == 8);
        },
    }
}

/// The mathematical value of a task.
#[verifier::ext_equal]
pub struct TaskView {
    pub id: u128,
    pub title: Seq<char>,
    pub description: Option<Seq<char>>,
    pub due_date: Option<i64>,
    pub priority: Priority,
    pub created_at: i64,
    pub updated_at: i64,
}

impl TaskView {
    /// Both timestamps, and the due date when present, lie in the storable
    /// range, so the task can always be written out.
    pub open spec fn times_wf(self) -> bool {
        &&& ts_in_range(self.created_at)
        &&& ts_in_range(self.updated_at)
        &&& (self.due_date matches Some(d) ==> ts_in_range(d))
    }
}

/// A single unit of work. Timestamps are microseconds since the Unix
/// epoch, UTC; the identifier is the 128-bit value of a UUID.
#[derive(Clone, Debug, PartialEq)]
pub struct Task {
    pub id: u128,
    pub title: String,
    pub description: Option<String>,
    pub due_date: Option<i64>,
    pub priority: Priority,
    pub created_at: i64,
    pub updated_at: i64,
}

impl View for Task {
    type V = TaskView;

    open spec fn view(&self) -> TaskView {
        TaskView {
            id: self.id,
            title: self.title@,
            description: match self.description {
                Some(s) => Some(s@),
                None => None,
            },
            due_date: self.due_date,
            priority: self.priority,
            created_at: self.created_at,
            updated_at: self.updated_at,
        }
    }
}

impl Task {
    /// A new task with a fresh identifier, no description or due date,
    /// the default priority, and both timestamps set to now.
    pub fn new(title: String) -> (r: Task)
        ensures
            r@.title == title@,
            r@.description is None,
            r@.due_date is None,
            r@.priority == Priority::Medium,
            r@.created_at == r@.updated_at,
            r@.times_wf(),
    {
        let now = now_timestamp();
        Task {
            id: fresh_id(),
            title,
            description: None,
            due_date: None,
            priority: Priority::default(),
            created_at: now,
            updated_at: now,
        }
    }

    /// Builder step: sets the description and refreshes last-modified.
    pub fn with_description(self, description: String) -> (r: Task)
        ensures
            r@ == (TaskView {
                description: Some(description@),
                updated_at: r@.updated_at,
                ..self@
            }),
            ts_in_range(r@.updated_at),
    {
        Task { description: Some(description), updated_at: now_timestamp(), ..self }
    }

    /// Builder step: sets the priority and refreshes last-modified.
    pub fn with_priority(self, priority: Priority) -> (r: Task)
        ensures
            r@ == (TaskView { priority: priority, updated_at: r@.updated_at, ..self@ }),
            ts_in_range(r@.updated_at),
    {
        Task { priority, updated_at: now_timestamp(), ..self }
    }

    /// Overwrites the title and refreshes last-modified.
    pub fn update_title(&mut self, title: String)
        ensures
            *final(self) == (Task {
                title: title,
                updated_at: final(self).updated_at,
                ..*old(self)
            }),
            ts_in_range(final(self).updated_at),
    {
        self.title = title;
        self.updated_at = now_timestamp();
    }

    /// Overwrites the description and refreshes last-modified.
    pub fn update_description(&mut self, description: Option<String>)
        ensures
            *final(self) == (Task {
                description: description,
                updated_at: final(self).updated_at,
                ..*old(self)
            }),
            ts_in_range(final(self).updated_at),
    {
        self.description = description;
        self.updated_at = now_timestamp();
    }

    /// Overwrites the priority and refreshes last-modified.
    pub fn update_priority(&mut self, priority: Priority)
        ensures
            *final(self) == (Task {
                priority: priority,
                updated_at: final(self).updated_at,
                ..*old(self)
            }),
            ts_in_range(final(self).updated_at),
    {
        self.priority = priority;
        self.updated_at = now_timestamp();
    }
}

} // verus!
