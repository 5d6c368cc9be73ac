use vstd::prelude::*;
use vstd::string::StringExecFns;
use crate::output::{carries, lemma_priority_name_is_plain, paint_of_priority, painted};

verus! {

/// Priority levels for issues.
#[derive(Debug, Clone, Copy, PartialEq, Eq, Structural)]
pub enum Priority {
    /// No priority (0)
    NoPriority,
    /// Urgent priority (1)
    Urgent,
    /// High priority (2)
    High,
    /// Medium priority (3)
    Medium,
    /// Low priority (4)
    Low,
}

impl Priority {
    /// The number the service uses for this level.
    pub open spec fn number(self) -> int {
        match self {
            Priority::NoPriority => 0,
            Priority::Urgent => 1,
            Priority::High => 2,
            Priority::Medium => 3,
            Priority::Low => 4,
        }
    }

    /// The level that a number stands for; numbers outside `0..=4` mean no priority.
    pub open spec fn of_number(value: int) -> Priority {
        if value == 1 {
            Priority::Urgent
        } else if value == 2 {
            Priority::High
        } else if value == 3 {
            Priority::Medium
        } else if value == 4 {
            Priority::Low
        } else {
            Priority::NoPriority
        }
    }

    /// The name of the level.
    pub open spec fn name(self) -> Seq<char> {
        match self {
            Priority::NoPriority => "None"@,
            Priority::Urgent => "Urgent"@,
            Priority::High => "High"@,
            Priority::Medium => "Medium"@,
            Priority::Low => "Low"@,
        }
    }

    /// Create Priority from an integer value.
    pub fn from_i32(value: i32) -> (p: Priority)
        ensures
            p == Priority::of_number(value as int),
    {
        match value {
            1 => Priority::Urgent,
            2 => Priority::High,
            3 => Priority::Medium,
            4 => Priority::Low,
            _ => Priority::NoPriority,
        }
    }

    /// Get the integer value.
    pub fn as_i32(self) -> (n: i32)
        ensures
            n as int == self.number(),
    {
        match self {
            Priority::NoPriority => 0,
            Priority::Urgent => 1,
            Priority::High => 2,
            Priority::Medium => 3,
            Priority::Low => 4,
        }
    }

    /// Get the label for this priority.
    pub fn label(self) -> (r: &'static str)
        ensures
            r@ == self.name(),
    {
        match self {
            Priority::NoPriority => "None",
            Priority::Urgent => "Urgent",
            Priority::High => "High",
            Priority::Medium => "Medium",
            Priority::Low => "Low",
        }
    }

    /// Get the colored label for terminal output.
    pub fn colored(self) -> (r: String)
        ensures
            self == Priority::NoPriority ==> r@ == self.name(),
            carries(r@, self.name()),
    {
        proof {
            lemma_priority_name_is_plain(self);
        }
        painted(self.label(), paint_of_priority(self))
    }

    /// The label as an owned string.
    pub fn to_string(&self) -> (r: String)
        ensures
            r@ == self.name(),
    {
        String::from_str(self.label())
    }
}

/// A number and the level it stands for go both ways: every level comes
/// back from its own number.
pub proof fn lemma_priority_round_trip(p: Priority)
    ensures
        Priority::of_number(p.number()) == p,
        0 <= p.number() <= 4,
{
}

} // verus!
