use vstd::prelude::*;

verus! {

/// Where a job stands in its lifecycle.
#[derive(Clone, Copy, Debug, PartialEq, Eq, Structural)]
pub enum JobStatus {
    /// Waiting for inference
    Bot,
    /// Waiting for human feedback
    Human,
    /// Job succeeded
    Success,
    /// Job failed
    Fail,
}

/// The transition table: the only moves a job's status may make.
pub open spec fn transition_allowed(from: JobStatus, to: JobStatus) -> bool {
    match (from, to) {
        (JobStatus::Bot, JobStatus::Human) => true,
        (JobStatus::Human, JobStatus::Bot) => true,
        (JobStatus::Human, JobStatus::Success) => true,
        (JobStatus::Human, JobStatus::Fail) => true,
        (JobStatus::Bot, JobStatus::Fail) => true,
        _ => false,
    }
}

pub open spec fn terminal(s: JobStatus) -> bool {
    s == JobStatus::Success || s == JobStatus::Fail
}

/// The lowercase name under which a status is persisted.
pub open spec fn status_name(s: JobStatus) -> Seq<char> {
    match s {
        JobStatus::Bot => seq!['b', 'o', 't'],
        JobStatus::Human => seq!['h', 'u', 'm', 'a', 'n'],
        JobStatus::Success => seq!['s', 'u', 'c', 'c', 'e', 's', 's'],
        JobStatus::Fail => seq!['f', 'a', 'i', 'l'],
    }
}

impl JobStatus {
    /// Whether the table admits a move from `self` to `to`.
    pub fn can_transition_to(self, to: JobStatus) -> (r: bool)
        ensures
            r == transition_allowed(self, to),
    {
        match (self, to) {
            (JobStatus::Bot, JobStatus::Human) => true,
            (JobStatus::Human, JobStatus::Bot) => true,
            (JobStatus::Human, JobStatus::Success) => true,
            (JobStatus::Human, JobStatus::Fail) => true,
            (JobStatus::Bot, JobStatus::Fail) => true,
            _ => false,
        }
    }

    /// A terminal status admits no further transition.
    pub fn is_terminal(self) -> (r: bool)
        ensures
            r == terminal(self),
            r ==> forall|t: JobStatus| !transition_allowed(self, t),
    {
        match self {
            JobStatus::Success => true,
            JobStatus::Fail => true,
            _ => false,
        }
    }

    /// The lowercase name used for the status column.
    pub fn as_str(self) -> (r: &'static str)
        ensures
            r@ == status_name(self),
    {
        match self {
            JobStatus::Bot => {
                proof {
                    reveal_strlit("bot");
                }
                "bot"
            },
            JobStatus::Human => {
                proof {
                    reveal_strlit("human");
                }
                "human"
            },
            JobStatus::Success => {
                proof {
                    reveal_strlit("success");
                }
                "success"
            },
            JobStatus::Fail => {
                proof {
                    reveal_strlit("fail");
                }
                "fail"
            },
        }
    }
}

} // verus!
