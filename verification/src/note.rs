//! Notes and their priorities.
use vstd::prelude::*;

verus! {

/// The priority assigned to a note: either low, medium, or high.
#[allow(non_camel_case_types, clippy::upper_case_acronyms)]
#[derive(Clone, Copy, Debug, PartialEq, Eq, Structural)]
pub enum Priority {
    LOW,
    MED,
    HIGH,
}

/// A single note and its metadata.
#[derive(Debug)]
pub struct Note {
    pub note_id: u32,
    pub user_id: u32,
    pub text: String,
    /// When the note was posted, written for people to read.
    pub timestamp: String,
    pub priority: Priority,
    pub dismissed: bool,
}

/// A note as the scratchpad sends it to the inbox.
#[derive(Debug)]
pub struct NoteRequest {
    pub user_id: u32,
    pub text: String,
    pub priority: Priority,
}

/// The number that stands for a priority in storage and on the wire.
pub open spec fn priority_code(p: Priority) -> u32 {
    match p {
        Priority::LOW => 0,
        Priority::MED => 1,
        Priority::HIGH => 2,
    }
}

/// The priority that a stored number stands for, if any.
pub open spec fn priority_of_code(v: u32) -> Option<Priority> {
    if v == 0 {
        Some(Priority::LOW)
    } else if v == 1 {
        Some(Priority::MED)
    } else if v == 2 {
        Some(Priority::HIGH)
    } else {
        None
    }
}

/// The name under which a priority is shown.
pub open spec fn priority_label(p: Priority) -> Seq<char> {
    match p {
        Priority::LOW => "LOW"@,
        Priority::MED => "MED"@,
        Priority::HIGH => "HIGH"@,
    }
}

/// The priority that follows `p` in the cycle LOW, MED, HIGH, LOW, ...
pub open spec fn spec_next_priority(p: Priority) -> Priority {
    match p {
        Priority::LOW => Priority::MED,
        Priority::MED => Priority::HIGH,
        Priority::HIGH => Priority::LOW,
    }
}

impl Priority {
    /// The number that stands for this priority (LOW = 0, MED = 1, HIGH = 2).
    pub fn code(self) -> (r: u32)
        ensures
            r == priority_code(self),
            r < 3,
    {
        match self {
            Priority::LOW => 0,
            Priority::MED => 1,
            Priority::HIGH => 2,
        }
    }

    /// The display name of this priority: "LOW", "MED" or "HIGH".
    pub fn to_string(&self) -> (r: String)
        ensures
            r@ == priority_label(*self),
    {
        proof {
            reveal_strlit("LOW");
            reveal_strlit("MED");
            reveal_strlit("HIGH");
        }
        match self {
            Priority::HIGH => String::from_str("HIGH"),
            Priority::MED => String::from_str("MED"),
            Priority::LOW => String::from_str("LOW"),
        }
    }

    /// The next priority in the cycle LOW, MED, HIGH, LOW, ...: the number of
    /// the current priority plus one, modulo the number of priorities.
    pub fn next(self) -> (r: Priority)
        ensures
            r == spec_next_priority(self),
            priority_code(r) == (priority_code(self) + 1) % 3,
    {
        let code = (self.code() + 1) % 3;
        match Priority::try_from(code) {
            Ok(p) => p,
            Err(_) => self,
        }
    }
}

impl TryFrom<u32> for Priority {
    type Error = ();

    fn try_from(v: u32) -> (r: Result<Priority, ()>) {
        if v == 0 {
            Ok(Priority::LOW)
        } else if v == 1 {
            Ok(Priority::MED)
        } else if v == 2 {
            Ok(Priority::HIGH)
        } else {
            Err(())
        }
    }
}

impl vstd::std_specs::convert::TryFromSpecImpl<u32> for Priority {
    open spec fn obeys_try_from_spec() -> bool {
        true
    }

    open spec fn try_from_spec(v: u32) -> Result<Priority, ()> {
        match priority_of_code(v) {
            Some(p) => Ok(p),
            None => Err(()),
        }
    }
}

/// Each priority is stored as a number that reads back as the same priority, and
/// exactly the numbers below 3 stand for a priority.
pub proof fn lemma_priority_code_roundtrip(p: Priority, v: u32)
    ensures
        priority_of_code(priority_code(p)) == Some(p),
        <Priority as vstd::std_specs::convert::TryFromSpec<u32>>::try_from_spec(priority_code(p)) == Ok::<Priority, ()>(p),
        priority_of_code(v) is Some <==> v < 3,
        priority_of_code(v) matches Some(q) ==> priority_code(q) == v,
{
}

/// Distinct priorities have distinct numbers and distinct names.
pub proof fn lemma_priorities_distinct(p: Priority, q: Priority)
    requires
        p != q,
    ensures
        priority_code(p) != priority_code(q),
        priority_label(p) != priority_label(q),
{
    reveal_strlit("LOW");
    reveal_strlit("MED");
    reveal_strlit("HIGH");
    assert("LOW"@.len() == 3 && "MED"@.len() == 3 && "HIGH"@.len() == 4);
    assert("LOW"@[0] != "MED"@[0]);
}

/// Pressing the priority button three times brings back the priority it started
/// with, and each press changes it.
pub proof fn lemma_next_priority_cycles(p: Priority)
    ensures
        spec_next_priority(spec_next_priority(spec_next_priority(p))) == p,
        spec_next_priority(p) != p,
{
}

} // verus!
