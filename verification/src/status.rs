//! The assembly and paint status of an owned batch of models.

use vstd::prelude::*;
use vstd::string::*;
use crate::text::same_text;

verus! {

/// How far a batch of models has come. A free label: any status may follow
/// any other.
#[derive(Clone, Copy, Debug, PartialEq, Eq, Structural)]
pub enum Status {
    Unassembled,
    Assembled,
    Painted,
}

impl Status {
    /// The name of the status on the wire and in the store.
    pub open spec fn wire(self) -> Seq<char> {
        match self {
            Status::Unassembled => "unassembled"@,
            Status::Assembled => "assembled"@,
            Status::Painted => "painted"@,
        }
    }

    /// The name of the status as shown to a person.
    pub open spec fn shown(self) -> Seq<char> {
        match self {
            Status::Unassembled => "Unassembled"@,
            Status::Assembled => "Assembled"@,
            Status::Painted => "Painted"@,
        }
    }

    /// The status that a wire name stands for, if it is one of the three.
    pub open spec fn named(text: Seq<char>) -> Option<Status> {
        if text == "unassembled"@ {
            Some(Status::Unassembled)
        } else if text == "assembled"@ {
            Some(Status::Assembled)
        } else if text == "painted"@ {
            Some(Status::Painted)
        } else {
            None
        }
    }

    /// The three statuses, in the order a batch usually passes through them.
    pub open spec fn every() -> Seq<Status> {
        seq![Status::Unassembled, Status::Assembled, Status::Painted]
    }

    pub fn as_str(self) -> (name: &'static str)
        ensures
            name@ == self.wire(),
    {
        match self {
            Status::Unassembled => "unassembled",
            Status::Assembled => "assembled",
            Status::Painted => "painted",
        }
    }

    pub fn label(self) -> (name: &'static str)
        ensures
            name@ == self.shown(),
    {
        match self {
            Status::Unassembled => "Unassembled",
            Status::Assembled => "Assembled",
            Status::Painted => "Painted",
        }
    }

    pub fn all() -> (list: [Status; 3])
        ensures
            list@ == Status::every(),
    {
        let list = [Status::Unassembled, Status::Assembled, Status::Painted];
        assert(list@ =~= Status::every());
        list
    }

    /// Reads a wire name. Only the three exact lower-case names are statuses.
    pub fn from_str(value: &str) -> (result: Result<Status, ()>)
        ensures
            result == match Status::named(value@) {
                Some(status) => Ok::<Status, ()>(status),
                None => Err::<Status, ()>(()),
            },
    {
        if same_text(value, "unassembled") {
            Ok(Status::Unassembled)
        } else if same_text(value, "assembled") {
            Ok(Status::Assembled)
        } else if same_text(value, "painted") {
            Ok(Status::Painted)
        } else {
            Err(())
        }
    }
}

/// Every status is read back from its own wire name.
pub proof fn lemma_wire_name_reads_back(status: Status)
    ensures
        Status::named(status.wire()) == Some(status),
{
    reveal_strlit("unassembled");
    reveal_strlit("assembled");
    reveal_strlit("painted");
    assert("unassembled"@.len() == 11);
    assert("assembled"@.len() == 9);
    assert("painted"@.len() == 7);
}

} // verus!
