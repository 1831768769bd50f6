//! The signals that an operator may have delivered to the child.

use crate::text::same_text;
use vstd::prelude::*;

verus! {

/// The signals that can be delivered to the child.
#[derive(Clone, Copy, Debug, PartialEq, Eq, Structural)]
pub enum ChildSignal {
    Term,
    Int,
    Hup,
    Kill,
    Usr1,
    Usr2,
}

impl ChildSignal {
    /// The name by which a signal is requested.
    pub open spec fn name_text(self) -> Seq<char> {
        match self {
            ChildSignal::Term => "TERM"@,
            ChildSignal::Int => "INT"@,
            ChildSignal::Hup => "HUP"@,
            ChildSignal::Kill => "KILL"@,
            ChildSignal::Usr1 => "USR1"@,
            ChildSignal::Usr2 => "USR2"@,
        }
    }

    /// The signal that `name` names, if it names a supported one.
    pub open spec fn named(name: Seq<char>) -> Option<ChildSignal> {
        if name == "TERM"@ {
            Some(ChildSignal::Term)
        } else if name == "INT"@ {
            Some(ChildSignal::Int)
        } else if name == "HUP"@ {
            Some(ChildSignal::Hup)
        } else if name == "KILL"@ {
            Some(ChildSignal::Kill)
        } else if name == "USR1"@ {
            Some(ChildSignal::Usr1)
        } else if name == "USR2"@ {
            Some(ChildSignal::Usr2)
        } else {
            None
        }
    }

    /// Looks a signal up by its name.
    pub fn from_name(name: &str) -> (r: Option<ChildSignal>)
        ensures
            r == ChildSignal::named(name@),
    {
        if same_text(name, "TERM") {
            Some(ChildSignal::Term)
        } else if same_text(name, "INT") {
            Some(ChildSignal::Int)
        } else if same_text(name, "HUP") {
            Some(ChildSignal::Hup)
        } else if same_text(name, "KILL") {
            Some(ChildSignal::Kill)
        } else if same_text(name, "USR1") {
            Some(ChildSignal::Usr1)
        } else if same_text(name, "USR2") {
            Some(ChildSignal::Usr2)
        } else {
            None
        }
    }

    /// The name of the signal.
    pub fn name(&self) -> (r: &'static str)
        ensures
            r@ == self.name_text(),
    {
        match self {
            ChildSignal::Term => "TERM",
            ChildSignal::Int => "INT",
            ChildSignal::Hup => "HUP",
            ChildSignal::Kill => "KILL",
            ChildSignal::Usr1 => "USR1",
            ChildSignal::Usr2 => "USR2",
        }
    }
}

/// Every signal is found again under its own name.
pub proof fn lemma_signal_names_distinct(signal: ChildSignal)
    ensures
        ChildSignal::named(signal.name_text()) == Some(signal),
{
    reveal_strlit("TERM");
    reveal_strlit("INT");
    reveal_strlit("HUP");
    reveal_strlit("KILL");
    reveal_strlit("USR1");
    reveal_strlit("USR2");
    assert("TERM"@[0] == 'T');
    assert("INT"@[0] == 'I');
    assert("HUP"@[0] == 'H');
    assert("KILL"@[0] == 'K');
    assert("USR1"@[3] == '1');
    assert("USR2"@[3] == '2');
    assert("USR1"@[0] == 'U');
    assert("USR2"@[0] == 'U');
}

} // verus!
