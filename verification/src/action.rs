//! The actions that an operator can send to a node.

use vstd::prelude::*;

verus! {

/// An action on a node. There are no others.
#[derive(Clone, Copy, Debug, PartialEq, Eq, Structural)]
pub enum Action {
    Lock,
    Unlock,
    SimulateActivity,
    Inhibit,
    Uninhibit,
}

impl Action {
    /// The action that `name` names, if it names one.
    pub open spec fn named(name: Seq<char>) -> Option<Action> {
        if name == "lock"@ {
            Some(Action::Lock)
        } else if name == "unlock"@ {
            Some(Action::Unlock)
        } else if name == "simulate-activity"@ {
            Some(Action::SimulateActivity)
        } else if name == "inhibit"@ {
            Some(Action::Inhibit)
        } else if name == "uninhibit"@ {
            Some(Action::Uninhibit)
        } else {
            None
        }
    }

    /// The name of the action.
    pub open spec fn name_text(self) -> Seq<char> {
        match self {
            Action::Lock => "lock"@,
            Action::Unlock => "unlock"@,
            Action::SimulateActivity => "simulate-activity"@,
            Action::Inhibit => "inhibit"@,
            Action::Uninhibit => "uninhibit"@,
        }
    }

    /// The path on a node that performs the action.
    pub open spec fn endpoint_text(self) -> Seq<char> {
        match self {
            Action::Lock => "/idle/lock"@,
            Action::Unlock => "/idle/unlock"@,
            Action::SimulateActivity => "/idle/simulate_user_activity"@,
            Action::Inhibit => "/idle/inhibit"@,
            Action::Uninhibit => "/idle/uninhibit"@,
        }
    }

    /// The action that `name` names, if it names one.
    pub fn parse(name: &str) -> (action: Option<Action>)
        ensures
            action == Action::named(name@),
    {
        if name.eq("lock") {
            Some(Action::Lock)
        } else if name.eq("unlock") {
            Some(Action::Unlock)
        } else if name.eq("simulate-activity") {
            Some(Action::SimulateActivity)
        } else if name.eq("inhibit") {
            Some(Action::Inhibit)
        } else if name.eq("uninhibit") {
            Some(Action::Uninhibit)
        } else {
            None
        }
    }

    /// The name of the action.
    pub fn name(self) -> (name: &'static str)
        ensures
            name@ == self.name_text(),
    {
        match self {
            Action::Lock => "lock",
            Action::Unlock => "unlock",
            Action::SimulateActivity => "simulate-activity",
            Action::Inhibit => "inhibit",
            Action::Uninhibit => "uninhibit",
        }
    }

    /// The path on a node that performs the action.
    pub fn endpoint(self) -> (path: &'static str)
        ensures
            path@ == self.endpoint_text(),
    {
        match self {
            Action::Lock => "/idle/lock",
            Action::Unlock => "/idle/unlock",
            Action::SimulateActivity => "/idle/simulate_user_activity",
            Action::Inhibit => "/idle/inhibit",
            Action::Uninhibit => "/idle/uninhibit",
        }
    }
}

/// The five names are five different texts.
pub proof fn lemma_names_differ()
    ensures
        "lock"@.len() == 4,
        "unlock"@.len() == 6,
        "simulate-activity"@.len() == 17,
        "inhibit"@.len() == 7,
        "uninhibit"@.len() == 9,
{
    reveal_strlit("lock");
    reveal_strlit("unlock");
    reveal_strlit("simulate-activity");
    reveal_strlit("inhibit");
    reveal_strlit("uninhibit");
}

/// Every action is the one that its name names.
pub proof fn law_name_names_action(action: Action)
    ensures
        Action::named(action.name_text()) == Some(action),
{
    lemma_names_differ();
}

/// A text names an action only if it is that action's name.
pub proof fn law_named_by_its_name(name: Seq<char>)
    ensures
        Action::named(name) matches Some(action) ==> action.name_text() == name,
{
}

} // verus!
