//! Invocation arguments and the interactivity decision.

use vstd::prelude::*;

verus! {

/// The web frameworks the wizard can scaffold, in menu order.
#[derive(Clone, Copy, Debug, PartialEq, Eq, Structural)]
pub enum Framework {
    Axum,
    Rocket,
    Tide,
}

impl Framework {
    /// The label of this framework, as shown in the selection menu and as
    /// handed to the local-initialization collaborator.
    pub open spec fn spec_label(self) -> Seq<char> {
        match self {
            Framework::Axum => "axum"@,
            Framework::Rocket => "rocket"@,
            Framework::Tide => "tide"@,
        }
    }

    pub fn label(&self) -> (r: &'static str)
        ensures
            r@ == self.spec_label(),
    {
        match self {
            Framework::Axum => "axum",
            Framework::Rocket => "rocket",
            Framework::Tide => "tide",
        }
    }

    /// The framework at a given position of the fixed menu
    /// `["axum", "rocket", "tide"]`; `None` past the end.
    pub fn from_index(index: usize) -> (r: Option<Framework>)
        ensures
            index == 0 ==> r == Some(Framework::Axum),
            index == 1 ==> r == Some(Framework::Rocket),
            index == 2 ==> r == Some(Framework::Tide),
            index >= 3 ==> r is None,
    {
        match index {
            0 => Some(Framework::Axum),
            1 => Some(Framework::Rocket),
            2 => Some(Framework::Tide),
            _ => None,
        }
    }
}

/// The inputs captured once at process start, consumed read-only.
///
/// At most one of the three framework flags may be set; a violation is a
/// configuration error that is rejected before any resolution begins.
/// `path` is accepted (defaulting to the current directory) but does not
/// influence the resolution itself; `api_key` participates only in the
/// interactivity decision.
pub struct Args {
    pub name: Option<String>,
    pub axum: bool,
    pub rocket: bool,
    pub tide: bool,
    pub new: bool,
    pub api_key: Option<String>,
    pub path: String,
}

/// The framework selected by the flags, if any: `axum` wins over `rocket`,
/// which wins over `tide` (irrelevant under the exclusivity invariant).
pub open spec fn spec_framework_selection(a: Args) -> Option<Framework> {
    if a.axum {
        Some(Framework::Axum)
    } else if a.rocket {
        Some(Framework::Rocket)
    } else if a.tide {
        Some(Framework::Tide)
    } else {
        None
    }
}

/// At most one framework flag is set.
pub open spec fn flags_exclusive(a: Args) -> bool {
    &&& !(a.axum && a.rocket)
    &&& !(a.axum && a.tide)
    &&& !(a.rocket && a.tide)
}

/// A session is interactive exactly when some plan field is missing from the
/// arguments: no name, no framework flag, or provisioning was requested
/// without a credential. Computed once, before any field resolution, and
/// fixed for the whole run.
pub open spec fn spec_interactive(a: Args) -> bool {
    ||| a.name is None
    ||| spec_framework_selection(a) is None
    ||| (a.new && a.api_key is None)
}

impl Args {
    /// The framework label selected by the flags, if any.
    pub fn framework(&self) -> (r: Option<&str>)
        ensures
            r is Some <==> spec_framework_selection(*self) is Some,
            r matches Some(s) ==> s@ == spec_framework_selection(*self)->Some_0.spec_label(),
    {
        if self.axum {
            Some("axum")
        } else if self.rocket {
            Some("rocket")
        } else if self.tide {
            Some("tide")
        } else {
            None
        }
    }

    /// The framework selected by the flags, if any.
    pub fn framework_selection(&self) -> (r: Option<Framework>)
        ensures
            r == spec_framework_selection(*self),
    {
        if self.axum {
            Some(Framework::Axum)
        } else if self.rocket {
            Some(Framework::Rocket)
        } else if self.tide {
            Some(Framework::Tide)
        } else {
            None
        }
    }

    /// Whether this invocation runs as a wizard (some prompt will be shown).
    pub fn interactive(&self) -> (r: bool)
        ensures
            r == spec_interactive(*self),
    {
        self.name.is_none() || self.framework_selection().is_none() || (self.new
            && self.api_key.is_none())
    }
}

/// With a name and a framework flag both present, and provisioning either not
/// requested or backed by a credential, the session is fully scripted.
pub proof fn lemma_scripted_session(a: Args)
    requires
        a.name is Some,
        spec_framework_selection(a) is Some,
        !a.new || a.api_key is Some,
    ensures
        !spec_interactive(a),
{
}

/// With the name missing, or the framework flag missing, or provisioning
/// requested without a credential, the session is interactive.
pub proof fn lemma_wizard_session(a: Args)
    requires
        a.name is None || spec_framework_selection(a) is None || (a.new && a.api_key is None),
    ensures
        spec_interactive(a),
{
}

} // verus!
