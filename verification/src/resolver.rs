//! The flow resolver: a state machine that decides, field by field, whether
//! to use a supplied value or to ask the operator, and sequences the four
//! collaborator calls (authenticate, availability check, local
//! initialization, provisioning) in their fixed order.
//!
//! The library performs no input/output itself. The driver repeatedly calls
//! [`Session::on_event`]: each returned [`Action`] tells it which prompt to
//! show or which collaborator to call, and the outcome comes back as the
//! next [`Event`]. The transition relation is the spec function
//! [`spec_step`], which every run of [`Session::on_event`] is proved to
//! follow exactly.

use vstd::prelude::*;

use crate::args::{Args, Framework, flags_exclusive, spec_framework_selection, spec_interactive};

verus! {

/// The complete plan, fixed once resolution ends.
#[derive(Debug, PartialEq, Eq)]
pub struct ResolvedPlan {
    pub project_name: String,
    pub directory: String,
    pub framework: Framework,
    pub provision_environment: bool,
}

/// Rejected before any resolution begins.
#[derive(Clone, Copy, Debug, PartialEq, Eq, Structural)]
pub enum ConfigError {
    /// More than one of the mutually exclusive framework flags is set.
    ConflictingFrameworks,
}

impl ConfigError {
    /// A description suitable for the operator.
    pub fn message(&self) -> &'static str {
        "at most one of the framework flags may be set"
    }
}

/// What the driver reports back to the resolver.
#[derive(Debug, PartialEq, Eq)]
pub enum Event {
    /// The session begins.
    Start,
    /// The credential prompt was answered and the authenticate collaborator
    /// succeeded.
    LoggedIn,
    /// The operator entered a candidate project name.
    NameEntered(String),
    /// The availability-check collaborator answered for the pending
    /// candidate.
    Availability(bool),
    /// The operator settled the target directory.
    DirectoryEntered(String),
    /// The operator picked a framework from the menu.
    FrameworkChosen(Framework),
    /// The local-initialization collaborator succeeded.
    Initialized,
    /// The operator answered the provisioning confirmation.
    ProvisionAnswer(bool),
    /// The provisioning collaborator was invoked.
    Provisioned,
}

/// What the driver must do next.
#[derive(Debug, PartialEq, Eq)]
pub enum Action {
    /// Prompt for a credential (masked) and authenticate with it.
    PromptLogin,
    /// Prompt for a candidate project name.
    PromptName,
    /// Tell the operator the name is taken, then prompt for another one.
    RetryName,
    /// Ask the availability-check collaborator about this candidate.
    CheckAvailability { candidate: String },
    /// Prompt for the target directory, with `prefill` as the editable
    /// pre-filled text.
    PromptDirectory { prefill: String },
    /// Show the fuzzy-searchable framework menu (`axum`, `rocket`, `tide`,
    /// cursor starting on the first entry).
    PromptFramework,
    /// Invoke the local-initialization collaborator.
    InitializeLocally { project_name: String, directory: String, framework: Framework },
    /// Ask the yes/no provisioning confirmation, defaulting to yes.
    ConfirmProvision,
    /// Invoke the provisioning collaborator.
    ProvisionEnvironment { project_name: String },
    /// The run is complete; hand the plan back.
    Finish { plan: ResolvedPlan },
}

/// Where the session stands, between two driver calls.
#[derive(Debug, PartialEq, Eq)]
pub enum State {
    Start,
    AwaitCredential,
    AwaitName,
    AwaitAvailability { candidate: String },
    AwaitDirectory { name: String },
    AwaitFramework { name: String, directory: String },
    AwaitInit { name: String, directory: String, framework: Framework },
    AwaitProvisionAnswer { name: String, directory: String, framework: Framework },
    Provisioning { plan: ResolvedPlan },
    Done { plan: ResolvedPlan },
}

/// The project name has just been resolved: in a wizard session the
/// directory prompt comes next, pre-filled with that name; in a scripted
/// session the directory is the name itself.
pub open spec fn spec_after_name(a: Args, name: String) -> (State, Action) {
    if spec_interactive(a) {
        (State::AwaitDirectory { name }, Action::PromptDirectory { prefill: name })
    } else {
        spec_after_directory(a, name, name)
    }
}

/// The directory has been settled: a framework flag decides the framework,
/// else the menu is shown.
pub open spec fn spec_after_directory(a: Args, name: String, directory: String) -> (State, Action) {
    match spec_framework_selection(a) {
        Some(framework) => spec_after_framework(name, directory, framework),
        None => (State::AwaitFramework { name, directory }, Action::PromptFramework),
    }
}

/// Every field is resolved: local initialization always runs next.
pub open spec fn spec_after_framework(name: String, directory: String, framework: Framework) -> (
    State,
    Action,
) {
    (
        State::AwaitInit { name, directory, framework },
        Action::InitializeLocally { project_name: name, directory, framework },
    )
}

/// The provisioning decision came out positive.
pub open spec fn spec_provision(name: String, directory: String, framework: Framework) -> (
    State,
    Action,
) {
    (
        State::Provisioning {
            plan: ResolvedPlan {
                project_name: name,
                directory,
                framework,
                provision_environment: true,
            },
        },
        Action::ProvisionEnvironment { project_name: name },
    )
}

/// The provisioning decision came out negative: the run is complete.
pub open spec fn spec_skip_provision(name: String, directory: String, framework: Framework) -> (
    State,
    Action,
) {
    let plan = ResolvedPlan {
        project_name: name,
        directory,
        framework,
        provision_environment: false,
    };
    (State::Done { plan }, Action::Finish { plan })
}

/// Local initialization succeeded: decide provisioning. A scripted session
/// follows the `new` flag directly; a wizard session provisions without
/// asking when `new` was given, and otherwise asks for confirmation.
pub open spec fn spec_after_init(a: Args, name: String, directory: String, framework: Framework) -> (
    State,
    Action,
) {
    if !spec_interactive(a) {
        if a.new {
            spec_provision(name, directory, framework)
        } else {
            spec_skip_provision(name, directory, framework)
        }
    } else if a.new {
        spec_provision(name, directory, framework)
    } else {
        (State::AwaitProvisionAnswer { name, directory, framework }, Action::ConfirmProvision)
    }
}

/// The transition relation of the resolver: from the current state and the
/// event the driver reports, the next state and the next action — or `None`
/// for an event that does not answer the pending state.
pub open spec fn spec_step(a: Args, s: State, ev: Event) -> Option<(State, Action)> {
    match (s, ev) {
        (State::Start, Event::Start) => Some(
            if spec_interactive(a) {
                (State::AwaitCredential, Action::PromptLogin)
            } else {
                // a scripted session always carries a name
                spec_after_name(a, a.name->Some_0)
            },
        ),
        (State::AwaitCredential, Event::LoggedIn) => Some(
            match a.name {
                Some(name) => spec_after_name(a, name),
                None => (State::AwaitName, Action::PromptName),
            },
        ),
        (State::AwaitName, Event::NameEntered(name)) => Some(
            (State::AwaitAvailability { candidate: name }, Action::CheckAvailability {
                candidate: name,
            }),
        ),
        (State::AwaitAvailability { candidate }, Event::Availability(available)) => Some(
            if available {
                spec_after_name(a, candidate)
            } else {
                (State::AwaitName, Action::RetryName)
            },
        ),
        (State::AwaitDirectory { name }, Event::DirectoryEntered(directory)) => Some(
            spec_after_directory(a, name, directory),
        ),
        (State::AwaitFramework { name, directory }, Event::FrameworkChosen(framework)) => Some(
            spec_after_framework(name, directory, framework),
        ),
        (State::AwaitInit { name, directory, framework }, Event::Initialized) => Some(
            spec_after_init(a, name, directory, framework),
        ),
        (State::AwaitProvisionAnswer { name, directory, framework }, Event::ProvisionAnswer(yes)) => Some(
            if yes {
                spec_provision(name, directory, framework)
            } else {
                spec_skip_provision(name, directory, framework)
            },
        ),
        (State::Provisioning { plan }, Event::Provisioned) => Some(
            (State::Done { plan }, Action::Finish { plan }),
        ),
        _ => None,
    }
}

/// Whether `ev` answers the pending state.
pub open spec fn accepts(a: Args, s: State, ev: Event) -> bool {
    spec_step(a, s, ev) is Some
}

/// What a completed or committed plan must look like under the invocation
/// arguments: a scripted session takes name, directory and framework from
/// the arguments and provisions exactly when `new` was given; and `new`
/// always forces provisioning.
pub open spec fn plan_matches_args(a: Args, plan: ResolvedPlan) -> bool {
    &&& (!spec_interactive(a) ==> {
        &&& a.name == Some(plan.project_name)
        &&& plan.directory == plan.project_name
        &&& spec_framework_selection(a) == Some(plan.framework)
        &&& plan.provision_environment == a.new
    })
    &&& (a.new ==> plan.provision_environment)
}

/// The states the resolver can actually reach under the invocation
/// arguments `a`; established at the start and preserved by every step.
pub open spec fn state_inv(a: Args, s: State) -> bool {
    match s {
        State::Start => true,
        State::AwaitCredential => spec_interactive(a),
        State::AwaitName => a.name is None,
        State::AwaitAvailability { .. } => a.name is None,
        State::AwaitDirectory { .. } => spec_interactive(a),
        State::AwaitFramework { .. } => spec_framework_selection(a) is None,
        State::AwaitInit { name, directory, framework } => !spec_interactive(a) ==> a.name == Some(
            name,
        ) && directory == name && spec_framework_selection(a) == Some(framework),
        State::AwaitProvisionAnswer { .. } => spec_interactive(a) && !a.new,
        State::Provisioning { plan } => plan.provision_environment && plan_matches_args(a, plan),
        State::Done { plan } => plan_matches_args(a, plan),
    }
}

/// Every step taken from a reachable state lands in a reachable state.
pub proof fn lemma_step_preserves_inv(a: Args, s: State, ev: Event)
    requires
        state_inv(a, s),
        accepts(a, s, ev),
    ensures
        state_inv(a, spec_step(a, s, ev)->Some_0.0),
{
}

/// An in-progress resolution. Created from the invocation arguments, then
/// driven by [`Session::on_event`] until it hands back [`Action::Finish`].
pub struct Session {
    args: Args,
    interactive: bool,
    st: State,
}

impl Session {
    /// The invocation arguments the session was created from.
    pub closed spec fn spec_args(self) -> Args {
        self.args
    }

    /// The current state of the resolution.
    pub closed spec fn spec_state(self) -> State {
        self.st
    }

    /// Established by [`Session::new`] and preserved by every method: the
    /// cached interactivity decision agrees with the arguments, the
    /// framework flags are exclusive, and the state is reachable.
    pub closed spec fn wf(self) -> bool {
        &&& self.interactive == spec_interactive(self.args)
        &&& flags_exclusive(self.args)
        &&& state_inv(self.args, self.st)
    }

    /// Starts a session: rejects conflicting framework flags, otherwise
    /// fixes the interactivity decision once and for all and stands at the
    /// initial state, waiting for [`Event::Start`].
    pub fn new(args: Args) -> (r: Result<Session, ConfigError>)
        ensures
            r is Ok <==> flags_exclusive(args),
            r matches Ok(session) ==> session.wf() && session.spec_args() == args
                && session.spec_state() == State::Start,
            r matches Err(e) ==> e == ConfigError::ConflictingFrameworks,
    {
        if (args.axum && args.rocket) || (args.axum && args.tide) || (args.rocket && args.tide) {
            Err(ConfigError::ConflictingFrameworks)
        } else {
            let interactive = args.interactive();
            Ok(Session { args, interactive, st: State::Start })
        }
    }

    /// Whether the session is interactive (fixed at creation).
    pub fn is_interactive(&self) -> (r: bool)
        requires
            self.wf(),
        ensures
            r == spec_interactive(self.spec_args()),
    {
        self.interactive
    }

    /// Feeds the outcome of the previous action back in and returns what to
    /// do next; `None` for an event that does not answer the pending state,
    /// which leaves the session unchanged.
    pub fn on_event(&mut self, ev: Event) -> (r: Option<Action>)
        requires
            old(self).wf(),
        ensures
            final(self).wf(),
            final(self).spec_args() == old(self).spec_args(),
            r is Some <==> accepts(old(self).spec_args(), old(self).spec_state(), ev),
            r matches Some(act) ==> Some((final(self).spec_state(), act)) == spec_step(
                old(self).spec_args(),
                old(self).spec_state(),
                ev,
            ),
            r is None ==> final(self).spec_state() == old(self).spec_state(),
    {
        let mut prev = State::Start;
        core::mem::swap(&mut prev, &mut self.st);
        let stepped: (State, Action) = match (prev, ev) {
            (State::Start, Event::Start) => {
                if self.interactive {
                    (State::AwaitCredential, Action::PromptLogin)
                } else {
                    match &self.args.name {
                        Some(name) => step_after_name(&self.args, self.interactive, name.clone()),
                        None => {
                            // unreachable: a scripted session always carries a name
                            self.st = State::Start;
                            return None;
                        },
                    }
                }
            },
            (State::AwaitCredential, Event::LoggedIn) => {
                match &self.args.name {
                    Some(name) => step_after_name(&self.args, self.interactive, name.clone()),
                    None => (State::AwaitName, Action::PromptName),
                }
            },
            (State::AwaitName, Event::NameEntered(name)) => {
                let candidate = name.clone();
                (State::AwaitAvailability { candidate }, Action::CheckAvailability {
                    candidate: name,
                })
            },
            (State::AwaitAvailability { candidate }, Event::Availability(available)) => {
                if available {
                    step_after_name(&self.args, self.interactive, candidate)
                } else {
                    (State::AwaitName, Action::RetryName)
                }
            },
            (State::AwaitDirectory { name }, Event::DirectoryEntered(directory)) => {
                step_after_directory(&self.args, name, directory)
            },
            (State::AwaitFramework { name, directory }, Event::FrameworkChosen(framework)) => {
                step_after_framework(name, directory, framework)
            },
            (State::AwaitInit { name, directory, framework }, Event::Initialized) => {
                step_after_init(&self.args, self.interactive, name, directory, framework)
            },
            (
                State::AwaitProvisionAnswer { name, directory, framework },
                Event::ProvisionAnswer(yes),
            ) => {
                if yes {
                    step_provision(name, directory, framework)
                } else {
                    step_skip_provision(name, directory, framework)
                }
            },
            (State::Provisioning { plan }, Event::Provisioned) => {
                let done_plan = ResolvedPlan {
                    project_name: plan.project_name.clone(),
                    directory: plan.directory.clone(),
                    framework: plan.framework,
                    provision_environment: plan.provision_environment,
                };
                (State::Done { plan: done_plan }, Action::Finish { plan })
            },
            (other, _) => {
                self.st = other;
                return None;
            },
        };
        proof {
            lemma_step_preserves_inv(self.args, old(self).st, ev);
        }
        let (next, act) = stepped;
        self.st = next;
        Some(act)
    }
}

fn step_after_name(args: &Args, interactive: bool, name: String) -> (r: (State, Action))
    requires
        interactive == spec_interactive(*args),
    ensures
        r == spec_after_name(*args, name),
{
    if interactive {
        let prefill = name.clone();
        (State::AwaitDirectory { name }, Action::PromptDirectory { prefill })
    } else {
        let directory = name.clone();
        step_after_directory(args, name, directory)
    }
}

fn step_after_directory(args: &Args, name: String, directory: String) -> (r: (State, Action))
    ensures
        r == spec_after_directory(*args, name, directory),
{
    match args.framework_selection() {
        Some(framework) => step_after_framework(name, directory, framework),
        None => (State::AwaitFramework { name, directory }, Action::PromptFramework),
    }
}

fn step_after_framework(name: String, directory: String, framework: Framework) -> (r: (
    State,
    Action,
))
    ensures
        r == spec_after_framework(name, directory, framework),
{
    let project_name = name.clone();
    let action_directory = directory.clone();
    (
        State::AwaitInit { name, directory, framework },
        Action::InitializeLocally { project_name, directory: action_directory, framework },
    )
}

fn step_after_init(
    args: &Args,
    interactive: bool,
    name: String,
    directory: String,
    framework: Framework,
) -> (r: (State, Action))
    requires
        interactive == spec_interactive(*args),
    ensures
        r == spec_after_init(*args, name, directory, framework),
{
    if !interactive {
        if args.new {
            step_provision(name, directory, framework)
        } else {
            step_skip_provision(name, directory, framework)
        }
    } else if args.new {
        step_provision(name, directory, framework)
    } else {
        (State::AwaitProvisionAnswer { name, directory, framework }, Action::ConfirmProvision)
    }
}

fn step_provision(name: String, directory: String, framework: Framework) -> (r: (State, Action))
    ensures
        r == spec_provision(name, directory, framework),
{
    let project_name = name.clone();
    (
        State::Provisioning {
            plan: ResolvedPlan {
                project_name: name,
                directory,
                framework,
                provision_environment: true,
            },
        },
        Action::ProvisionEnvironment { project_name },
    )
}

fn step_skip_provision(name: String, directory: String, framework: Framework) -> (r: (
    State,
    Action,
))
    ensures
        r == spec_skip_provision(name, directory, framework),
{
    let state_plan = ResolvedPlan {
        project_name: name.clone(),
        directory: directory.clone(),
        framework,
        provision_environment: false,
    };
    let action_plan = ResolvedPlan {
        project_name: name,
        directory,
        framework,
        provision_environment: false,
    };
    (State::Done { plan: state_plan }, Action::Finish { plan: action_plan })
}

} // verus!
