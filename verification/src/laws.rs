//! Laws of whole runs of the resolver: which collaborator calls a run can
//! hand out, how often, and with which values, stated over sequences of
//! events and proved by induction over [`spec_run`].

use vstd::prelude::*;

use crate::args::{Args, spec_interactive};
use crate::resolver::{
    Action, Event, ResolvedPlan, State, accepts, lemma_step_preserves_inv, plan_matches_args,
    spec_step, state_inv,
};

verus! {

/// The result of driving the resolver from `s` through the events `evs` in
/// order: the state it ends in and the actions it hands out along the way,
/// or `None` if some event does not answer its state.
pub open spec fn spec_run(a: Args, s: State, evs: Seq<Event>) -> Option<(State, Seq<Action>)>
    decreases evs.len(),
{
    if evs.len() == 0 {
        Some((s, Seq::empty()))
    } else {
        match spec_step(a, s, evs.first()) {
            Some(step) => match spec_run(a, step.0, evs.drop_first()) {
                Some(rest) => Some((rest.0, seq![step.1] + rest.1)),
                None => None,
            },
            None => None,
        }
    }
}

/// How often a run asked for the provisioning collaborator.
pub open spec fn count_provision_calls(acts: Seq<Action>) -> nat
    decreases acts.len(),
{
    if acts.len() == 0 {
        0
    } else {
        (if acts.first() is ProvisionEnvironment {
            1nat
        } else {
            0nat
        }) + count_provision_calls(acts.drop_first())
    }
}

/// How often a run showed the provisioning confirmation prompt.
pub open spec fn count_confirm_prompts(acts: Seq<Action>) -> nat
    decreases acts.len(),
{
    if acts.len() == 0 {
        0
    } else {
        (if acts.first() is ConfirmProvision {
            1nat
        } else {
            0nat
        }) + count_confirm_prompts(acts.drop_first())
    }
}

/// How often a run asked the availability-check collaborator.
pub open spec fn count_availability_checks(acts: Seq<Action>) -> nat
    decreases acts.len(),
{
    if acts.len() == 0 {
        0
    } else {
        (if acts.first() is CheckAvailability {
            1nat
        } else {
            0nat
        }) + count_availability_checks(acts.drop_first())
    }
}

proof fn lemma_count_provision_prepend(x: Action, acts: Seq<Action>)
    ensures
        count_provision_calls(seq![x] + acts) == (if x is ProvisionEnvironment {
            1nat
        } else {
            0nat
        }) + count_provision_calls(acts),
{
    assert((seq![x] + acts).first() == x);
    assert((seq![x] + acts).drop_first() =~= acts);
}

proof fn lemma_count_confirm_prepend(x: Action, acts: Seq<Action>)
    ensures
        count_confirm_prompts(seq![x] + acts) == (if x is ConfirmProvision {
            1nat
        } else {
            0nat
        }) + count_confirm_prompts(acts),
{
    assert((seq![x] + acts).first() == x);
    assert((seq![x] + acts).drop_first() =~= acts);
}

proof fn lemma_count_availability_prepend(x: Action, acts: Seq<Action>)
    ensures
        count_availability_checks(seq![x] + acts) == (if x is CheckAvailability {
            1nat
        } else {
            0nat
        }) + count_availability_checks(acts),
{
    assert((seq![x] + acts).first() == x);
    assert((seq![x] + acts).drop_first() =~= acts);
}

/// `1` once the run has committed to provisioning (or finished having
/// provisioned), else `0`.
pub open spec fn provision_progress(s: State) -> nat {
    match s {
        State::Provisioning { .. } => 1,
        State::Done { plan } => if plan.provision_environment {
            1nat
        } else {
            0nat
        },
        _ => 0,
    }
}

/// A single step asks for the provisioning collaborator exactly when it
/// commits the run to provisioning.
proof fn lemma_step_provision_delta(a: Args, s: State, ev: Event)
    requires
        state_inv(a, s),
        accepts(a, s, ev),
    ensures
        ({
            let step = spec_step(a, s, ev)->Some_0;
            provision_progress(step.0) == provision_progress(s) + (
            if step.1 is ProvisionEnvironment {
                1nat
            } else {
                0nat
            })
        }),
{
}

/// A reachable state stays reachable along a whole run.
pub proof fn lemma_run_preserves_inv(a: Args, s: State, evs: Seq<Event>)
    requires
        state_inv(a, s),
        spec_run(a, s, evs) is Some,
    ensures
        state_inv(a, spec_run(a, s, evs)->Some_0.0),
    decreases evs.len(),
{
    if evs.len() > 0 {
        lemma_step_preserves_inv(a, s, evs.first());
        lemma_run_preserves_inv(a, spec_step(a, s, evs.first())->Some_0.0, evs.drop_first());
    }
}

/// Along a whole run, the number of provisioning calls is the progress the
/// run made towards provisioning: such a call happens exactly when the run
/// commits, so there is never more than one.
pub proof fn lemma_run_provision_count(a: Args, s: State, evs: Seq<Event>)
    requires
        state_inv(a, s),
        spec_run(a, s, evs) is Some,
    ensures
        ({
            let r = spec_run(a, s, evs)->Some_0;
            provision_progress(r.0) == provision_progress(s) + count_provision_calls(r.1)
        }),
    decreases evs.len(),
{
    if evs.len() == 0 {
    } else {
        let step = spec_step(a, s, evs.first())->Some_0;
        lemma_step_provision_delta(a, s, evs.first());
        lemma_step_preserves_inv(a, s, evs.first());
        lemma_run_provision_count(a, step.0, evs.drop_first());
        lemma_count_provision_prepend(step.1, spec_run(a, step.0, evs.drop_first())->Some_0.1);
    }
}

/// The plan a run has committed to, if any.
pub open spec fn committed_plan(s: State) -> Option<ResolvedPlan> {
    match s {
        State::Provisioning { plan } => Some(plan),
        State::Done { plan } => Some(plan),
        _ => None,
    }
}

/// Once committed, the plan never changes for the rest of the run.
pub proof fn lemma_run_plan_stable(a: Args, s: State, evs: Seq<Event>)
    requires
        spec_run(a, s, evs) is Some,
        committed_plan(s) is Some,
    ensures
        committed_plan(spec_run(a, s, evs)->Some_0.0) == committed_plan(s),
    decreases evs.len(),
{
    if evs.len() > 0 {
        lemma_run_plan_stable(a, spec_step(a, s, evs.first())->Some_0.0, evs.drop_first());
    }
}

/// A run that ends committed to provisioning asked for the provisioning
/// collaborator with exactly the committed plan's project name.
pub proof fn lemma_run_provision_target(a: Args, s: State, evs: Seq<Event>)
    requires
        spec_run(a, s, evs) is Some,
        committed_plan(s) is None,
        committed_plan(spec_run(a, s, evs)->Some_0.0) matches Some(plan)
            && plan.provision_environment,
    ensures
        ({
            let r = spec_run(a, s, evs)->Some_0;
            r.1.contains(
                (Action::ProvisionEnvironment {
                    project_name: committed_plan(r.0)->Some_0.project_name,
                }),
            )
        }),
    decreases evs.len(),
{
    let r = spec_run(a, s, evs)->Some_0;
    let step = spec_step(a, s, evs.first())->Some_0;
    let rest = spec_run(a, step.0, evs.drop_first())->Some_0;
    if committed_plan(step.0) is Some {
        lemma_run_plan_stable(a, step.0, evs.drop_first());
        assert(step.1 == (Action::ProvisionEnvironment {
            project_name: committed_plan(r.0)->Some_0.project_name,
        }));
        assert(r.1[0] == step.1);
    } else {
        lemma_run_provision_target(a, step.0, evs.drop_first());
        let i = choose|i: int|
            0 <= i < rest.1.len() && rest.1[i] == (Action::ProvisionEnvironment {
                project_name: committed_plan(r.0)->Some_0.project_name,
            });
        assert(r.1[i + 1] == rest.1[i]);
    }
}

/// Law: a scripted session that does not request provisioning never invokes
/// the provisioning collaborator, whatever the run's events are.
pub proof fn lemma_scripted_never_provisions(a: Args, evs: Seq<Event>)
    requires
        !spec_interactive(a),
        !a.new,
        spec_run(a, State::Start, evs) is Some,
    ensures
        count_provision_calls(spec_run(a, State::Start, evs)->Some_0.1) == 0,
{
    lemma_run_preserves_inv(a, State::Start, evs);
    lemma_run_provision_count(a, State::Start, evs);
}

/// Law: a scripted session that requests provisioning and runs to
/// completion invokes the provisioning collaborator exactly once, with the
/// supplied project name (the completed plan's name, which equals
/// `args.name`).
pub proof fn lemma_scripted_provisions_once(a: Args, evs: Seq<Event>)
    requires
        !spec_interactive(a),
        a.new,
        spec_run(a, State::Start, evs) is Some,
        spec_run(a, State::Start, evs)->Some_0.0 is Done,
    ensures
        ({
            let r = spec_run(a, State::Start, evs)->Some_0;
            &&& count_provision_calls(r.1) == 1
            &&& r.0 matches State::Done { plan } && plan.provision_environment
                && plan_matches_args(a, plan) && a.name == Some(plan.project_name)
                && r.1.contains((Action::ProvisionEnvironment { project_name: plan.project_name }))
        }),
{
    lemma_run_preserves_inv(a, State::Start, evs);
    lemma_run_provision_count(a, State::Start, evs);
    lemma_run_provision_target(a, State::Start, evs);
}

/// A step of a run that requested provisioning up front never shows the
/// confirmation prompt.
pub proof fn lemma_run_no_confirmation(a: Args, s: State, evs: Seq<Event>)
    requires
        a.new,
        spec_run(a, s, evs) is Some,
    ensures
        count_confirm_prompts(spec_run(a, s, evs)->Some_0.1) == 0,
    decreases evs.len(),
{
    if evs.len() > 0 {
        let step = spec_step(a, s, evs.first())->Some_0;
        lemma_run_no_confirmation(a, step.0, evs.drop_first());
        lemma_count_confirm_prepend(step.1, spec_run(a, step.0, evs.drop_first())->Some_0.1);
    }
}

/// Law: when provisioning was requested up front, the confirmation prompt
/// is never shown, and a run that completes invokes the provisioning
/// collaborator (exactly once). This holds for wizard sessions as well as
/// scripted ones.
pub proof fn lemma_requested_provision_skips_confirmation(a: Args, evs: Seq<Event>)
    requires
        a.new,
        spec_run(a, State::Start, evs) is Some,
    ensures
        count_confirm_prompts(spec_run(a, State::Start, evs)->Some_0.1) == 0,
        spec_run(a, State::Start, evs)->Some_0.0 is Done ==> count_provision_calls(
            spec_run(a, State::Start, evs)->Some_0.1,
        ) == 1,
{
    lemma_run_no_confirmation(a, State::Start, evs);
    lemma_run_preserves_inv(a, State::Start, evs);
    lemma_run_provision_count(a, State::Start, evs);
}

/// Whether an action puts a question to the operator, as opposed to calling
/// a collaborator or finishing.
pub open spec fn is_prompt(act: Action) -> bool {
    match act {
        Action::PromptLogin => true,
        Action::PromptName => true,
        Action::RetryName => true,
        Action::PromptDirectory { .. } => true,
        Action::PromptFramework => true,
        Action::ConfirmProvision => true,
        _ => false,
    }
}

/// Law: a scripted session never puts a question to the operator: every
/// action of such a run is a collaborator call or the finish.
pub proof fn lemma_scripted_run_shows_no_prompts(a: Args, evs: Seq<Event>)
    requires
        !spec_interactive(a),
        spec_run(a, State::Start, evs) is Some,
    ensures
        forall|i: int|
            0 <= i < spec_run(a, State::Start, evs)->Some_0.1.len() ==> !is_prompt(
                #[trigger] spec_run(a, State::Start, evs)->Some_0.1[i],
            ),
{
    lemma_run_no_prompts(a, State::Start, evs);
}

proof fn lemma_run_no_prompts(a: Args, s: State, evs: Seq<Event>)
    requires
        !spec_interactive(a),
        state_inv(a, s),
        spec_run(a, s, evs) is Some,
    ensures
        forall|i: int|
            0 <= i < spec_run(a, s, evs)->Some_0.1.len() ==> !is_prompt(
                #[trigger] spec_run(a, s, evs)->Some_0.1[i],
            ),
    decreases evs.len(),
{
    if evs.len() > 0 {
        let step = spec_step(a, s, evs.first())->Some_0;
        lemma_step_preserves_inv(a, s, evs.first());
        lemma_run_no_prompts(a, step.0, evs.drop_first());
        let rest = spec_run(a, step.0, evs.drop_first())->Some_0;
        assert(!is_prompt(step.1));
        assert forall|i: int|
            0 <= i < spec_run(a, s, evs)->Some_0.1.len() implies !is_prompt(
            spec_run(a, s, evs)->Some_0.1[i],
        ) by {
            if i == 0 {
                assert(spec_run(a, s, evs)->Some_0.1[0] == step.1);
            } else {
                assert(spec_run(a, s, evs)->Some_0.1[i] == rest.1[i - 1]);
            }
        }
    }
}

/// Law: whenever the resolver asks for the target directory, the prompt's
/// pre-filled text is exactly the just-resolved project name, which the
/// next state retains verbatim.
pub proof fn lemma_directory_prefill_is_project_name(a: Args, s: State, ev: Event)
    requires
        accepts(a, s, ev),
    ensures
        ({
            let step = spec_step(a, s, ev)->Some_0;
            step.1 matches Action::PromptDirectory { prefill } ==> step.0 == (
            State::AwaitDirectory { name: prefill })
        }),
{
}

/// Law: with the operator's first two candidate names taken and the third
/// available, the availability check runs exactly three times, the third
/// candidate becomes the project name, and the directory prompt comes next,
/// pre-filled with it.
pub proof fn lemma_third_candidate_accepted(a: Args, n1: String, n2: String, n3: String)
    requires
        a.name is None,
    ensures
        ({
            let evs = seq![
                Event::NameEntered(n1),
                Event::Availability(false),
                Event::NameEntered(n2),
                Event::Availability(false),
                Event::NameEntered(n3),
                Event::Availability(true),
            ];
            let r = spec_run(a, State::AwaitName, evs);
            &&& r is Some
            &&& r->Some_0.0 == (State::AwaitDirectory { name: n3 })
            &&& count_availability_checks(r->Some_0.1) == 3
            &&& r->Some_0.1 =~= seq![
                (Action::CheckAvailability { candidate: n1 }),
                Action::RetryName,
                (Action::CheckAvailability { candidate: n2 }),
                Action::RetryName,
                (Action::CheckAvailability { candidate: n3 }),
                (Action::PromptDirectory { prefill: n3 }),
            ]
        }),
{
    let evs = seq![
        Event::NameEntered(n1),
        Event::Availability(false),
        Event::NameEntered(n2),
        Event::Availability(false),
        Event::NameEntered(n3),
        Event::Availability(true),
    ];
    let e1 = seq![
        Event::Availability(false),
        Event::NameEntered(n2),
        Event::Availability(false),
        Event::NameEntered(n3),
        Event::Availability(true),
    ];
    let e2 = seq![
        Event::NameEntered(n2),
        Event::Availability(false),
        Event::NameEntered(n3),
        Event::Availability(true),
    ];
    let e3 = seq![Event::Availability(false), Event::NameEntered(n3), Event::Availability(true)];
    let e4 = seq![Event::NameEntered(n3), Event::Availability(true)];
    let e5 = seq![Event::Availability(true)];
    let e6 = Seq::<Event>::empty();
    assert(evs.drop_first() =~= e1);
    assert(e1.drop_first() =~= e2);
    assert(e2.drop_first() =~= e3);
    assert(e3.drop_first() =~= e4);
    assert(e4.drop_first() =~= e5);
    assert(e5.drop_first() =~= e6);

    let s0 = State::AwaitName;
    let s1 = State::AwaitAvailability { candidate: n1 };
    let s3 = State::AwaitAvailability { candidate: n2 };
    let s5 = State::AwaitAvailability { candidate: n3 };
    let s6 = State::AwaitDirectory { name: n3 };
    let act0 = Action::CheckAvailability { candidate: n1 };
    let act2 = Action::CheckAvailability { candidate: n2 };
    let act4 = Action::CheckAvailability { candidate: n3 };
    let act5 = Action::PromptDirectory { prefill: n3 };

    let r6 = spec_run(a, s6, e6);
    assert(r6 == Some((s6, Seq::<Action>::empty())));
    let acts5 = seq![act5] + Seq::<Action>::empty();
    assert(spec_run(a, s5, e5) == Some((s6, acts5)));
    let acts4 = seq![act4] + acts5;
    assert(spec_run(a, s0, e4) == Some((s6, acts4)));
    let acts3 = seq![Action::RetryName] + acts4;
    assert(spec_run(a, s3, e3) == Some((s6, acts3)));
    let acts2 = seq![act2] + acts3;
    assert(spec_run(a, s0, e2) == Some((s6, acts2)));
    let acts1 = seq![Action::RetryName] + acts2;
    assert(spec_run(a, s1, e1) == Some((s6, acts1)));
    let acts0 = seq![act0] + acts1;
    assert(spec_run(a, s0, evs) == Some((s6, acts0)));

    lemma_count_availability_prepend(act5, Seq::<Action>::empty());
    lemma_count_availability_prepend(act4, acts5);
    lemma_count_availability_prepend(Action::RetryName, acts4);
    lemma_count_availability_prepend(act2, acts3);
    lemma_count_availability_prepend(Action::RetryName, acts2);
    lemma_count_availability_prepend(act0, acts1);

    assert(acts0 =~= seq![
        (Action::CheckAvailability { candidate: n1 }),
        Action::RetryName,
        (Action::CheckAvailability { candidate: n2 }),
        Action::RetryName,
        (Action::CheckAvailability { candidate: n3 }),
        (Action::PromptDirectory { prefill: n3 }),
    ]);
}

} // verus!
