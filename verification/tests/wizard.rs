use onboard::args::{Args, Framework};
use onboard::resolver::{Action, ConfigError, Event, ResolvedPlan, Session};

fn s(text: &str) -> String {
    text.to_string()
}

fn empty_args() -> Args {
    Args {
        name: None,
        axum: false,
        rocket: false,
        tide: false,
        new: false,
        api_key: None,
        path: s("."),
    }
}

#[test]
fn interactivity_is_false_only_when_fully_scripted() {
    let mut a = empty_args();
    a.name = Some(s("blog"));
    a.axum = true;
    assert!(!a.interactive());

    let mut b = empty_args();
    b.name = Some(s("blog"));
    b.axum = true;
    b.new = true;
    b.api_key = Some(s("key"));
    assert!(!b.interactive());

    // missing name
    let mut c = empty_args();
    c.axum = true;
    assert!(c.interactive());

    // missing framework flag
    let mut d = empty_args();
    d.name = Some(s("blog"));
    assert!(d.interactive());

    // provisioning requested without a credential
    let mut e = empty_args();
    e.name = Some(s("blog"));
    e.tide = true;
    e.new = true;
    assert!(e.interactive());
}

#[test]
fn framework_flag_mapping() {
    let mut a = empty_args();
    assert_eq!(a.framework(), None);
    assert_eq!(a.framework_selection(), None);
    a.axum = true;
    assert_eq!(a.framework(), Some("axum"));
    assert_eq!(a.framework_selection(), Some(Framework::Axum));
    a.axum = false;
    a.rocket = true;
    assert_eq!(a.framework(), Some("rocket"));
    assert_eq!(a.framework_selection(), Some(Framework::Rocket));
    a.rocket = false;
    a.tide = true;
    assert_eq!(a.framework(), Some("tide"));
    assert_eq!(a.framework_selection(), Some(Framework::Tide));
}

#[test]
fn framework_menu_order_and_labels() {
    assert_eq!(Framework::from_index(0), Some(Framework::Axum));
    assert_eq!(Framework::from_index(1), Some(Framework::Rocket));
    assert_eq!(Framework::from_index(2), Some(Framework::Tide));
    assert_eq!(Framework::from_index(3), None);
    assert_eq!(Framework::Axum.label(), "axum");
    assert_eq!(Framework::Rocket.label(), "rocket");
    assert_eq!(Framework::Tide.label(), "tide");
}

#[test]
fn conflicting_framework_flags_are_rejected() {
    let mut a = empty_args();
    a.name = Some(s("blog"));
    a.axum = true;
    a.rocket = true;
    match Session::new(a) {
        Err(e) => {
            assert_eq!(e, ConfigError::ConflictingFrameworks);
            assert!(!e.message().is_empty());
        },
        Ok(_) => panic!("conflicting flags must be rejected"),
    }
}

#[test]
fn scripted_axum_run_without_provisioning() {
    // name and framework supplied, no provisioning request: fully scripted
    let mut a = empty_args();
    a.name = Some(s("blog"));
    a.axum = true;
    let mut session = Session::new(a).unwrap();
    assert!(!session.is_interactive());

    // no login, no name prompt, no framework prompt: straight to local init
    let act = session.on_event(Event::Start).unwrap();
    assert_eq!(
        act,
        Action::InitializeLocally {
            project_name: s("blog"),
            directory: s("blog"),
            framework: Framework::Axum,
        }
    );

    // `new` is false: no confirmation prompt and no provisioning call
    let act = session.on_event(Event::Initialized).unwrap();
    assert_eq!(
        act,
        Action::Finish {
            plan: ResolvedPlan {
                project_name: s("blog"),
                directory: s("blog"),
                framework: Framework::Axum,
                provision_environment: false,
            },
        }
    );

    // a finished session accepts nothing further
    assert_eq!(session.on_event(Event::Start), None);
}

#[test]
fn wizard_full_run_with_confirmed_provisioning() {
    // nothing supplied: every field is prompted for
    let mut session = Session::new(empty_args()).unwrap();
    assert!(session.is_interactive());

    assert_eq!(session.on_event(Event::Start).unwrap(), Action::PromptLogin);
    assert_eq!(session.on_event(Event::LoggedIn).unwrap(), Action::PromptName);
    assert_eq!(
        session.on_event(Event::NameEntered(s("myapp"))).unwrap(),
        Action::CheckAvailability { candidate: s("myapp") }
    );
    assert_eq!(
        session.on_event(Event::Availability(true)).unwrap(),
        Action::PromptDirectory { prefill: s("myapp") }
    );
    assert_eq!(
        session.on_event(Event::DirectoryEntered(s("myapp"))).unwrap(),
        Action::PromptFramework
    );
    let chosen = Framework::from_index(1).unwrap();
    assert_eq!(
        session.on_event(Event::FrameworkChosen(chosen)).unwrap(),
        Action::InitializeLocally {
            project_name: s("myapp"),
            directory: s("myapp"),
            framework: Framework::Rocket,
        }
    );
    assert_eq!(session.on_event(Event::Initialized).unwrap(), Action::ConfirmProvision);
    assert_eq!(
        session.on_event(Event::ProvisionAnswer(true)).unwrap(),
        Action::ProvisionEnvironment { project_name: s("myapp") }
    );
    assert_eq!(
        session.on_event(Event::Provisioned).unwrap(),
        Action::Finish {
            plan: ResolvedPlan {
                project_name: s("myapp"),
                directory: s("myapp"),
                framework: Framework::Rocket,
                provision_environment: true,
            },
        }
    );
}

#[test]
fn third_candidate_name_is_accepted() {
    let mut session = Session::new(empty_args()).unwrap();
    session.on_event(Event::Start).unwrap();
    assert_eq!(session.on_event(Event::LoggedIn).unwrap(), Action::PromptName);

    let mut checks: usize = 0;
    assert_eq!(
        session.on_event(Event::NameEntered(s("one"))).unwrap(),
        Action::CheckAvailability { candidate: s("one") }
    );
    checks += 1;
    assert_eq!(session.on_event(Event::Availability(false)).unwrap(), Action::RetryName);
    assert_eq!(
        session.on_event(Event::NameEntered(s("two"))).unwrap(),
        Action::CheckAvailability { candidate: s("two") }
    );
    checks += 1;
    assert_eq!(session.on_event(Event::Availability(false)).unwrap(), Action::RetryName);
    assert_eq!(
        session.on_event(Event::NameEntered(s("three"))).unwrap(),
        Action::CheckAvailability { candidate: s("three") }
    );
    checks += 1;

    // the third candidate is available: it becomes the project name, and the
    // directory prompt is pre-filled with it, byte for byte
    assert_eq!(
        session.on_event(Event::Availability(true)).unwrap(),
        Action::PromptDirectory { prefill: s("three") }
    );
    assert_eq!(checks, 3);
}

#[test]
fn directory_edit_is_kept_verbatim() {
    // interactive because the framework flag is missing; the name is given
    let mut a = empty_args();
    a.name = Some(s("blog"));
    let mut session = Session::new(a).unwrap();

    assert_eq!(session.on_event(Event::Start).unwrap(), Action::PromptLogin);
    // the supplied name skips the prompt and the availability check
    assert_eq!(
        session.on_event(Event::LoggedIn).unwrap(),
        Action::PromptDirectory { prefill: s("blog") }
    );
    // the operator's final text is accepted even though it differs
    assert_eq!(
        session.on_event(Event::DirectoryEntered(s("elsewhere"))).unwrap(),
        Action::PromptFramework
    );
    assert_eq!(
        session.on_event(Event::FrameworkChosen(Framework::Tide)).unwrap(),
        Action::InitializeLocally {
            project_name: s("blog"),
            directory: s("elsewhere"),
            framework: Framework::Tide,
        }
    );
}

#[test]
fn scripted_new_provisions_exactly_once() {
    let mut a = empty_args();
    a.name = Some(s("api"));
    a.rocket = true;
    a.new = true;
    a.api_key = Some(s("credential"));
    let mut session = Session::new(a).unwrap();
    assert!(!session.is_interactive());

    let mut provision_calls: usize = 0;
    assert_eq!(
        session.on_event(Event::Start).unwrap(),
        Action::InitializeLocally {
            project_name: s("api"),
            directory: s("api"),
            framework: Framework::Rocket,
        }
    );
    // no confirmation prompt: `new` decides directly
    assert_eq!(
        session.on_event(Event::Initialized).unwrap(),
        Action::ProvisionEnvironment { project_name: s("api") }
    );
    provision_calls += 1;
    assert_eq!(
        session.on_event(Event::Provisioned).unwrap(),
        Action::Finish {
            plan: ResolvedPlan {
                project_name: s("api"),
                directory: s("api"),
                framework: Framework::Rocket,
                provision_environment: true,
            },
        }
    );
    assert_eq!(provision_calls, 1);
    // the run is over: nothing further can trigger another call
    assert_eq!(session.on_event(Event::Provisioned), None);
}

#[test]
fn wizard_new_skips_confirmation_prompt() {
    // interactive because the framework flag is missing; `new` was given
    let mut a = empty_args();
    a.name = Some(s("shop"));
    a.new = true;
    a.api_key = Some(s("credential"));
    let mut session = Session::new(a).unwrap();
    assert!(session.is_interactive());

    assert_eq!(session.on_event(Event::Start).unwrap(), Action::PromptLogin);
    assert_eq!(
        session.on_event(Event::LoggedIn).unwrap(),
        Action::PromptDirectory { prefill: s("shop") }
    );
    assert_eq!(
        session.on_event(Event::DirectoryEntered(s("shop"))).unwrap(),
        Action::PromptFramework
    );
    assert_eq!(
        session.on_event(Event::FrameworkChosen(Framework::Axum)).unwrap(),
        Action::InitializeLocally {
            project_name: s("shop"),
            directory: s("shop"),
            framework: Framework::Axum,
        }
    );
    // provisioning was requested up front: no yes/no prompt, straight to the call
    assert_eq!(
        session.on_event(Event::Initialized).unwrap(),
        Action::ProvisionEnvironment { project_name: s("shop") }
    );
}

#[test]
fn wizard_declined_provisioning_finishes_without_call() {
    let mut a = empty_args();
    a.name = Some(s("blog"));
    let mut session = Session::new(a).unwrap();

    session.on_event(Event::Start).unwrap();
    session.on_event(Event::LoggedIn).unwrap();
    session.on_event(Event::DirectoryEntered(s("blog"))).unwrap();
    session.on_event(Event::FrameworkChosen(Framework::Axum)).unwrap();
    assert_eq!(session.on_event(Event::Initialized).unwrap(), Action::ConfirmProvision);
    assert_eq!(
        session.on_event(Event::ProvisionAnswer(false)).unwrap(),
        Action::Finish {
            plan: ResolvedPlan {
                project_name: s("blog"),
                directory: s("blog"),
                framework: Framework::Axum,
                provision_environment: false,
            },
        }
    );
}

#[test]
fn mismatched_event_is_refused_and_state_kept() {
    let mut session = Session::new(empty_args()).unwrap();
    assert_eq!(session.on_event(Event::Start).unwrap(), Action::PromptLogin);
    // the pending state awaits a login, not a directory
    assert_eq!(session.on_event(Event::DirectoryEntered(s("x"))), None);
    // the session is unchanged and still answers the right event
    assert_eq!(session.on_event(Event::LoggedIn).unwrap(), Action::PromptName);
}
