use object_lambda::handler::{
    next_action, Action, Event, Failure, GetObjectContext, Invocation, WriteTarget,
    SUCCESS_STATUS,
};

fn full_invocation() -> Invocation {
    Invocation {
        get_object_context: Some(GetObjectContext {
            input_s3_url: Some(String::from("https://example.com")),
            output_route: Some(String::from("output_route")),
            output_token: Some(String::from("output_token")),
        }),
    }
}

#[test]
fn success_status_is_200() {
    assert_eq!(SUCCESS_STATUS, 200);
}

#[test]
fn happy_path_runs_fetch_then_write_then_success() {
    let target = match next_action(Event::Invoked(full_invocation())) {
        Action::Fetch { url, target } => {
            assert_eq!(url, "https://example.com");
            assert_eq!(target.route, "output_route");
            assert_eq!(target.token, "output_token");
            target
        }
        _ => panic!("a fetch was expected"),
    };
    let target = match next_action(Event::Fetched { target, ok: true }) {
        Action::Write { target } => target,
        _ => panic!("a write was expected"),
    };
    assert_eq!(target.route, "output_route");
    assert_eq!(target.token, "output_token");
    match next_action(Event::Written { ok: true }) {
        Action::Succeed(response) => assert_eq!(response.status_code, 200),
        _ => panic!("success was expected"),
    }
}

#[test]
fn missing_context_is_configuration_missing() {
    let action = next_action(Event::Invoked(Invocation { get_object_context: None }));
    assert!(matches!(action, Action::Abort(Failure::ConfigurationMissing)));
}

#[test]
fn missing_field_is_configuration_missing() {
    for lacking in 0..3 {
        let mut invocation = full_invocation();
        let context = invocation.get_object_context.as_mut().unwrap();
        match lacking {
            0 => context.input_s3_url = None,
            1 => context.output_route = None,
            _ => context.output_token = None,
        }
        let action = next_action(Event::Invoked(invocation));
        assert!(matches!(action, Action::Abort(Failure::ConfigurationMissing)));
    }
}

#[test]
fn failed_fetch_asks_for_no_write() {
    let target = WriteTarget { route: String::from("r"), token: String::from("t") };
    let action = next_action(Event::Fetched { target, ok: false });
    assert!(matches!(action, Action::Abort(Failure::FetchFailure)));
}

#[test]
fn failed_write_is_sink_failure() {
    let action = next_action(Event::Written { ok: false });
    assert!(matches!(action, Action::Abort(Failure::SinkFailure)));
}

#[test]
fn one_invocation_asks_for_one_write() {
    let mut writes = 0;
    let mut event = Event::Invoked(full_invocation());
    loop {
        event = match next_action(event) {
            Action::Fetch { target, .. } => Event::Fetched { target, ok: true },
            Action::Write { .. } => {
                writes += 1;
                Event::Written { ok: true }
            }
            Action::Succeed(_) => break,
            Action::Abort(_) => panic!("the invocation was given up"),
        };
    }
    assert_eq!(writes, 1);
}
