use sagoin::auth::negotiation_request;
use sagoin::config::Config;
use sagoin::error::Error;
use sagoin::hook::HookStatus;
use sagoin::props::PropMap;
use sagoin::state::State;
use sagoin::submit::{
    payload_fields, sufficient, Action, Event, HttpOutcome, Phase, Submission,
};

fn map(pairs: &[(&str, &str)]) -> PropMap {
    let mut m = PropMap::new();
    for (k, v) in pairs {
        m.insert(k.to_string(), v.to_string());
    }
    m
}

fn project() -> PropMap {
    map(&[
        ("authentication.type", "ldap"),
        ("baseURL", "https://submit.example.edu"),
        ("courseKey", "ck1"),
        ("projectNumber", "p3"),
        ("submitURL", "https://submit.example.edu/eclipse/SubmitProjectViaEclipse"),
    ])
}

fn config() -> Config {
    Config {
        dir: None,
        no_submit: false,
        list_files: false,
        info: false,
        open: false,
        time_format: String::new(),
        username: None,
        password: None,
        pre_submit_hook: None,
        post_submit_hook: None,
        client_name: "sagoin".to_string(),
        client_version: "0.1.0".to_string(),
    }
}

fn cached() -> PropMap {
    map(&[("oneTimePassword", "x"), ("classAccount", "y")])
}

fn step(state: &mut State, sub: &mut Submission, props: &PropMap, cfg: &Config, e: Event) -> Action {
    assert!(sub.accepts(&e), "event {:?} not awaited in {:?}", e, sub.phase);
    state.advance(sub, props, cfg, e)
}

/// Runs one negotiation from `ResolveCredentials` until the next send.
fn negotiate(state: &mut State, sub: &mut Submission, props: &PropMap, cfg: &Config) -> Action {
    let a = step(state, sub, props, cfg, Event::Credentials("alice".into(), "pw".into()));
    assert!(matches!(a, Action::Negotiate(_)));
    let answer = b"oneTimePassword=fresh\nclassAccount=y\n".to_vec();
    let a = step(state, sub, props, cfg, Event::NegotiationAnswer(Ok(answer.clone())));
    assert!(matches!(&a, Action::PersistCache(b) if *b == answer));
    step(state, sub, props, cfg, Event::CacheWritten(Ok(())))
}

#[test]
fn sufficiency_predicate() {
    assert!(sufficient(&map(&[("oneTimePassword", "x"), ("classAccount", "y")])));
    assert!(sufficient(&map(&[("oneTimePassword", "x"), ("cvsAccount", "y")])));
    assert!(!sufficient(&map(&[("oneTimePassword", "x")])));
    assert!(!sufficient(&map(&[("classAccount", "y")])));
    assert!(!sufficient(&PropMap::new()));
}

#[test]
fn retry_after_500_then_success() {
    let mut state = State::buffer();
    let props = project();
    let cfg = config();
    let (mut sub, a) = state.submit(cached(), &props, &cfg);
    assert!(matches!(a, Action::Send { .. }));
    let mut negotiations = 0;
    let a = step(
        &mut state,
        &mut sub,
        &props,
        &cfg,
        Event::Response(HttpOutcome::Status(500, Some("busy".into()))),
    );
    assert!(matches!(a, Action::ResolveCredentials));
    negotiations += 1;
    let a = negotiate(&mut state, &mut sub, &props, &cfg);
    assert!(matches!(a, Action::Send { .. }));
    let a = step(
        &mut state,
        &mut sub,
        &props,
        &cfg,
        Event::Response(HttpOutcome::Success(Some("Accepted\n".into()))),
    );
    assert!(matches!(a, Action::Finish(Ok(()))));
    assert_eq!(negotiations, 1);
    assert_eq!(sub.phase, Phase::Done);
    assert_eq!(
        state.out,
        "Warning: Status code 500\nWarning: busy\nAuthenticating with ldap\nAccepted\n"
    );
    assert_eq!(sub.user.get("oneTimePassword"), Some(&"fresh".to_string()));
}

#[test]
fn two_500s_end_after_one_retry() {
    let mut state = State::buffer();
    let props = project();
    let cfg = config();
    let (mut sub, _) = state.submit(cached(), &props, &cfg);
    let a = step(
        &mut state,
        &mut sub,
        &props,
        &cfg,
        Event::Response(HttpOutcome::Status(500, None)),
    );
    assert!(matches!(a, Action::ResolveCredentials));
    let a = negotiate(&mut state, &mut sub, &props, &cfg);
    assert!(matches!(a, Action::Send { .. }));
    let a = step(
        &mut state,
        &mut sub,
        &props,
        &cfg,
        Event::Response(HttpOutcome::Status(500, Some("still down  \n".into()))),
    );
    assert!(matches!(
        a,
        Action::Finish(Err(Error::ServerStatus { code: 500, body: Some(ref b) })) if b == "still down"
    ));
    assert_eq!(sub.phase, Phase::Failed);
    assert!(!sub.accepts(&Event::Response(HttpOutcome::Success(None))));
}

#[test]
fn no_retry_after_initial_negotiation() {
    let mut state = State::buffer();
    let props = project();
    let cfg = config();
    let (mut sub, a) = state.submit(PropMap::new(), &props, &cfg);
    assert!(matches!(a, Action::ResolveCredentials));
    assert_eq!(state.out, "Authenticating with ldap\n");
    let a = negotiate(&mut state, &mut sub, &props, &cfg);
    assert!(matches!(a, Action::Send { .. }));
    let a = step(
        &mut state,
        &mut sub,
        &props,
        &cfg,
        Event::Response(HttpOutcome::Status(500, None)),
    );
    assert!(matches!(a, Action::Finish(Err(Error::ServerStatus { code: 500, body: None }))));
}

#[test]
fn other_status_is_terminal() {
    let mut state = State::buffer();
    let props = project();
    let cfg = config();
    let (mut sub, _) = state.submit(cached(), &props, &cfg);
    let a = step(
        &mut state,
        &mut sub,
        &props,
        &cfg,
        Event::Response(HttpOutcome::Status(403, Some("denied\r\n".into()))),
    );
    assert!(matches!(
        a,
        Action::Finish(Err(Error::ServerStatus { code: 403, body: Some(ref b) })) if b == "denied"
    ));
}

#[test]
fn transport_error_is_terminal() {
    let mut state = State::buffer();
    let props = project();
    let cfg = config();
    let (mut sub, _) = state.submit(cached(), &props, &cfg);
    let a = step(
        &mut state,
        &mut sub,
        &props,
        &cfg,
        Event::Response(HttpOutcome::Transport("connection refused".into())),
    );
    assert!(matches!(a, Action::Finish(Err(Error::Transport(ref m))) if m == "connection refused"));
}

#[test]
fn success_without_body() {
    let mut state = State::buffer();
    let props = project();
    let cfg = config();
    let (mut sub, _) = state.submit(cached(), &props, &cfg);
    let a = step(&mut state, &mut sub, &props, &cfg, Event::Response(HttpOutcome::Success(None)));
    assert!(matches!(a, Action::Finish(Ok(()))));
    assert_eq!(state.out, "Successful submission received\n");
}

#[test]
fn failed_pre_hook_prevents_requests() {
    let mut state = State::buffer();
    let props = project();
    let mut cfg = config();
    cfg.pre_submit_hook = Some(b"false".to_vec());
    let (mut sub, a) = state.submit(cached(), &props, &cfg);
    assert!(matches!(a, Action::RunHook(ref c) if c == b"false"));
    let status = HookStatus { success: false, status: "exit status: 1".into() };
    let a = step(&mut state, &mut sub, &props, &cfg, Event::HookDone(Ok(status)));
    assert!(matches!(a, Action::Finish(Err(Error::HookFailed { .. }))));
    assert_eq!(sub.phase, Phase::Failed);
    assert!(!sub.accepts(&Event::Response(HttpOutcome::Success(None))));
    assert_eq!(state.out, "Running pre-submit hook\n");
}

#[test]
fn successful_pre_hook_goes_on() {
    let mut state = State::buffer();
    let props = project();
    let mut cfg = config();
    cfg.pre_submit_hook = Some(b"true".to_vec());
    let (mut sub, _) = state.submit(cached(), &props, &cfg);
    let status = HookStatus { success: true, status: "exit status: 0".into() };
    let a = step(&mut state, &mut sub, &props, &cfg, Event::HookDone(Ok(status)));
    assert!(matches!(a, Action::Send { ref url, .. } if url.ends_with("SubmitProjectViaEclipse")));
}

#[test]
fn failed_post_hook_keeps_success() {
    let mut state = State::buffer();
    let props = project();
    let mut cfg = config();
    cfg.post_submit_hook = Some(b"false".to_vec());
    let (mut sub, _) = state.submit(cached(), &props, &cfg);
    let a = step(&mut state, &mut sub, &props, &cfg, Event::Response(HttpOutcome::Success(None)));
    assert!(matches!(a, Action::RunHook(ref c) if c == b"false"));
    let status = HookStatus { success: false, status: "exit status: 1".into() };
    let a = step(&mut state, &mut sub, &props, &cfg, Event::HookDone(Ok(status)));
    assert!(matches!(a, Action::Finish(Ok(()))));
    assert_eq!(sub.phase, Phase::Done);
    assert!(state.out.ends_with("Warning: post-submit hook failed with exit code exit status: 1\n"));
}

#[test]
fn merged_fields_prefer_user_values() {
    let user = map(&[("oneTimePassword", "x"), ("courseKey", "mine")]);
    let props = map(&[("courseKey", "ck1"), ("projectNumber", "p3")]);
    let fields = payload_fields(&user, &props, &config());
    assert_eq!(fields.len(), 6);
    let first = |k: &str| fields.iter().find(|(a, _)| a == k).map(|(_, v)| v.clone());
    assert_eq!(first("courseKey"), Some("mine".to_string()));
    assert_eq!(first("oneTimePassword"), Some("x".to_string()));
    assert_eq!(first("projectNumber"), Some("p3".to_string()));
    assert_eq!(first("submitClientTool"), Some("sagoin".to_string()));
    assert_eq!(first("submitClientVersion"), Some("0.1.0".to_string()));
    assert_eq!(
        fields[4..].to_vec(),
        vec![
            ("submitClientTool".to_string(), "sagoin".to_string()),
            ("submitClientVersion".to_string(), "0.1.0".to_string()),
        ]
    );
}

#[test]
fn missing_submit_url() {
    let mut state = State::buffer();
    let mut props = project();
    props = {
        let mut m = PropMap::new();
        for (k, v) in props.entries() {
            if k != "submitURL" {
                m.insert(k.clone(), v.clone());
            }
        }
        m
    };
    let (_, a) = state.submit(cached(), &props, &config());
    assert!(matches!(a, Action::Finish(Err(Error::MissingProperty(ref k))) if k == "submitURL"));
}

#[test]
fn unsupported_auth_type() {
    let mut state = State::buffer();
    let props = map(&[("authentication.type", "openid"), ("submitURL", "u")]);
    let (_, a) = state.submit(PropMap::new(), &props, &config());
    assert!(matches!(a, Action::Finish(Err(Error::UnsupportedAuthType(ref t))) if t == "openid"));
    assert!(state.out.is_empty());
    let props = map(&[("submitURL", "u")]);
    let (_, a) = state.submit(PropMap::new(), &props, &config());
    assert!(matches!(
        a,
        Action::Finish(Err(Error::MissingProperty(ref k))) if k == "authentication.type"
    ));
}

#[test]
fn negotiation_request_fields() {
    let q = negotiation_request(&project(), "alice".into(), "pw".into()).unwrap();
    assert_eq!(q.url, "https://submit.example.edu/eclipse/NegotiateOneTimePassword");
    assert_eq!(
        q.form,
        vec![
            ("loginName".to_string(), "alice".to_string()),
            ("password".to_string(), "pw".to_string()),
            ("courseKey".to_string(), "ck1".to_string()),
            ("projectNumber".to_string(), "p3".to_string()),
        ]
    );
    let partial = map(&[("baseURL", "b"), ("projectNumber", "p")]);
    assert!(matches!(
        negotiation_request(&partial, "a".into(), "b".into()),
        Err(Error::MissingProperty(ref k)) if k == "courseKey"
    ));
}

#[test]
fn negotiation_failures() {
    let mut state = State::buffer();
    let props = project();
    let cfg = config();
    let (mut sub, _) = state.submit(PropMap::new(), &props, &cfg);
    step(&mut state, &mut sub, &props, &cfg, Event::Credentials("a".into(), "b".into()));
    let a = step(
        &mut state,
        &mut sub,
        &props,
        &cfg,
        Event::NegotiationAnswer(Err("timed out".into())),
    );
    assert!(matches!(a, Action::Finish(Err(Error::NegotiationFailed(ref m))) if m == "timed out"));

    let (mut sub, _) = state.submit(PropMap::new(), &props, &cfg);
    step(&mut state, &mut sub, &props, &cfg, Event::Credentials("a".into(), "b".into()));
    step(&mut state, &mut sub, &props, &cfg, Event::NegotiationAnswer(Ok(b"a=b".to_vec())));
    let a = step(&mut state, &mut sub, &props, &cfg, Event::CacheWritten(Err("read-only".into())));
    assert!(matches!(a, Action::Finish(Err(Error::CachePersistFailed(ref m))) if m == "read-only"));
}
