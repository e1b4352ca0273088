use vstd::prelude::*;
use vstd::string::*;

use crate::auth::{
    auth_error,
    auth_ok,
    authenticating_text,
    negotiated,
    negotiation_request,
    request_spec,
    NegotiationRequest,
};
use crate::config::Config;
use crate::error::Error;
use crate::hook::{hook_finished, hook_outcome, hook_present, running_text, HookStatus, HookStep};
use crate::props::{
    keys_distinct,
    lemma_map_of_dom,
    lemma_map_of_value,
    map_of,
    pairs_view,
    properties_of,
    PropMap,
};
use crate::state::{warning_text, State};
use crate::text::{trim_end_of, trim_end_text};

verus! {

/// Cached credentials can be used without negotiating when they hold a
/// one-time password and an account.
pub open spec fn sufficient_spec(m: Map<Seq<char>, Seq<char>>) -> bool {
    m.contains_key("oneTimePassword"@) && (m.contains_key("cvsAccount"@) || m.contains_key(
        "classAccount"@,
    ))
}

/// Whether the credentials `user` can be used without negotiating.
pub fn sufficient(user: &PropMap) -> (r: bool)
    requires
        user.wf(),
    ensures
        r == sufficient_spec(user@),
{
    user.contains_key("oneTimePassword") && (user.contains_key("cvsAccount") || user.contains_key(
        "classAccount",
    ))
}

/// The client identification fields.
pub open spec fn client_fields(name: Seq<char>, version: Seq<char>) -> Seq<(Seq<char>, Seq<char>)> {
    seq![("submitClientTool"@, name), ("submitClientVersion"@, version)]
}

/// Appends a copy of each pair of `from` to `out`.
fn copy_pairs(out: &mut Vec<(String, String)>, from: &Vec<(String, String)>)
    ensures
        pairs_view(final(out)@) == pairs_view(old(out)@) + pairs_view(from@),
{
    let ghost start = pairs_view(out@);
    let mut i: usize = 0;
    while i < from.len()
        invariant
            i <= from@.len(),
            pairs_view(out@) == start + pairs_view(from@).subrange(0, i as int),
        decreases from@.len() - i,
    {
        let ghost before = pairs_view(out@);
        out.push((from[i].0.clone(), from[i].1.clone()));
        assert(pairs_view(out@) =~= before.push(pairs_view(from@)[i as int]));
        assert(pairs_view(from@).subrange(0, i + 1) =~= pairs_view(from@).subrange(0, i as int).push(
            pairs_view(from@)[i as int],
        ));
        i = i + 1;
    }
    assert(pairs_view(from@).subrange(0, i as int) =~= pairs_view(from@));
}

/// The text fields of a submission: every user property, then every project
/// property, then the client identification. The archive goes with them as
/// the file field `submittedFiles`, named `submit.zip`, of type
/// `application/zip`.
pub fn payload_fields(user: &PropMap, props: &PropMap, cfg: &Config) -> (r: Vec<(String, String)>)
    ensures
        pairs_view(r@) == user.pairs() + props.pairs() + client_fields(
            cfg.client_name@,
            cfg.client_version@,
        ),
{
    let mut r: Vec<(String, String)> = Vec::new();
    assert(pairs_view(r@) =~= Seq::empty());
    copy_pairs(&mut r, user.entries());
    copy_pairs(&mut r, props.entries());
    let ghost before = pairs_view(r@);
    r.push((String::from_str("submitClientTool"), cfg.client_name.clone()));
    r.push((String::from_str("submitClientVersion"), cfg.client_version.clone()));
    assert(pairs_view(r@) =~= before + client_fields(cfg.client_name@, cfg.client_version@));
    r
}

/// Where key `k` first occurs in `fields`, its value.
pub open spec fn first_value(fields: Seq<(Seq<char>, Seq<char>)>, k: Seq<char>) -> Option<Seq<char>>
    decreases fields.len(),
{
    if fields.len() == 0 {
        None
    } else if fields[0].0 == k {
        Some(fields[0].1)
    } else {
        first_value(fields.drop_first(), k)
    }
}

proof fn lemma_first_value_concat(a: Seq<(Seq<char>, Seq<char>)>, b: Seq<(Seq<char>, Seq<char>)>, k: Seq<char>)
    ensures
        first_value(a + b, k) == (match first_value(a, k) {
            Some(v) => Some(v),
            None => first_value(b, k),
        }),
    decreases a.len(),
{
    if a.len() > 0 {
        assert((a + b).drop_first() =~= a.drop_first() + b);
        lemma_first_value_concat(a.drop_first(), b, k);
    } else {
        assert(a + b =~= b);
    }
}

proof fn lemma_first_value_map(s: Seq<(Seq<char>, Seq<char>)>, k: Seq<char>)
    requires
        keys_distinct(s),
    ensures
        first_value(s, k) == (if map_of(s).contains_key(k) {
            Some(map_of(s)[k])
        } else {
            None
        }),
    decreases s.len(),
{
    lemma_map_of_dom(s, k);
    if s.len() > 0 {
        if s[0].0 == k {
            lemma_map_of_value(s, 0);
        } else {
            let t = s.drop_first();
            assert(keys_distinct(t));
            lemma_first_value_map(t, k);
            lemma_map_of_dom(t, k);
            if map_of(t).contains_key(k) {
                let j = choose|j: int| 0 <= j < t.len() && t[j].0 == k;
                lemma_map_of_value(t, j);
                lemma_map_of_value(s, j + 1);
            } else if map_of(s).contains_key(k) {
                let j = choose|j: int| 0 <= j < s.len() && s[j].0 == k;
                assert(t[j - 1].0 == k);
            }
        }
    }
}

/// Merging into the form keeps every key of both maps, and on a key that
/// both hold, the first field carrying it, the one a server reads, has the
/// user's value.
pub proof fn lemma_payload_merge(user: PropMap, props: PropMap, name: Seq<char>, version: Seq<char>, k: Seq<char>)
    requires
        user.wf(),
        props.wf(),
    ensures
        user@.contains_key(k) ==> first_value(user.pairs() + props.pairs() + client_fields(name, version), k)
            == Some(user@[k]),
        !user@.contains_key(k) && props@.contains_key(k) ==> first_value(
            user.pairs() + props.pairs() + client_fields(name, version),
            k,
        ) == Some(props@[k]),
{
    let c = client_fields(name, version);
    lemma_first_value_concat(user.pairs() + props.pairs(), c, k);
    lemma_first_value_concat(user.pairs(), props.pairs(), k);
    lemma_first_value_map(user.pairs(), k);
    lemma_first_value_map(props.pairs(), k);
}

/// Where a submission stands.
#[derive(Clone, Copy, PartialEq, Eq, Structural, Debug)]
pub enum Phase {
    /// Waiting for the pre-submit hook.
    PreHook,
    /// Waiting for the username and password.
    Credentials,
    /// Waiting for the server's answer to the negotiation.
    Negotiating,
    /// Waiting for the negotiated credentials to be saved.
    Persisting,
    /// Waiting for the server's answer to the submission.
    Sending,
    /// Waiting for the post-submit hook.
    PostHook,
    /// Submitted.
    Done,
    /// Stopped on an error.
    Failed,
}

/// How a submission request went.
#[derive(Debug)]
pub enum HttpOutcome {
    /// The server accepted it; its answer, if readable as text.
    Success(Option<String>),
    /// The server answered with an error status; its answer, if readable as text.
    Status(u16, Option<String>),
    /// The request could not be made.
    Transport(String),
}

/// What the caller reports after carrying out an action.
#[derive(Debug)]
pub enum Event {
    /// A hook ran and exited as given, or could not be started.
    HookDone(Result<HookStatus, String>),
    /// The username and the password.
    Credentials(String, String),
    /// The negotiation endpoint's answer, or why there was none.
    NegotiationAnswer(Result<Vec<u8>, String>),
    /// Whether the answer was saved to the credential cache.
    CacheWritten(Result<(), String>),
    /// How the submission request went.
    Response(HttpOutcome),
}

/// What the caller is asked to do next.
#[derive(Debug)]
pub enum Action {
    /// Run this hook command and report `HookDone`.
    RunHook(Vec<u8>),
    /// Resolve the username, then the password, and report `Credentials`.
    ResolveCredentials,
    /// Post this form and report `NegotiationAnswer`.
    Negotiate(NegotiationRequest),
    /// Write these bytes, whole, to the credential cache and report `CacheWritten`.
    PersistCache(Vec<u8>),
    /// Post these fields with the archive to `url` as a multipart form and
    /// report `Response`.
    Send { url: String, fields: Vec<(String, String)> },
    /// Stop: the submission is over.
    Finish(Result<(), Error>),
}

/// One submission in progress.
#[derive(Debug)]
pub struct Submission {
    /// Where it stands.
    pub phase: Phase,
    /// Whether a server error may still be answered by negotiating anew and
    /// sending once more.
    pub reauth: bool,
    /// The credentials in use.
    pub user: PropMap,
    /// The negotiation answer waiting to be saved.
    pub answer: Vec<u8>,
}

impl Submission {
    /// Well-formed: the credentials in use are a well-formed map.
    pub open spec fn wf(&self) -> bool {
        self.user.wf()
    }

    /// Whether the submission waits for `e`.
    pub open spec fn awaits(&self, e: Event) -> bool {
        match self.phase {
            Phase::PreHook | Phase::PostHook => e is HookDone,
            Phase::Credentials => e is Credentials,
            Phase::Negotiating => e is NegotiationAnswer,
            Phase::Persisting => e is CacheWritten,
            Phase::Sending => e is Response,
            Phase::Done | Phase::Failed => false,
        }
    }

    /// Whether the submission waits for `e`.
    pub fn accepts(&self, e: &Event) -> (r: bool)
        ensures
            r == self.awaits(*e),
    {
        match self.phase {
            Phase::PreHook | Phase::PostHook => matches!(e, Event::HookDone(_)),
            Phase::Credentials => matches!(e, Event::Credentials(_, _)),
            Phase::Negotiating => matches!(e, Event::NegotiationAnswer(_)),
            Phase::Persisting => matches!(e, Event::CacheWritten(_)),
            Phase::Sending => matches!(e, Event::Response(_)),
            Phase::Done | Phase::Failed => false,
        }
    }
}

/// The phase that follows action `a`.
pub open spec fn phase_after(a: Action) -> Phase {
    match a {
        Action::RunHook(_) => Phase::PreHook,
        Action::ResolveCredentials => Phase::Credentials,
        Action::Negotiate(_) => Phase::Negotiating,
        Action::PersistCache(_) => Phase::Persisting,
        Action::Send { .. } => Phase::Sending,
        Action::Finish(Ok(())) => Phase::Done,
        Action::Finish(Err(_)) => Phase::Failed,
    }
}

/// Whether `a` sends the submission with credentials `user`: the fields of
/// the payload to the project's submission URL, or, without one, the error
/// that names it.
pub open spec fn sends(a: Action, user: PropMap, props: PropMap, cfg: Config) -> bool {
    if props@.contains_key("submitURL"@) {
        a matches Action::Send { url, fields } && url@ == props@["submitURL"@] && pairs_view(fields@)
            == user.pairs() + props.pairs() + client_fields(cfg.client_name@, cfg.client_version@)
    } else {
        a matches Action::Finish(Err(Error::MissingProperty(k))) && k@ == "submitURL"@
    }
}

/// Whether `a` starts a negotiation: it asks for the credentials where the
/// project uses `ldap`, and stops on the error otherwise.
pub open spec fn negotiates(a: Action, props: PropMap) -> bool {
    if auth_ok(props@) {
        a is ResolveCredentials
    } else {
        a matches Action::Finish(Err(e)) && auth_error(props@, e)
    }
}

/// What starting a negotiation writes.
pub open spec fn negotiation_text(props: PropMap) -> Seq<char> {
    if auth_ok(props@) {
        authenticating_text()
    } else {
        Seq::empty()
    }
}

/// Whether `a` begins submitting with `user`: directly where the
/// credentials are sufficient, else by negotiating first.
pub open spec fn begins(a: Action, user: PropMap, props: PropMap, cfg: Config) -> bool {
    if sufficient_spec(user@) {
        sends(a, user, props, cfg)
    } else {
        negotiates(a, props)
    }
}

/// What beginning to submit with `user` writes.
pub open spec fn begin_text(user: PropMap, props: PropMap) -> Seq<char> {
    if sufficient_spec(user@) {
        Seq::empty()
    } else {
        negotiation_text(props)
    }
}

/// What the server's answer to an accepted submission shows.
pub open spec fn success_text(body: Option<String>) -> Seq<char> {
    match body {
        Some(b) => b@,
        None => "Successful submission received\n"@,
    }
}

/// What a server error that is answered by negotiating anew writes.
pub open spec fn retry_text(color: bool, body: Option<String>) -> Seq<char> {
    warning_text(color, "Status code 500"@) + match body {
        Some(b) => warning_text(color, b@),
        None => Seq::empty(),
    }
}

/// The error that a server error status gives.
pub open spec fn status_error(code: u16, body: Option<String>, e: Error) -> bool {
    e matches Error::ServerStatus { code: c, body: b } && c == code && match body {
        Some(t) => b matches Some(u) && u@ == trim_end_of(t@),
        None => b is None,
    }
}

/// The warning that a failed post-submit hook gives.
pub open spec fn post_hook_warning(r: Result<HookStatus, String>) -> Seq<char> {
    match r {
        Ok(st) => if st.success {
            Seq::empty()
        } else {
            "post-submit hook failed with exit code "@ + st.status@
        },
        Err(c) => "failed to run post-submit hook: "@ + c@,
    }
}

/// What a finished post-submit hook writes: a warning if it failed.
pub open spec fn post_hook_text(color: bool, r: Result<HookStatus, String>) -> Seq<char> {
    if r matches Ok(st) && st.success {
        Seq::empty()
    } else {
        warning_text(color, post_hook_warning(r))
    }
}

/// What event `e` makes a submission at `o` write to the status stream.
pub open spec fn step_text(o: Submission, e: Event, props: PropMap, cfg: Config, color: bool) -> Seq<
    char,
> {
    match e {
        Event::HookDone(r) => if o.phase == Phase::PreHook {
            if r matches Ok(st) && st.success {
                begin_text(o.user, props)
            } else {
                Seq::empty()
            }
        } else {
            post_hook_text(color, r)
        },
        Event::Response(HttpOutcome::Success(body)) => if hook_present(cfg.post_submit_hook) {
            success_text(body) + running_text("post-submit"@)
        } else {
            success_text(body)
        },
        Event::Response(HttpOutcome::Status(code, body)) => if code == 500 && o.reauth {
            retry_text(color, body) + negotiation_text(props)
        } else {
            Seq::empty()
        },
        _ => Seq::empty(),
    }
}

/// Whether, from `o`, event `e` leads to action `a` and submission `n`.
pub open spec fn step_spec(
    o: Submission,
    e: Event,
    props: PropMap,
    cfg: Config,
    a: Action,
    n: Submission,
) -> bool {
    match e {
        Event::HookDone(r) => if o.phase == Phase::PreHook {
            if r matches Ok(st) && st.success {
                begins(a, o.user, props, cfg) && n.phase == phase_after(a) && n.user == o.user
                    && n.reauth == o.reauth
            } else {
                (a matches Action::Finish(Err(err)) && hook_outcome("pre-submit"@, r, Err(err)))
                    && n.phase == Phase::Failed && n.reauth == o.reauth
            }
        } else {
            a == Action::Finish(Ok(())) && n.phase == Phase::Done && n.reauth == o.reauth
        },
        Event::Credentials(user, pass) => n.user == o.user && n.reauth == o.reauth && ((a matches Action::Negotiate(q) && request_spec(
            props@,
            user@,
            pass@,
            Ok(q),
        ) && n.phase == Phase::Negotiating) || (a matches Action::Finish(Err(err)) && request_spec(
            props@,
            user@,
            pass@,
            Err(err),
        ) && n.phase == Phase::Failed)),
        Event::NegotiationAnswer(r) => n.user == o.user && n.reauth == o.reauth && match r {
            Ok(b) => (a matches Action::PersistCache(c) && c@ == b@) && n.answer@ == b@ && n.phase
                == Phase::Persisting,
            Err(m) => (a matches Action::Finish(Err(Error::NegotiationFailed(x))) && x@ == m@)
                && n.phase == Phase::Failed,
        },
        Event::CacheWritten(r) => match r {
            Err(m) => (a matches Action::Finish(Err(Error::CachePersistFailed(x))) && x@ == m@)
                && n.phase == Phase::Failed && n.user == o.user && n.reauth == o.reauth,
            Ok(()) => match properties_of(o.answer@) {
                None => a matches Action::Finish(Err(Error::InvalidCredentials(_))) && n.phase
                    == Phase::Failed && n.user == o.user && n.reauth == o.reauth,
                Some(m) => n.user@ == m && !n.reauth && sends(a, n.user, props, cfg) && n.phase
                    == phase_after(a),
            },
        },
        Event::Response(h) => match h {
            HttpOutcome::Success(body) => n.user == o.user && n.reauth == o.reauth && if hook_present(
                cfg.post_submit_hook,
            ) {
                (a matches Action::RunHook(c) && c@ == cfg.post_submit_hook->Some_0@) && n.phase
                    == Phase::PostHook
            } else {
                a == Action::Finish(Ok(())) && n.phase == Phase::Done
            },
            HttpOutcome::Status(code, body) => n.user == o.user && if code == 500 && o.reauth {
                !n.reauth && negotiates(a, props) && n.phase == phase_after(a)
            } else {
                n.reauth == o.reauth && (a matches Action::Finish(Err(err)) && status_error(
                    code,
                    body,
                    err,
                )) && n.phase == Phase::Failed
            },
            HttpOutcome::Transport(m) => n.user == o.user && n.reauth == o.reauth && (a matches Action::Finish(
                Err(Error::Transport(x)),
            ) && x@ == m@) && n.phase == Phase::Failed,
        },
    }
}

impl State {
    fn fail(&mut self, sub: &mut Submission, e: Error) -> (a: Action)
        ensures
            *final(self) == *old(self),
            final(sub).phase == Phase::Failed,
            final(sub).reauth == old(sub).reauth,
            final(sub).user == old(sub).user,
            a == Action::Finish(Err(e)),
    {
        sub.phase = Phase::Failed;
        Action::Finish(Err(e))
    }

    fn send(&mut self, sub: &mut Submission, props: &PropMap, cfg: &Config) -> (a: Action)
        requires
            old(sub).wf(),
            props.wf(),
        ensures
            *final(self) == *old(self),
            final(sub).wf(),
            final(sub).user == old(sub).user,
            final(sub).reauth == old(sub).reauth,
            final(sub).phase == phase_after(a),
            sends(a, old(sub).user, *props, *cfg),
    {
        let fields = payload_fields(&sub.user, props, cfg);
        match props.get_prop("submitURL") {
            Ok(url) => {
                sub.phase = Phase::Sending;
                Action::Send { url: url.clone(), fields }
            },
            Err(e) => self.fail(sub, e),
        }
    }

    fn start_negotiation(&mut self, sub: &mut Submission, props: &PropMap) -> (a: Action)
        requires
            old(sub).wf(),
            props.wf(),
        ensures
            final(self).color == old(self).color,
            final(self).out@ == old(self).out@ + negotiation_text(*props),
            final(sub).wf(),
            final(sub).user == old(sub).user,
            final(sub).reauth == old(sub).reauth,
            final(sub).phase == phase_after(a),
            negotiates(a, *props),
    {
        match self.check_auth(props) {
            Ok(()) => {
                sub.phase = Phase::Credentials;
                Action::ResolveCredentials
            },
            Err(e) => self.fail(sub, e),
        }
    }

    fn begin(&mut self, sub: &mut Submission, props: &PropMap, cfg: &Config) -> (a: Action)
        requires
            old(sub).wf(),
            props.wf(),
        ensures
            final(self).color == old(self).color,
            final(self).out@ == old(self).out@ + begin_text(old(sub).user, *props),
            final(sub).wf(),
            final(sub).user == old(sub).user,
            final(sub).reauth == old(sub).reauth,
            final(sub).phase == phase_after(a),
            begins(a, old(sub).user, *props, *cfg),
    {
        if sufficient(&sub.user) {
            let a = self.send(sub, props, cfg);
            assert(self.out@ =~= old(self).out@ + begin_text(old(sub).user, *props));
            a
        } else {
            self.start_negotiation(sub, props)
        }
    }

    /// Carries the submission on after event `e`, which it awaits. A server
    /// error 500 is answered by negotiating anew and sending once more, and
    /// only while `reauth` holds: that is, once, and only where the first
    /// attempt used cached credentials. Once submitted, the post-submit hook
    /// cannot turn the outcome into a failure.
    pub fn advance(&mut self, sub: &mut Submission, props: &PropMap, cfg: &Config, e: Event) -> (a:
        Action)
        requires
            old(sub).wf(),
            old(sub).awaits(e),
            props.wf(),
        ensures
            final(self).color == old(self).color,
            final(sub).wf(),
            final(self).out@ == old(self).out@ + step_text(*old(sub), e, *props, *cfg, old(self).color),
            step_spec(*old(sub), e, *props, *cfg, a, *final(sub)),
    {
        let ghost out0 = self.out@;
        let a = match e {
            Event::HookDone(r) => {
                if sub.phase == Phase::PreHook {
                    match hook_finished("pre-submit", r) {
                        Ok(()) => self.begin(sub, props, cfg),
                        Err(err) => self.fail(sub, err),
                    }
                } else {
                    match r {
                        Ok(st) => if !st.success {
                            let msg = String::from_str("post-submit hook failed with exit code ").concat(
                                st.status.as_str(),
                            );
                            self.warn(msg.as_str());
                        },
                        Err(c) => {
                            let msg = String::from_str("failed to run post-submit hook: ").concat(
                                c.as_str(),
                            );
                            self.warn(msg.as_str());
                        },
                    }
                    sub.phase = Phase::Done;
                    assert(self.out@ =~= out0 + post_hook_text(old(self).color, r));
                    Action::Finish(Ok(()))
                }
            },
            Event::Credentials(user, pass) => match negotiation_request(props, user, pass) {
                Ok(q) => {
                    sub.phase = Phase::Negotiating;
                    Action::Negotiate(q)
                },
                Err(err) => self.fail(sub, err),
            },
            Event::NegotiationAnswer(r) => match r {
                Ok(b) => {
                    let c = b.clone();
                    proof {
                        assert(c@ =~= b@);
                    }
                    sub.answer = b;
                    sub.phase = Phase::Persisting;
                    Action::PersistCache(c)
                },
                Err(m) => self.fail(sub, Error::NegotiationFailed(m)),
            },
            Event::CacheWritten(r) => match r {
                Err(m) => self.fail(sub, Error::CachePersistFailed(m)),
                Ok(()) => match negotiated(sub.answer.as_slice()) {
                    Ok(m) => {
                        sub.user = m;
                        sub.reauth = false;
                        self.send(sub, props, cfg)
                    },
                    Err(err) => self.fail(sub, err),
                },
            },
            Event::Response(h) => match h {
                HttpOutcome::Success(body) => {
                    match body {
                        Some(b) => self.write(b.as_str()),
                        None => self.write("Successful submission received\n"),
                    }
                    let ghost out1 = self.out@;
                    assert(out1 =~= out0 + success_text(body));
                    match self.run_hook(&cfg.post_submit_hook, "post-submit") {
                        HookStep::Run(c) => {
                            sub.phase = Phase::PostHook;
                            assert(self.out@ =~= out0 + (success_text(body) + running_text("post-submit"@)));
                            Action::RunHook(c)
                        },
                        HookStep::Skip => {
                            sub.phase = Phase::Done;
                            Action::Finish(Ok(()))
                        },
                    }
                },
                HttpOutcome::Status(code, body) => {
                    if code == 500 && sub.reauth {
                        self.warn("Status code 500");
                        match body {
                            Some(b) => self.warn(b.as_str()),
                            None => {},
                        }
                        sub.reauth = false;
                        assert(self.out@ =~= out0 + retry_text(old(self).color, body));
                        let a = self.start_negotiation(sub, props);
                        assert(self.out@ =~= out0 + (retry_text(old(self).color, body) + negotiation_text(*props)));
                        a
                    } else {
                        let body = match body {
                            Some(b) => Some(trim_end_text(b.as_str())),
                            None => None,
                        };
                        self.fail(sub, Error::ServerStatus { code, body })
                    }
                },
                HttpOutcome::Transport(m) => self.fail(sub, Error::Transport(m)),
            },
        };
        assert(self.out@ =~= out0 + step_text(*old(sub), e, *props, *cfg, old(self).color));
        a
    }

    /// Starts submitting with the cached credentials `user_props`: the
    /// pre-submit hook runs first, if there is one; no request is made
    /// before it has succeeded.
    pub fn submit(&mut self, user_props: PropMap, props: &PropMap, cfg: &Config) -> (r: (
        Submission,
        Action,
    ))
        requires
            user_props.wf(),
            props.wf(),
        ensures
            final(self).color == old(self).color,
            r.0.wf(),
            r.0.reauth,
            r.0.user == user_props,
            r.0.phase == phase_after(r.1),
            hook_present(cfg.pre_submit_hook) ==> (r.1 matches Action::RunHook(c) && c@
                == cfg.pre_submit_hook->Some_0@) && final(self).out@ == old(self).out@ + running_text(
                "pre-submit"@,
            ),
            !hook_present(cfg.pre_submit_hook) ==> begins(r.1, user_props, *props, *cfg)
                && final(self).out@ == old(self).out@ + begin_text(user_props, *props),
    {
        let mut sub = Submission {
            phase: Phase::PreHook,
            reauth: true,
            user: user_props,
            answer: Vec::new(),
        };
        match self.run_hook(&cfg.pre_submit_hook, "pre-submit") {
            HookStep::Run(c) => (sub, Action::RunHook(c)),
            HookStep::Skip => {
                let a = self.begin(&mut sub, props, cfg);
                (sub, a)
            },
        }
    }
}

/// A failed or unstartable pre-submit hook ends the submission: no request
/// is made, and nothing more is awaited.
pub proof fn lemma_pre_hook_failure_stops(
    o: Submission,
    r: Result<HookStatus, String>,
    props: PropMap,
    cfg: Config,
    a: Action,
    n: Submission,
)
    requires
        o.phase == Phase::PreHook,
        !(r matches Ok(st) && st.success),
        step_spec(o, Event::HookDone(r), props, cfg, a, n),
    ensures
        a matches Action::Finish(Err(_)),
        n.phase == Phase::Failed,
        forall|e: Event| !n.awaits(e),
{
}

/// Once the submission was accepted, the post-submit hook's outcome, failed
/// or not, leaves the result a success.
pub proof fn lemma_post_hook_keeps_success(
    o: Submission,
    r: Result<HookStatus, String>,
    props: PropMap,
    cfg: Config,
    a: Action,
    n: Submission,
)
    requires
        o.phase == Phase::PostHook,
        step_spec(o, Event::HookDone(r), props, cfg, a, n),
    ensures
        a == Action::Finish(Ok(())),
        n.phase == Phase::Done,
{
}

/// A submission retries at most once: once the retry is spent it is never
/// granted again, and a further server error 500 ends the submission.
pub proof fn lemma_single_retry(o: Submission, e: Event, props: PropMap, cfg: Config, a: Action, n: Submission)
    requires
        !o.reauth,
        o.awaits(e),
        step_spec(o, e, props, cfg, a, n),
    ensures
        !n.reauth,
        e matches Event::Response(HttpOutcome::Status(c, _)) ==> (a matches Action::Finish(Err(err))
            && err matches Error::ServerStatus { code, .. } && code == c),
{
}

/// A retry is granted only for a server error 500, and spends the retry.
pub proof fn lemma_retry_only_on_500(o: Submission, e: Event, props: PropMap, cfg: Config, a: Action, n: Submission)
    requires
        o.phase == Phase::Sending,
        o.awaits(e),
        step_spec(o, e, props, cfg, a, n),
        !(a is Finish),
    ensures
        e matches Event::Response(HttpOutcome::Status(c, _)) ==> c == 500 && o.reauth && !n.reauth,
        e matches Event::Response(HttpOutcome::Transport(_)) ==> false,
{
}

} // verus!
