use vstd::prelude::*;
use vstd::string::*;

use crate::error::Error;
use crate::props::{pairs_view, PropMap};
use crate::state::State;

verus! {

/// The request that trades a username and password for a one-time password.
#[derive(Debug)]
pub struct NegotiationRequest {
    /// Where the form is posted.
    pub url: String,
    /// The URL-encoded form fields, in order.
    pub form: Vec<(String, String)>,
}

/// A project can be negotiated for when it asks for `ldap` authentication.
pub open spec fn auth_ok(m: Map<Seq<char>, Seq<char>>) -> bool {
    m.contains_key("authentication.type"@) && m["authentication.type"@] == "ldap"@
}

/// The error that stops a negotiation before it starts.
pub open spec fn auth_error(m: Map<Seq<char>, Seq<char>>, e: Error) -> bool {
    if !m.contains_key("authentication.type"@) {
        e matches Error::MissingProperty(k) && k@ == "authentication.type"@
    } else {
        e matches Error::UnsupportedAuthType(a) && a@ == m["authentication.type"@]
    }
}

/// The line announcing a negotiation.
pub open spec fn authenticating_text() -> Seq<char> {
    "Authenticating with ldap\n"@
}

/// The address of the negotiation endpoint under `base`.
pub open spec fn negotiation_url(base: Seq<char>) -> Seq<char> {
    base + "/eclipse/NegotiateOneTimePassword"@
}

/// Whether `r` is the negotiation request for `user` with `pass` under the
/// project properties `m`: an error names the first of the base URL, the
/// course key and the project number that is missing.
pub open spec fn request_spec(
    m: Map<Seq<char>, Seq<char>>,
    user: Seq<char>,
    pass: Seq<char>,
    r: Result<NegotiationRequest, Error>,
) -> bool {
    if !m.contains_key("baseURL"@) {
        r matches Err(Error::MissingProperty(k)) && k@ == "baseURL"@
    } else if !m.contains_key("courseKey"@) {
        r matches Err(Error::MissingProperty(k)) && k@ == "courseKey"@
    } else if !m.contains_key("projectNumber"@) {
        r matches Err(Error::MissingProperty(k)) && k@ == "projectNumber"@
    } else {
        r matches Ok(q) && q.url@ == negotiation_url(m["baseURL"@]) && pairs_view(q.form@) == seq![
            ("loginName"@, user),
            ("password"@, pass),
            ("courseKey"@, m["courseKey"@]),
            ("projectNumber"@, m["projectNumber"@]),
        ]
    }
}

impl State {
    /// Checks the project's authentication scheme. Only `ldap` is known; the
    /// start of the exchange is then announced.
    pub fn check_auth(&mut self, props: &PropMap) -> (r: Result<(), Error>)
        requires
            props.wf(),
        ensures
            final(self).color == old(self).color,
            auth_ok(props@) ==> r is Ok && final(self).out@ == old(self).out@ + authenticating_text(),
            !auth_ok(props@) ==> (r matches Err(e) && auth_error(props@, e)) && final(self).out@ == old(
                self,
            ).out@,
    {
        let t = props.get_prop("authentication.type")?;
        if *t == String::from_str("ldap") {
            self.out.append("Authenticating with ldap\n");
            Ok(())
        } else {
            Err(Error::UnsupportedAuthType(t.clone()))
        }
    }
}

/// The negotiation request for `user` with `pass`: it posts the login name,
/// the password, the course key and the project number to the negotiation
/// endpoint under the base URL.
pub fn negotiation_request(props: &PropMap, user: String, pass: String) -> (r: Result<
    NegotiationRequest,
    Error,
>)
    requires
        props.wf(),
    ensures
        request_spec(props@, user@, pass@, r),
{
    let base = props.get_prop("baseURL")?;
    let course = props.get_prop("courseKey")?;
    let project = props.get_prop("projectNumber")?;
    let url = base.clone().concat("/eclipse/NegotiateOneTimePassword");
    let mut form: Vec<(String, String)> = Vec::new();
    form.push((String::from_str("loginName"), user));
    form.push((String::from_str("password"), pass));
    form.push((String::from_str("courseKey"), course.clone()));
    form.push((String::from_str("projectNumber"), project.clone()));
    let r = NegotiationRequest { url, form };
    assert(pairs_view(r.form@) =~= seq![
        ("loginName"@, user@),
        ("password"@, pass@),
        ("courseKey"@, props@["courseKey"@]),
        ("projectNumber"@, props@["projectNumber"@]),
    ]);
    Ok(r)
}

/// The credentials the server sent back: its answer parsed as a property
/// file, whatever the answer's status was.
pub fn negotiated(body: &[u8]) -> (r: Result<PropMap, Error>)
    ensures
        crate::props::properties_of(body@) is Some ==> (r matches Ok(m) && m.wf() && m@
            == crate::props::properties_of(body@)->0),
        crate::props::properties_of(body@) is None ==> r matches Err(Error::InvalidCredentials(_)),
{
    match PropMap::parse(body) {
        Ok(m) => Ok(m),
        Err(e) => Err(Error::InvalidCredentials(e)),
    }
}

} // verus!
