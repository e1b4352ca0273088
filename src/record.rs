use vstd::prelude::*;
use vstd::string::*;

use crate::error::Error;
use crate::props::{last_value, opt_view, pairs_view};
use crate::state::{warning_text, State};

verus! {

/// What `java_properties::PropertiesIter::read_into` reports of a property
/// file: the pairs it hands out, in file order, up to the end or to the
/// first error, and that error's message.
pub uninterp spec fn property_scan_of(b: Seq<u8>) -> (Seq<(Seq<char>, Seq<char>)>, Option<Seq<char>>);

/// Relies on `java_properties::PropertiesIter::read_into`: it hands out each
/// key/value pair in file order and stops at the first error, after the
/// pairs before it.
#[verifier::external_body]
fn scan_properties(b: &[u8]) -> (r: (Vec<(String, String)>, Option<String>))
    ensures
        pairs_view(r.0@) == property_scan_of(b@).0,
        r.1 is Some <==> property_scan_of(b@).1 is Some,
        r.1 matches Some(e) ==> e@ == property_scan_of(b@).1->0,
{
    let mut pairs = Vec::new();
    let r = java_properties::PropertiesIter::new(b).read_into(|k, v| pairs.push((k, v)));
    match r {
        Ok(()) => (pairs, None),
        Err(e) => (pairs, Some(e.to_string())),
    }
}

/// The pairs of `s` whose key is not `k`, in order.
pub open spec fn without_key(s: Seq<(Seq<char>, Seq<char>)>, k: Seq<char>) -> Seq<(Seq<char>, Seq<char>)>
    decreases s.len(),
{
    if s.len() == 0 {
        s
    } else if s.last().0 == k {
        without_key(s.drop_last(), k)
    } else {
        without_key(s.drop_last(), k).push(s.last())
    }
}

/// The project's and the user's properties, the keys the client reads held
/// apart, and the fields to send in the order they were read.
#[derive(Debug)]
pub struct Props {
    pub auth: Option<String>,
    pub base_url: Option<String>,
    pub course_key: Option<String>,
    pub project: Option<String>,
    pub url: Option<String>,

    pub class: Option<String>,
    pub cvs: Option<String>,
    pub login: Option<String>,
    pub otp: Option<String>,

    /// The text fields of the submission form, in order.
    pub parts: Vec<(String, String)>,
}

/// The value that a later value `v`, if any, leaves in place of `old`.
pub open spec fn overridden(old: Option<Seq<char>>, v: Option<Seq<char>>) -> Option<Seq<char>> {
    match v {
        Some(v) => Some(v),
        None => old,
    }
}

fn set_if(field: &mut Option<String>, name: &String, key: &String, value: &String)
    ensures
        name@ == key@ ==> opt_view(*final(field)) == Some(value@),
        name@ != key@ ==> *final(field) == *old(field),
{
    if *name == *key {
        *field = Some(value.clone());
    }
}

impl Props {
    /// No properties.
    pub fn new() -> (r: Props)
        ensures
            r.auth is None && r.base_url is None && r.course_key is None && r.project is None && r.url is None,
            r.class is None && r.cvs is None && r.login is None && r.otp is None,
            r.parts@.len() == 0,
    {
        Props {
            auth: None,
            base_url: None,
            course_key: None,
            project: None,
            url: None,
            class: None,
            cvs: None,
            login: None,
            otp: None,
            parts: Vec::new(),
        }
    }
}

/// Reads the project's property file: the keys the client reads are held
/// apart, the last value of each winning, and every pair but the submission
/// URL is kept as a form field.
pub fn read_submit(contents: &[u8]) -> (r: Result<Props, Error>)
    ensures
        property_scan_of(contents@).1 is Some <==> r is Err,
        r matches Err(e) ==> e matches Error::InvalidProject(m) && m@ == property_scan_of(contents@).1->0,
        r matches Ok(p) ==> ({
            let s = property_scan_of(contents@).0;
            &&& opt_view(p.auth) == last_value(s, "authentication.type"@)
            &&& opt_view(p.base_url) == last_value(s, "baseURL"@)
            &&& opt_view(p.course_key) == last_value(s, "courseKey"@)
            &&& opt_view(p.project) == last_value(s, "projectNumber"@)
            &&& opt_view(p.url) == last_value(s, "submitURL"@)
            &&& p.class is None && p.cvs is None && p.login is None && p.otp is None
            &&& pairs_view(p.parts@) == without_key(s, "submitURL"@)
        }),
{
    let (pairs, err) = scan_properties(contents);
    match err {
        Some(e) => return Err(Error::InvalidProject(e)),
        None => {},
    }
    let ghost s = pairs_view(pairs@);
    let mut p = Props::new();
    let k_auth = String::from_str("authentication.type");
    let k_base = String::from_str("baseURL");
    let k_course = String::from_str("courseKey");
    let k_project = String::from_str("projectNumber");
    let k_url = String::from_str("submitURL");
    let mut i: usize = 0;
    while i < pairs.len()
        invariant
            i <= pairs@.len(),
            s == pairs_view(pairs@),
            k_auth@ == "authentication.type"@,
            k_base@ == "baseURL"@,
            k_course@ == "courseKey"@,
            k_project@ == "projectNumber"@,
            k_url@ == "submitURL"@,
            opt_view(p.auth) == last_value(s.subrange(0, i as int), "authentication.type"@),
            opt_view(p.base_url) == last_value(s.subrange(0, i as int), "baseURL"@),
            opt_view(p.course_key) == last_value(s.subrange(0, i as int), "courseKey"@),
            opt_view(p.project) == last_value(s.subrange(0, i as int), "projectNumber"@),
            opt_view(p.url) == last_value(s.subrange(0, i as int), "submitURL"@),
            p.class is None && p.cvs is None && p.login is None && p.otp is None,
            pairs_view(p.parts@) == without_key(s.subrange(0, i as int), "submitURL"@),
        decreases pairs@.len() - i,
    {
        let ghost before = s.subrange(0, i as int);
        let k = &pairs[i].0;
        let v = &pairs[i].1;
        proof {
            assert(s[i as int] == (k@, v@));
            assert(s.subrange(0, i + 1).drop_last() =~= before);
        }
        set_if(&mut p.auth, k, &k_auth, v);
        set_if(&mut p.base_url, k, &k_base, v);
        set_if(&mut p.course_key, k, &k_course, v);
        set_if(&mut p.project, k, &k_project, v);
        set_if(&mut p.url, k, &k_url, v);
        if *k != k_url {
            let ghost old_parts = pairs_view(p.parts@);
            p.parts.push((k.clone(), v.clone()));
            assert(pairs_view(p.parts@) =~= old_parts.push((k@, v@)));
        }
        i = i + 1;
    }
    assert(s.subrange(0, i as int) =~= s);
    Ok(p)
}

/// Adds the user's cached credentials to `props`: the keys the client reads
/// are held apart, the last value of each winning, and every pair is kept as
/// a form field. A malformed file gives a warning; the pairs before the
/// error are kept.
pub fn read_submit_user(state: &mut State, props: &mut Props, contents: &[u8])
    ensures
        ({
            let s = property_scan_of(contents@).0;
            &&& opt_view(final(props).class) == overridden(opt_view(old(props).class), last_value(s, "classAccount"@))
            &&& opt_view(final(props).cvs) == overridden(opt_view(old(props).cvs), last_value(s, "cvsAccount"@))
            &&& opt_view(final(props).login) == overridden(opt_view(old(props).login), last_value(s, "loginName"@))
            &&& opt_view(final(props).otp) == overridden(opt_view(old(props).otp), last_value(s, "oneTimePassword"@))
            &&& final(props).auth == old(props).auth && final(props).base_url == old(props).base_url
            &&& final(props).course_key == old(props).course_key && final(props).project == old(props).project
            &&& final(props).url == old(props).url
            &&& pairs_view(final(props).parts@) == pairs_view(old(props).parts@) + s
        }),
        final(state).color == old(state).color,
        property_scan_of(contents@).1 is None ==> final(state).out@ == old(state).out@,
        property_scan_of(contents@).1 matches Some(e) ==> final(state).out@ == old(state).out@
            + warning_text(old(state).color, "error when parsing .submitUser: "@ + e),
{
    let (pairs, err) = scan_properties(contents);
    let ghost s = pairs_view(pairs@);
    let ghost p0 = *props;
    let k_class = String::from_str("classAccount");
    let k_cvs = String::from_str("cvsAccount");
    let k_login = String::from_str("loginName");
    let k_otp = String::from_str("oneTimePassword");
    let mut i: usize = 0;
    while i < pairs.len()
        invariant
            i <= pairs@.len(),
            s == pairs_view(pairs@),
            k_class@ == "classAccount"@,
            k_cvs@ == "cvsAccount"@,
            k_login@ == "loginName"@,
            k_otp@ == "oneTimePassword"@,
            opt_view(props.class) == overridden(opt_view(p0.class), last_value(s.subrange(0, i as int), "classAccount"@)),
            opt_view(props.cvs) == overridden(opt_view(p0.cvs), last_value(s.subrange(0, i as int), "cvsAccount"@)),
            opt_view(props.login) == overridden(opt_view(p0.login), last_value(s.subrange(0, i as int), "loginName"@)),
            opt_view(props.otp) == overridden(opt_view(p0.otp), last_value(s.subrange(0, i as int), "oneTimePassword"@)),
            props.auth == p0.auth && props.base_url == p0.base_url && props.course_key == p0.course_key,
            props.project == p0.project && props.url == p0.url,
            pairs_view(props.parts@) == pairs_view(p0.parts@) + s.subrange(0, i as int),
        decreases pairs@.len() - i,
    {
        let ghost before = s.subrange(0, i as int);
        let k = &pairs[i].0;
        let v = &pairs[i].1;
        proof {
            assert(s[i as int] == (k@, v@));
            assert(s.subrange(0, i + 1).drop_last() =~= before);
        }
        set_if(&mut props.class, k, &k_class, v);
        set_if(&mut props.cvs, k, &k_cvs, v);
        set_if(&mut props.login, k, &k_login, v);
        set_if(&mut props.otp, k, &k_otp, v);
        let ghost old_parts = pairs_view(props.parts@);
        props.parts.push((k.clone(), v.clone()));
        assert(pairs_view(props.parts@) =~= old_parts.push((k@, v@)));
        assert(pairs_view(p0.parts@) + s.subrange(0, i + 1) =~= pairs_view(p0.parts@) + before + seq![(k@, v@)]);
        i = i + 1;
    }
    assert(s.subrange(0, i as int) =~= s);
    match err {
        Some(e) => {
            let msg = String::from_str("error when parsing .submitUser: ").concat(e.as_str());
            state.warn(msg.as_str());
        },
        None => {},
    }
}

} // verus!
