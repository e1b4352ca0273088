use vstd::prelude::*;
use vstd::string::*;

use crate::error::Error;
use crate::props::{last_value, opt_view, pairs_view, PropMap};
use crate::text::starts_with;

verus! {

/// What `icalendar::parser::unfold` makes of calendar text: folded lines
/// joined back.
pub uninterp spec fn unfolded_of(s: Seq<char>) -> Seq<char>;

/// What `icalendar::parser::read_calendar_simple` makes of calendar text:
/// for each top-level component, the components nested in it, each as its
/// properties' names and values in order; nothing when the text is malformed.
pub uninterp spec fn calendar_of(s: Seq<char>) -> Option<Seq<Seq<Seq<(Seq<char>, Seq<char>)>>>>;

/// Relies on `icalendar::parser::unfold`: the text with folded lines joined.
#[verifier::external_body]
fn unfold_text(s: &str) -> (r: String)
    ensures
        r@ == unfolded_of(s@),
{
    icalendar::parser::unfold(s)
}

/// Relies on `icalendar::parser::read_calendar_simple`: it parses the text
/// into components, or fails; the names and values are taken as text.
#[verifier::external_body]
fn read_calendar(s: &str) -> (r: Result<Vec<Vec<Vec<(String, String)>>>, String>)
    ensures
        r is Ok <==> calendar_of(s@) is Some,
        r matches Ok(v) ==> calendar_view(v@) == calendar_of(s@)->0,
{
    match icalendar::parser::read_calendar_simple(s) {
        Ok(roots) => Ok(
            roots.iter().map(
                |root| root.components.iter().map(
                    |c| c.properties.iter().map(|p| (p.name.to_string(), p.val.to_string())).collect(),
                ).collect(),
            ).collect(),
        ),
        Err(e) => Err(e.to_string()),
    }
}

/// The view of parsed calendar components.
pub open spec fn calendar_view(v: Seq<Vec<Vec<(String, String)>>>) -> Seq<
    Seq<Seq<(Seq<char>, Seq<char>)>>,
> {
    v.map_values(|root: Vec<Vec<(String, String)>>| root@.map_values(|c: Vec<(String, String)>| pairs_view(c@)))
}

/// A project's entry in the course calendar.
#[derive(Debug)]
pub struct CourseInfo {
    pub summary: String,
    pub due: Option<String>,
    pub description: Option<String>,
    pub url: Option<String>,
}

/// Where to find the course calendar, and how the project's entry begins.
#[derive(Debug)]
pub struct CourseRequest {
    /// The calendar's address.
    pub url: String,
    /// The start of the summary of the project's entry.
    pub prefix: String,
}

/// Whether `s` begins with `p`.
pub open spec fn begins_with(s: Seq<char>, p: Seq<char>) -> bool {
    p.len() <= s.len() && s.subrange(0, p.len() as int) == p
}

/// Whether some summary of the component does not begin with `prefix`.
pub open spec fn summary_mismatch(ps: Seq<(Seq<char>, Seq<char>)>, prefix: Seq<char>) -> bool {
    exists|i: int| 0 <= i < ps.len() && ps[i].0 == "SUMMARY"@ && !begins_with(ps[i].1, prefix)
}

/// A component is the project's entry when it has a summary and each of its
/// summaries begins with `prefix`.
pub open spec fn is_entry(ps: Seq<(Seq<char>, Seq<char>)>, prefix: Seq<char>) -> bool {
    !summary_mismatch(ps, prefix) && last_value(ps, "SUMMARY"@) is Some
}

/// Whether `c` is what the component `ps` tells of the project: its summary,
/// due date, description and address, the last of each.
pub open spec fn info_matches(c: CourseInfo, ps: Seq<(Seq<char>, Seq<char>)>) -> bool {
    Some(c.summary@) == last_value(ps, "SUMMARY"@) && opt_view(c.due) == last_value(ps, "DTSTART"@)
        && opt_view(c.description) == last_value(ps, "DESCRIPTION"@) && opt_view(c.url)
        == last_value(ps, "URL"@)
}

/// The index of the first of `comps` that is the project's entry and, for
/// an address, has one.
pub open spec fn first_entry(comps: Seq<Seq<(Seq<char>, Seq<char>)>>, prefix: Seq<char>, need_url: bool) -> Option<int>
    decreases comps.len(),
{
    if comps.len() == 0 {
        None
    } else if is_entry(comps[0], prefix) && (!need_url || last_value(comps[0], "URL"@) is Some) {
        Some(0)
    } else {
        match first_entry(comps.drop_first(), prefix, need_url) {
            Some(i) => Some(i + 1),
            None => None,
        }
    }
}

proof fn lemma_last_value_step(ps: Seq<(Seq<char>, Seq<char>)>, i: int, k: Seq<char>)
    requires
        0 <= i < ps.len(),
    ensures
        last_value(ps.subrange(0, i + 1), k) == if ps[i].0 == k {
            Some(ps[i].1)
        } else {
            last_value(ps.subrange(0, i), k)
        },
{
    assert(ps.subrange(0, i + 1).drop_last() =~= ps.subrange(0, i));
}

proof fn lemma_first_entry_range(comps: Seq<Seq<(Seq<char>, Seq<char>)>>, prefix: Seq<char>, need_url: bool)
    ensures
        first_entry(comps, prefix, need_url) matches Some(i) ==> 0 <= i < comps.len() && is_entry(
            comps[i],
            prefix,
        ) && (!need_url || last_value(comps[i], "URL"@) is Some) && forall|j: int|
            0 <= j < i ==> !(is_entry(comps[j], prefix) && (!need_url || last_value(comps[j], "URL"@) is Some)),
        first_entry(comps, prefix, need_url) is None ==> forall|j: int|
            0 <= j < comps.len() ==> !(is_entry(comps[j], prefix) && (!need_url || last_value(
                comps[j],
                "URL"@,
            ) is Some)),
    decreases comps.len(),
{
    if comps.len() > 0 {
        lemma_first_entry_range(comps.drop_first(), prefix, need_url);
        assert forall|j: int| 1 <= j < comps.len() implies comps[j] == comps.drop_first()[j - 1] by {}
    }
}

/// Reads a component's properties: its summary, due date, description and
/// address, the last of each, or nothing where a summary does not begin with
/// `prefix` or there is none.
fn read_component(ps: &Vec<(String, String)>, prefix: &str) -> (r: Option<CourseInfo>)
    ensures
        r is Some <==> is_entry(pairs_view(ps@), prefix@),
        r matches Some(c) ==> info_matches(c, pairs_view(ps@)),
{
    let ghost v = pairs_view(ps@);
    let mut summary: Option<String> = None;
    let mut due: Option<String> = None;
    let mut description: Option<String> = None;
    let mut url: Option<String> = None;
    let k_summary = String::from_str("SUMMARY");
    let k_due = String::from_str("DTSTART");
    let k_description = String::from_str("DESCRIPTION");
    let k_url = String::from_str("URL");
    let mut i: usize = 0;
    while i < ps.len()
        invariant
            i <= ps@.len(),
            v == pairs_view(ps@),
            k_summary@ == "SUMMARY"@,
            k_due@ == "DTSTART"@,
            k_description@ == "DESCRIPTION"@,
            k_url@ == "URL"@,
            !summary_mismatch(v.subrange(0, i as int), prefix@),
            opt_view(summary) == last_value(v.subrange(0, i as int), "SUMMARY"@),
            opt_view(due) == last_value(v.subrange(0, i as int), "DTSTART"@),
            opt_view(description) == last_value(v.subrange(0, i as int), "DESCRIPTION"@),
            opt_view(url) == last_value(v.subrange(0, i as int), "URL"@),
        decreases ps@.len() - i,
    {
        let ghost before = v.subrange(0, i as int);
        proof {
            reveal_strlit("SUMMARY");
            reveal_strlit("DTSTART");
            reveal_strlit("DESCRIPTION");
            reveal_strlit("URL");
            assert("SUMMARY"@[0] != "URL"@[0]);
            assert("DTSTART"@[0] != "URL"@[0]);
            assert("DESCRIPTION"@[0] != "URL"@[0]);
            assert("SUMMARY"@[0] != "DTSTART"@[0]);
            assert("SUMMARY"@[0] != "DESCRIPTION"@[0]);
            assert("DTSTART"@[1] != "DESCRIPTION"@[1]);
            assert(v[i as int] == (ps@[i as int].0@, ps@[i as int].1@));
            lemma_last_value_step(v, i as int, "SUMMARY"@);
            lemma_last_value_step(v, i as int, "DTSTART"@);
            lemma_last_value_step(v, i as int, "DESCRIPTION"@);
            lemma_last_value_step(v, i as int, "URL"@);
        }
        let name = &ps[i].0;
        let val = &ps[i].1;
        if *name == k_summary {
            if starts_with(val.as_str(), prefix) {
                summary = Some(val.clone());
            } else {
                proof {
                    assert(v.subrange(0, i + 1)[i as int] == v[i as int]);
                    assert(summary_mismatch(v, prefix@));
                }
                return None;
            }
        } else if *name == k_due {
            due = Some(val.clone());
        } else if *name == k_description {
            description = Some(val.clone());
        } else if *name == k_url {
            url = Some(val.clone());
        }
        proof {
            let after = v.subrange(0, i + 1);
            assert forall|j: int| 0 <= j < after.len() && after[j].0 == "SUMMARY"@ implies begins_with(
                after[j].1,
                prefix@,
            ) by {
                if j < i {
                    assert(after[j] == before[j]);
                }
            }
        }
        i = i + 1;
    }
    assert(v.subrange(0, i as int) =~= v);
    match summary {
        Some(summary) => Some(CourseInfo { summary, due, description, url }),
        None => None,
    }
}

/// Where the course calendar is and how the project's entry begins: the
/// summary starts with the course name, " project ", the project number
/// and ": ".
pub fn course_request(props: &PropMap) -> (r: Result<CourseRequest, Error>)
    requires
        props.wf(),
    ensures
        !props@.contains_key("courseName"@) ==> (r matches Err(Error::MissingProperty(k)) && k@
            == "courseName"@),
        props@.contains_key("courseName"@) && !props@.contains_key("projectNumber"@) ==> (r matches Err(
            Error::MissingProperty(k),
        ) && k@ == "projectNumber"@),
        props@.contains_key("courseName"@) && props@.contains_key("projectNumber"@) && !props@.contains_key(
            "baseURL"@,
        ) ==> (r matches Err(Error::MissingProperty(k)) && k@ == "baseURL"@),
        props@.contains_key("courseName"@) && props@.contains_key("projectNumber"@) && props@.contains_key(
            "baseURL"@,
        ) && !props@.contains_key("courseKey"@) ==> (r matches Err(Error::MissingProperty(k)) && k@
            == "courseKey"@),
        r matches Ok(q) ==> q.prefix@ == props@["courseName"@] + " project "@ + props@["projectNumber"@]
            + ": "@ && q.url@ == props@["baseURL"@] + "/feed/CourseCalendar?courseKey="@
            + props@["courseKey"@],
        props@.contains_key("courseName"@) && props@.contains_key("projectNumber"@) && props@.contains_key(
            "baseURL"@,
        ) && props@.contains_key("courseKey"@) ==> r is Ok,
{
    let name = props.get_prop("courseName")?;
    let project = props.get_prop("projectNumber")?;
    let base = props.get_prop("baseURL")?;
    let key = props.get_prop("courseKey")?;
    let prefix = name.clone().concat(" project ").concat(project.as_str()).concat(": ");
    let url = base.clone().concat("/feed/CourseCalendar?courseKey=").concat(key.as_str());
    Ok(CourseRequest { url, prefix })
}

/// The components of the first top-level component of the calendar `text`.
fn calendar_entries(text: &str) -> (r: Result<Vec<Vec<(String, String)>>, Error>)
    ensures
        calendar_of(unfolded_of(text@)) is None ==> r matches Err(Error::CalendarParse(_)),
        calendar_of(unfolded_of(text@)) is Some ==> (r matches Ok(v) && v@.map_values(
            |c: Vec<(String, String)>| pairs_view(c@),
        ) == entries_of(text@)),
{
    let unfolded = unfold_text(text);
    match read_calendar(unfolded.as_str()) {
        Ok(mut roots) => {
            if roots.len() == 0 {
                let v: Vec<Vec<(String, String)>> = Vec::new();
                assert(v@.map_values(|c: Vec<(String, String)>| pairs_view(c@)) =~= entries_of(text@));
                Ok(v)
            } else {
                let ghost v = roots@;
                let first = roots.swap_remove(0);
                assert(calendar_view(v)[0] == first@.map_values(|c: Vec<(String, String)>| pairs_view(c@)));
                assert(first@.map_values(|c: Vec<(String, String)>| pairs_view(c@)) =~= entries_of(text@));
                Ok(first)
            }
        },
        Err(e) => Err(Error::CalendarParse(e)),
    }
}

/// The spec view of the components of the first top-level component of the
/// calendar `text`; empty where there is none.
pub open spec fn entries_of(text: Seq<char>) -> Seq<Seq<(Seq<char>, Seq<char>)>> {
    match calendar_of(unfolded_of(text)) {
        Some(roots) => if roots.len() == 0 {
            Seq::empty()
        } else {
            roots[0]
        },
        None => Seq::empty(),
    }
}

/// The project's entry in the course calendar `text`: the first component
/// whose summaries begin with the request's prefix.
pub fn get_course_info(req: &CourseRequest, text: &str) -> (r: Result<CourseInfo, Error>)
    ensures
        calendar_of(unfolded_of(text@)) is None ==> r matches Err(Error::CalendarParse(_)),
        calendar_of(unfolded_of(text@)) is Some ==> match first_entry(entries_of(text@), req.prefix@, false) {
            Some(i) => r matches Ok(c) && info_matches(c, entries_of(text@)[i]),
            None => r matches Err(Error::CourseInfoNotFound),
        },
{
    let comps = match calendar_entries(text) {
        Ok(c) => c,
        Err(e) => return Err(e),
    };
    let ghost cv = comps@.map_values(|c: Vec<(String, String)>| pairs_view(c@));
    assert(cv =~= entries_of(text@));
    proof {
        lemma_first_entry_range(cv, req.prefix@, false);
    }
    let mut i: usize = 0;
    while i < comps.len()
        invariant
            i <= comps@.len(),
            cv == comps@.map_values(|c: Vec<(String, String)>| pairs_view(c@)),
            cv == entries_of(text@),
            calendar_of(unfolded_of(text@)) is Some,
            forall|j: int| 0 <= j < i ==> !is_entry(cv[j], req.prefix@),
        decreases comps@.len() - i,
    {
        proof {
            assert(cv[i as int] == pairs_view(comps@[i as int]@));
        }
        match read_component(&comps[i], req.prefix.as_str()) {
            Some(c) => {
                proof {
                    assert(cv[i as int] == pairs_view(comps@[i as int]@));
                    lemma_first_entry_index(cv, req.prefix@, false, i as int);
                }
                return Ok(c);
            },
            None => {},
        }
        i = i + 1;
    }
    Err(Error::CourseInfoNotFound)
}

proof fn lemma_first_entry_index(comps: Seq<Seq<(Seq<char>, Seq<char>)>>, prefix: Seq<char>, need_url: bool, i: int)
    requires
        0 <= i < comps.len(),
        is_entry(comps[i], prefix),
        !need_url || last_value(comps[i], "URL"@) is Some,
        forall|j: int| 0 <= j < i ==> !(is_entry(comps[j], prefix) && (!need_url || last_value(comps[j], "URL"@) is Some)),
    ensures
        first_entry(comps, prefix, need_url) == Some(i),
    decreases i,
{
    if i > 0 {
        let t = comps.drop_first();
        assert forall|j: int| 0 <= j < i - 1 implies !(is_entry(t[j], prefix) && (!need_url || last_value(t[j], "URL"@) is Some)) by {
            assert(t[j] == comps[j + 1]);
        }
        lemma_first_entry_index(t, prefix, need_url, i - 1);
    }
}

/// The address of the project's page from the course calendar `text`: that
/// of the first component whose summaries begin with the request's prefix
/// and that has one.
pub fn get_course_url(req: &CourseRequest, text: &str) -> (r: Result<String, Error>)
    ensures
        calendar_of(unfolded_of(text@)) is None ==> r matches Err(Error::CalendarParse(_)),
        calendar_of(unfolded_of(text@)) is Some ==> match first_entry(entries_of(text@), req.prefix@, true) {
            Some(i) => r matches Ok(u) && Some(u@) == last_value(entries_of(text@)[i], "URL"@),
            None => r matches Err(Error::CourseUrlNotFound),
        },
{
    let comps = match calendar_entries(text) {
        Ok(c) => c,
        Err(e) => return Err(e),
    };
    let ghost cv = comps@.map_values(|c: Vec<(String, String)>| pairs_view(c@));
    assert(cv =~= entries_of(text@));
    proof {
        lemma_first_entry_range(cv, req.prefix@, true);
    }
    let mut i: usize = 0;
    while i < comps.len()
        invariant
            i <= comps@.len(),
            cv == comps@.map_values(|c: Vec<(String, String)>| pairs_view(c@)),
            cv == entries_of(text@),
            calendar_of(unfolded_of(text@)) is Some,
            forall|j: int| 0 <= j < i ==> !(is_entry(cv[j], req.prefix@) && last_value(cv[j], "URL"@) is Some),
        decreases comps@.len() - i,
    {
        proof {
            assert(cv[i as int] == pairs_view(comps@[i as int]@));
        }
        match read_component(&comps[i], req.prefix.as_str()) {
            Some(c) => match c.url {
                Some(u) => {
                    proof {
                        assert(cv[i as int] == pairs_view(comps@[i as int]@));
                        lemma_first_entry_index(cv, req.prefix@, true, i as int);
                    }
                    return Ok(u);
                },
                None => {},
            },
            None => {},
        }
        i = i + 1;
    }
    Err(Error::CourseUrlNotFound)
}

/// The format of due dates in the course calendar.
pub open spec fn due_format_spec() -> Seq<char> {
    "[year][month][day]T[hour][minute][second]Z"@
}

/// What the `time` crate shows of the date and time `due`, read with the
/// format description `due_format` and shown with the description `fmt`;
/// nothing where a description is malformed, `due` does not match or
/// showing fails.
pub uninterp spec fn due_text_of(due: Seq<char>, due_format: Seq<char>, fmt: Seq<char>) -> Option<Seq<char>>;

/// Why a due date could not be shown.
#[derive(Debug)]
pub enum DueError {
    /// A format description is malformed.
    Description(String),
    /// The date does not match its format.
    Time(String),
    /// The date cannot be shown in the requested format.
    Format(String),
}

/// Relies on `time::format_description::parse` for both descriptions, on
/// `PrimitiveDateTime::parse` to read `due` and on `PrimitiveDateTime::format`
/// to show it; the result depends on the three texts alone.
#[verifier::external_body]
fn format_due(due: &str, due_format: &str, fmt: &str) -> (r: Result<String, DueError>)
    ensures
        r is Ok <==> due_text_of(due@, due_format@, fmt@) is Some,
        r matches Ok(s) ==> s@ == due_text_of(due@, due_format@, fmt@)->0,
{
    let input = time::format_description::parse(due_format).map_err(|e| DueError::Description(e.to_string()))?;
    let output = time::format_description::parse(fmt).map_err(|e| DueError::Description(e.to_string()))?;
    let t = time::PrimitiveDateTime::parse(due, &input).map_err(|e| DueError::Time(e.to_string()))?;
    t.format(&output).map_err(|e| DueError::Format(e.to_string()))
}

/// The text without its backslashes.
pub open spec fn without_backslashes(s: Seq<char>) -> Seq<char>
    decreases s.len(),
{
    if s.len() == 0 {
        s
    } else if s.last() == '\\' {
        without_backslashes(s.drop_last())
    } else {
        without_backslashes(s.drop_last()).push(s.last())
    }
}

/// Removes the backslashes that the calendar leaves in escaped text.
pub fn remove_backslashes(s: &str) -> (r: String)
    ensures
        r@ == without_backslashes(s@),
{
    let n = s.unicode_len();
    let mut r = String::new();
    let mut i: usize = 0;
    while i < n
        invariant
            n == s@.len(),
            i <= n,
            r@ == without_backslashes(s@.subrange(0, i as int)),
        decreases n - i,
    {
        let c = s.get_char(i);
        assert(s@.subrange(0, i + 1).drop_last() =~= s@.subrange(0, i as int));
        if c != '\\' {
            r.append(s.substring_char(i, i + 1));
            assert(s@.subrange(i as int, i + 1) =~= seq![c]);
        }
        i = i + 1;
    }
    assert(s@.subrange(0, n as int) =~= s@);
    r
}

/// The text that shows a project's entry: its summary, its due date shown
/// in the format `fmt`, its description without backslashes and its
/// address, each on a line of its own where present.
pub open spec fn info_text(c: CourseInfo, due: Option<Seq<char>>) -> Seq<char> {
    c.summary@ + "\n"@ + match due {
        Some(d) => "Due: "@ + d + "\n"@,
        None => Seq::empty(),
    } + match c.description {
        Some(d) => without_backslashes(d@) + "\n"@,
        None => Seq::empty(),
    } + match c.url {
        Some(u) => u@ + "\n"@,
        None => Seq::empty(),
    }
}

/// The text that shows `info`, with its due date in the format `fmt`.
pub fn course_info_text(info: &CourseInfo, fmt: &str) -> (r: Result<String, DueError>)
    ensures
        info.due matches Some(d) && due_text_of(d@, due_format_spec(), fmt@) is None <==> r is Err,
        r matches Ok(t) ==> t@ == info_text(*info, match info.due {
            Some(d) => due_text_of(d@, due_format_spec(), fmt@),
            None => None,
        }),
{
    let mut out = info.summary.clone();
    out.append("\n");
    match &info.due {
        Some(d) => {
            let shown = format_due(d.as_str(), "[year][month][day]T[hour][minute][second]Z", fmt)?;
            out.append("Due: ");
            out.append(shown.as_str());
            out.append("\n");
        },
        None => {},
    }
    match &info.description {
        Some(d) => {
            out.append(remove_backslashes(d.as_str()).as_str());
            out.append("\n");
        },
        None => {},
    }
    match &info.url {
        Some(u) => {
            out.append(u.as_str());
            out.append("\n");
        },
        None => {},
    }
    Ok(out)
}

} // verus!
