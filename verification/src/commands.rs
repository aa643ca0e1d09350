//! The two commands that the front-end can invoke.
use vstd::prelude::*;

verus! {

/// The text that opens every greeting.
pub open spec fn greeting_prefix() -> Seq<char> {
    "Hello, "@
}

/// The text that closes every greeting.
pub open spec fn greeting_suffix() -> Seq<char> {
    "! You've been greeted from Rust!"@
}

/// The greeting for `name`: the opening, the name as given, the closing.
pub open spec fn greeting(name: Seq<char>) -> Seq<char> {
    greeting_prefix() + name + greeting_suffix()
}

/// Whether `part` stands in `whole`, unchanged, from position `at` on.
pub open spec fn occurs_at(whole: Seq<char>, part: Seq<char>, at: int) -> bool {
    &&& 0 <= at
    &&& at + part.len() <= whole.len()
    &&& whole.subrange(at, at + part.len()) == part
}

/// Where the name sits inside a greeting, whatever the name is: right after
/// the opening and right before the closing.
pub proof fn lemma_greeting_shape(name: Seq<char>)
    ensures
        greeting(name).len() == greeting_prefix().len() + name.len() + greeting_suffix().len(),
        greeting_prefix().is_prefix_of(greeting(name)),
        greeting_suffix().is_suffix_of(greeting(name)),
        occurs_at(greeting(name), name, greeting_prefix().len() as int),
{
    let p = greeting_prefix();
    let s = greeting_suffix();
    let g = greeting(name);
    assert(g.subrange(0, p.len() as int) =~= p);
    assert(g.subrange(g.len() - s.len(), g.len() as int) =~= s);
    assert(g.subrange(p.len() as int, p.len() as int + name.len()) =~= name);
}

/// Greets `name`. Nothing about the name is checked or changed: it appears in
/// the result exactly as it was given, between the fixed opening and closing.
pub fn greet(name: &str) -> (out: String)
    ensures
        out@ == greeting(name@),
        greeting_prefix().is_prefix_of(out@),
        greeting_suffix().is_suffix_of(out@),
        occurs_at(out@, name@, greeting_prefix().len() as int),
{
    let mut out = "Hello, ".to_owned();
    out.append(name);
    out.append("! You've been greeted from Rust!");
    proof {
        lemma_greeting_shape(name@);
    }
    out
}

/// The text that opens every analysis report.
pub open spec fn analysis_prefix() -> Seq<char> {
    "Analysis complete for: "@
}

/// The report on `email_data`: the opening, then the data as given.
pub open spec fn analysis_report(email_data: Seq<char>) -> Seq<char> {
    analysis_prefix() + email_data
}

/// Reports on a piece of e-mail. No analysis is carried out yet: the report
/// only acknowledges the data, whatever it holds. The error side of the
/// result is kept for the analysis to come; for now every call succeeds.
pub fn analyze_email(email_data: String) -> (result: Result<String, String>)
    ensures
        result is Ok,
        result->Ok_0@ == analysis_report(email_data@),
{
    let mut report = "Analysis complete for: ".to_owned();
    report.append(email_data.as_str());
    Ok(report)
}

} // verus!
