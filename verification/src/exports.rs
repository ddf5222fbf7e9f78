//! The text the project's export tools write: the report of every Module's
//! escape hatches that the guard reads, the normalized client bindings, and
//! the error for a Module name that no Module carries.

use vstd::prelude::*;
use crate::text::push_str;

verus! {

/// `text` between double quotes.
pub open spec fn quoted(text: Seq<char>) -> Seq<char> {
    "\""@ + text + "\""@
}

/// `items` joined by `separator`.
pub open spec fn joined(items: Seq<Seq<char>>, separator: Seq<char>) -> Seq<char>
    decreases items.len(),
{
    if items.len() == 0 {
        Seq::empty()
    } else if items.len() == 1 {
        items[0]
    } else {
        joined(items.drop_last(), separator) + separator + items.last()
    }
}

/// One Module's line of the report: its name, and its escape hatches in
/// declaration order, each quoted.
pub open spec fn report_entry(name: Seq<char>, hatches: Seq<&'static str>) -> Seq<char> {
    "  "@ + quoted(name) + ": ["@ + joined(hatches.map_values(|hatch: &'static str| quoted(hatch@)), ", "@)
        + "]"@
}

/// The escape-hatch report: a JSON object with one line per Module, in
/// Module order.
pub open spec fn report_spec(modules: Seq<(&'static str, Vec<&'static str>)>) -> Seq<char> {
    "{\n"@ + joined(
        modules.map_values(|module: (&'static str, Vec<&'static str>)| report_entry(module.0@, module.1@)),
        ",\n"@,
    ) + "\n}"@
}

/// Appends `items` quoted and joined by `", "` to `text`.
fn push_quoted_list(text: &mut String, items: &Vec<&'static str>)
    ensures
        final(text)@ == old(text)@ + joined(items@.map_values(|item: &'static str| quoted(item@)), ", "@),
{
    let ghost start = text@;
    let ghost view = items@.map_values(|item: &'static str| quoted(item@));
    let mut i: usize = 0;
    while i < items.len()
        invariant
            i <= items@.len(),
            view == items@.map_values(|item: &'static str| quoted(item@)),
            text@ == start + joined(view.take(i as int), ", "@),
        decreases items@.len() - i,
    {
        assert(view.take(i + 1).drop_last() =~= view.take(i as int));
        if i > 0 {
            push_str(text, ", ");
        }
        push_str(text, "\"");
        push_str(text, items[i]);
        push_str(text, "\"");
        proof {
            if i == 0 {
                assert(view.take(1) =~= seq![view[0]]);
            }
            assert(view.take(i + 1).last() == quoted(items@[i as int]@));
        }
        assert(text@ =~= start + joined(view.take(i + 1), ", "@));
        i += 1;
    }
    assert(view.take(i as int) =~= view);
}

/// The escape-hatch report of `modules`, each given by its name and its
/// declared escape hatches: a JSON object mapping every Module name to the
/// list of its hatches.
pub fn escape_hatch_report(modules: &Vec<(&'static str, Vec<&'static str>)>) -> (report: String)
    ensures
        report@ == report_spec(modules@),
{
    let ghost entries = modules@.map_values(
        |module: (&'static str, Vec<&'static str>)| report_entry(module.0@, module.1@),
    );
    let mut report = "{\n".to_owned();
    let mut i: usize = 0;
    while i < modules.len()
        invariant
            i <= modules@.len(),
            entries == modules@.map_values(
                |module: (&'static str, Vec<&'static str>)| report_entry(module.0@, module.1@),
            ),
            report@ == "{\n"@ + joined(entries.take(i as int), ",\n"@),
        decreases modules@.len() - i,
    {
        assert(entries.take(i + 1).drop_last() =~= entries.take(i as int));
        let ghost before = report@;
        if i > 0 {
            push_str(&mut report, ",\n");
        }
        let ghost separated = report@;
        push_str(&mut report, "  ");
        push_str(&mut report, "\"");
        push_str(&mut report, modules[i].0);
        push_str(&mut report, "\"");
        push_str(&mut report, ": [");
        push_quoted_list(&mut report, &modules[i].1);
        push_str(&mut report, "]");
        proof {
            if i == 0 {
                assert(entries.take(1) =~= seq![entries[0]]);
            }
            assert(entries.take(i + 1).last() == entries[i as int]);
            assert(report@ =~= separated + report_entry(modules@[i as int].0@, modules@[i as int].1@));
        }
        assert(report@ =~= "{\n"@ + joined(entries.take(i + 1), ",\n"@));
        i += 1;
    }
    assert(entries.take(i as int) =~= entries);
    push_str(&mut report, "\n}");
    report
}

/// What `str::trim_end` leaves of a text.
pub uninterp spec fn spec_trim_end(text: Seq<char>) -> Seq<char>;

/// `str::trim_end`.
///
/// Trusted: the result is the standard library's `text` with trailing
/// whitespace removed, named by `spec_trim_end`; Unicode's whitespace
/// property is not stated here.
#[verifier::external_body]
fn trim_end(text: &str) -> (trimmed: &str)
    ensures
        trimmed@ == spec_trim_end(text@),
{
    text.trim_end()
}

/// Generated client bindings with their trailing whitespace replaced by
/// exactly one newline.
pub fn normalized_bindings(generated: &str) -> (normalized: String)
    ensures
        normalized@ == spec_trim_end(generated@) + "\n"@,
{
    let mut normalized = trim_end(generated).to_owned();
    push_str(&mut normalized, "\n");
    normalized
}

/// The error for a Module name that no Module carries.
pub fn unknown_module_message(name: &str) -> (message: String)
    ensures
        message@ == "unknown module "@ + quoted(name@),
{
    let mut message = "unknown module ".to_owned();
    push_str(&mut message, "\"");
    push_str(&mut message, name);
    push_str(&mut message, "\"");
    message
}

} // verus!
