//! Generation: the overrides of the command line are merged into the spec's
//! variables, and each template is rendered against the result.

use vstd::prelude::*;
use crate::cli::GenArgs;
use crate::engine::{compile_fault, rendition, Engine};
use crate::path::{check_path_is_valid, judge, path_components, path_is_absolute, PathError};
use crate::specs::{Spec, Template};
use crate::value::{clone_table, coerce, coerced, insert_value, plain_entries, table_entries, Datum};
use crate::variables::{check_variables, names_first_unfit, VariableError};

verus! {

/// The variables that result from `options`, read as key and value in turn,
/// on top of `defaults`: each value is coerced and stored under its key, a
/// later pair wins over an earlier one, and a key left without a value is
/// dropped.
pub open spec fn merged(defaults: Map<Seq<char>, Datum>, options: Seq<String>) -> Map<Seq<char>, Datum>
    decreases options.len(),
{
    if options.len() < 2 {
        defaults
    } else {
        merged(defaults.insert(options[0]@, coerced(options[1]@)), options.skip(2))
    }
}

/// The pair of key and value that starts at `index` of the options.
pub open spec fn is_pair(options: Seq<String>, index: int) -> bool {
    0 <= index && index % 2 == 0 && index + 1 < options.len()
}

/// No pair of the options names `key`.
pub open spec fn is_unnamed(options: Seq<String>, key: Seq<char>) -> bool {
    forall|i: int| is_pair(options, i) ==> (#[trigger] options[i])@ != key
}

/// Without options the variables are the defaults.
pub proof fn no_options_leave_the_defaults(defaults: Map<Seq<char>, Datum>)
    ensures
        merged(defaults, Seq::<String>::empty()) == defaults,
{
}

/// A key that is left without a value at the end of the options is dropped:
/// the result is that of the options before it.
pub proof fn a_trailing_key_is_dropped(defaults: Map<Seq<char>, Datum>, options: Seq<String>, last: String)
    requires
        options.len() % 2 == 0,
    ensures
        merged(defaults, options.push(last)) == merged(defaults, options),
    decreases options.len(),
{
    if options.len() >= 2 {
        let longer = options.push(last);
        assert(longer[0] == options[0] && longer[1] == options[1]);
        assert(longer.skip(2) =~= options.skip(2).push(last));
        a_trailing_key_is_dropped(defaults.insert(options[0]@, coerced(options[1]@)), options.skip(2), last);
    }
}

/// A key that no option names keeps what the defaults hold under it, and
/// stays absent where they hold nothing.
pub proof fn an_unnamed_key_keeps_its_default(defaults: Map<Seq<char>, Datum>, options: Seq<String>, key: Seq<char>)
    requires
        is_unnamed(options, key),
    ensures
        merged(defaults, options).contains_key(key) == defaults.contains_key(key),
        defaults.contains_key(key) ==> merged(defaults, options)[key] == defaults[key],
    decreases options.len(),
{
    if options.len() >= 2 {
        let rest = options.skip(2);
        assert(is_pair(options, 0));
        assert(options[0]@ != key);
        assert forall|i: int| is_pair(rest, i) implies (#[trigger] rest[i])@ != key by {
            assert(is_pair(options, i + 2));
            assert(rest[i] == options[i + 2]);
        }
        an_unnamed_key_keeps_its_default(defaults.insert(options[0]@, coerced(options[1]@)), rest, key);
    }
}

/// A key that the options name holds the coerced value of the last pair
/// that names it, whatever the defaults and the earlier pairs hold.
pub proof fn the_last_pair_of_a_key_decides(defaults: Map<Seq<char>, Datum>, options: Seq<String>, index: int)
    requires
        is_pair(options, index),
        forall|j: int| index < j && is_pair(options, j) ==> (#[trigger] options[j])@ != options[index]@,
    ensures
        merged(defaults, options).contains_key(options[index]@),
        merged(defaults, options)[options[index]@] == coerced(options[index + 1]@),
    decreases options.len(),
{
    let rest = options.skip(2);
    let first = defaults.insert(options[0]@, coerced(options[1]@));
    if index == 0 {
        assert forall|i: int| is_pair(rest, i) implies (#[trigger] rest[i])@ != options[0]@ by {
            assert(is_pair(options, i + 2));
            assert(rest[i] == options[i + 2]);
        }
        an_unnamed_key_keeps_its_default(first, rest, options[0]@);
    } else {
        assert(rest[index - 2] == options[index]);
        assert(rest[index - 1] == options[index + 1]);
        assert forall|j: int| index - 2 < j && is_pair(rest, j) implies (#[trigger] rest[j])@ != rest[index - 2]@ by {
            assert(is_pair(options, j + 2));
            assert(rest[j] == options[j + 2]);
        }
        the_last_pair_of_a_key_decides(first, rest, index - 2);
    }
}

/// Merges the options given on the command line into the variables of a
/// spec. An option overrides the default of the same name and is added where
/// there is none; the defaults themselves are left as they are.
pub fn merge_options(defaults: &toml::Table, options: Vec<String>) -> (variables: toml::Table)
    ensures
        table_entries(variables) == merged(table_entries(*defaults), options@),
        plain_entries(table_entries(*defaults)) ==> plain_entries(table_entries(variables)),
{
    merge(defaults, &options)
}

/// Merges `options` into a copy of `defaults`, pair by pair. What is merged
/// in is always a value that a variable may hold, so a table that can be
/// generated from stays one.
pub fn merge(defaults: &toml::Table, options: &Vec<String>) -> (variables: toml::Table)
    ensures
        table_entries(variables) == merged(table_entries(*defaults), options@),
        plain_entries(table_entries(*defaults)) ==> plain_entries(table_entries(variables)),
{
    let mut variables = clone_table(defaults);
    let mut i: usize = 0;
    assert(options@.skip(0) =~= options@);
    while options.len() - i >= 2
        invariant
            0 <= i <= options.len(),
            merged(table_entries(variables), options@.skip(i as int)) == merged(
                table_entries(*defaults),
                options@,
            ),
            plain_entries(table_entries(*defaults)) ==> plain_entries(table_entries(variables)),
        decreases options.len() - i,
    {
        let ghost rest = options@.skip(i as int);
        let key = options[i].clone();
        let value = coerce(options[i + 1].as_str());
        assert(rest[0] == options@[i as int]);
        assert(rest[1] == options@[i + 1]);
        assert(rest.skip(2) =~= options@.skip(i + 2));
        insert_value(&mut variables, key, value);
        i = i + 2;
    }
    variables
}

/// Where the spec to generate comes from.
#[derive(Debug, PartialEq)]
pub enum SpecSource {
    /// The spec of this name in the store.
    Named { name: String },
    /// The spec file at this path.
    File { path: String },
}

/// Why no spec could be picked.
#[derive(Clone, Copy, Debug, PartialEq, Eq, Structural)]
pub enum SourceError {
    /// Neither a name nor a file was given.
    Neither,
    /// A name and a file were given.
    Both,
}

/// Picks the spec to generate: the one named, or the file given. Exactly
/// one of the two has to be there.
pub fn spec_source(args: &GenArgs) -> (source: Result<SpecSource, SourceError>)
    ensures
        args.name is Some && args.spec_file is Some ==> source == Err::<SpecSource, SourceError>(
            SourceError::Both,
        ),
        args.name is None && args.spec_file is None ==> source == Err::<SpecSource, SourceError>(
            SourceError::Neither,
        ),
        args.name is Some && args.spec_file is None ==> (source matches Ok(SpecSource::Named { name }) && name@
            == args.name->0@),
        args.name is None && args.spec_file is Some ==> (source matches Ok(SpecSource::File { path }) && path@
            == args.spec_file->0@),
{
    match (&args.name, &args.spec_file) {
        (Some(_), Some(_)) => Err(SourceError::Both),
        (None, None) => Err(SourceError::Neither),
        (Some(name), None) => Ok(SpecSource::Named { name: name.clone() }),
        (None, Some(path)) => Ok(SpecSource::File { path: path.clone() }),
    }
}

/// The step at which a template failed.
#[derive(Clone, Copy, Debug, PartialEq, Eq, Structural)]
pub enum Stage {
    /// The engine refused the template source.
    Compile,
    /// The engine accepted the source and failed to render it.
    Render,
}

/// What became of one template.
#[derive(Debug, PartialEq)]
pub enum Outcome {
    /// The text to write at `path`.
    Rendered { path: String, text: String },
    /// The template at `path` failed, with the text of the engine's error.
    Failed { path: String, stage: Stage, message: String },
}

/// An outcome as plain data.
pub enum OutcomeView {
    Rendered { path: Seq<char>, text: Seq<char> },
    Failed { path: Seq<char>, stage: Stage, message: Seq<char> },
}

impl View for Outcome {
    type V = OutcomeView;

    open spec fn view(&self) -> OutcomeView {
        match *self {
            Outcome::Rendered { path, text } => OutcomeView::Rendered { path: path@, text: text@ },
            Outcome::Failed { path, stage, message } => OutcomeView::Failed {
                path: path@,
                stage,
                message: message@,
            },
        }
    }
}

/// A template whose path was refused, which ends the run.
#[derive(Debug, PartialEq)]
pub struct Refusal {
    pub path: String,
    pub reason: PathError,
}

/// The result of rendering the templates of a spec: one outcome for each
/// template up to the first whose path was refused, and that refusal.
#[derive(Debug, PartialEq)]
pub struct Generation {
    pub outcomes: Vec<Outcome>,
    pub refused: Option<Refusal>,
}

/// The decision on the path of a template.
pub open spec fn path_verdict(path: Seq<char>) -> Result<(), PathError> {
    judge(path_is_absolute(path), path_components(path))
}

/// The templates that the engine holds once the first `count` templates of
/// the spec have been taken: those that compile, each under its path, a later
/// one in place of an earlier one of the same path.
pub open spec fn loaded_after(templates: Seq<Template>, count: int) -> Map<Seq<char>, Seq<char>>
    decreases count,
{
    if count <= 0 {
        Map::empty()
    } else {
        let before = loaded_after(templates, count - 1);
        let template = templates[count - 1];
        if compile_fault(template.path@, template.body@) is None {
            before.insert(template.path@, template.body@)
        } else {
            before
        }
    }
}

/// What becomes of the template at `index`: it fails where its source does
/// not compile or does not render, and yields its text otherwise.
pub open spec fn outcome_of(
    templates: Seq<Template>,
    index: int,
    variables: Map<Seq<char>, Datum>,
) -> OutcomeView {
    let template = templates[index];
    match compile_fault(template.path@, template.body@) {
        Some(message) => OutcomeView::Failed { path: template.path@, stage: Stage::Compile, message },
        None => match rendition(loaded_after(templates, index + 1), template.path@, variables) {
            Ok(text) => OutcomeView::Rendered { path: template.path@, text },
            Err(message) => OutcomeView::Failed { path: template.path@, stage: Stage::Render, message },
        },
    }
}

/// `run` is what rendering `templates` against `variables` gives: one
/// outcome for each template, in order, up to the first whose path is
/// refused; that refusal, if there is one; and every template taken where
/// there is none.
pub open spec fn is_generation(
    run: Generation,
    templates: Seq<Template>,
    variables: Map<Seq<char>, Datum>,
) -> bool {
    &&& run.outcomes.len() <= templates.len()
    &&& forall|i: int| 0 <= i < run.outcomes.len() ==> path_verdict(#[trigger] templates[i].path@) is Ok
    &&& forall|i: int|
        0 <= i < run.outcomes.len() ==> (#[trigger] run.outcomes[i])@ == outcome_of(templates, i, variables)
    &&& run.refused is None ==> run.outcomes.len() == templates.len()
    &&& run.refused is Some ==> {
        &&& run.outcomes.len() < templates.len()
        &&& run.refused->0.path@ == templates[run.outcomes.len() as int].path@
        &&& path_verdict(run.refused->0.path@) == Err::<(), PathError>(run.refused->0.reason)
    }
}

/// The path of an outcome.
pub open spec fn outcome_path(outcome: OutcomeView) -> Seq<char> {
    match outcome {
        OutcomeView::Rendered { path, text } => path,
        OutcomeView::Failed { path, stage, message } => path,
    }
}

/// Every template of the spec has a path that passes the path check.
pub open spec fn has_safe_paths(templates: Seq<Template>) -> bool {
    forall|i: int| 0 <= i < templates.len() ==> path_verdict(#[trigger] templates[i].path@) is Ok
}

/// A run is refused exactly when some template has an unsafe path; a run
/// that is not refused has an outcome for every template.
pub proof fn a_run_is_refused_exactly_for_an_unsafe_path(
    run: Generation,
    templates: Seq<Template>,
    variables: Map<Seq<char>, Datum>,
)
    requires
        is_generation(run, templates, variables),
    ensures
        run.refused is None <==> has_safe_paths(templates),
        has_safe_paths(templates) ==> run.outcomes.len() == templates.len(),
{
    if run.refused is Some {
        assert(path_verdict(templates[run.outcomes.len() as int].path@) is Err);
    }
}

/// The outcomes come in the order of the templates: each outcome, rendered
/// or failed, bears the path of the template at its place.
pub proof fn every_outcome_bears_the_path_of_its_template(
    run: Generation,
    templates: Seq<Template>,
    variables: Map<Seq<char>, Datum>,
    index: int,
)
    requires
        is_generation(run, templates, variables),
        0 <= index < run.outcomes.len(),
    ensures
        outcome_path(run.outcomes[index]@) == templates[index].path@,
{
}

/// A template that fails does not end the run: whether a later template has
/// an outcome depends on the paths alone.
pub proof fn a_failure_does_not_end_the_run(
    run: Generation,
    templates: Seq<Template>,
    variables: Map<Seq<char>, Datum>,
    index: int,
)
    requires
        is_generation(run, templates, variables),
        0 <= index < run.outcomes.len(),
        run.outcomes[index]@ is Failed,
        has_safe_paths(templates),
    ensures
        run.outcomes.len() == templates.len(),
{
    a_run_is_refused_exactly_for_an_unsafe_path(run, templates, variables);
}

/// Generates a spec: the options of the command line are merged into the
/// spec's variables, and the templates are rendered against the result, as
/// [`render_templates`] does. The spec itself is left as it is. A spec whose
/// variables cannot be generated from is refused before anything is
/// rendered, with the variable that stands against it.
pub fn generate(spec: &Spec, args: &GenArgs) -> (run: Result<Generation, VariableError>)
    ensures
        run is Ok <==> plain_entries(table_entries(spec.variables)),
        run is Ok ==> is_generation(
            run->Ok_0,
            spec.templates@,
            merged(table_entries(spec.variables), args.options@),
        ),
        run is Err ==> names_first_unfit(run->Err_0, table_entries(spec.variables)),
{
    match check_variables(&spec.variables) {
        Err(error) => Err(error),
        Ok(()) => {
            let variables = merge(&spec.variables, &args.options);
            Ok(render_templates(spec, &variables))
        },
    }
}

/// Renders the templates of `spec` against `variables`, in the order of the
/// spec. A template whose path is refused ends the run at once. A template
/// that fails to compile or to render is recorded and the run goes on.
/// Nothing is written: the texts are handed back, each with its path.
pub fn render_templates(spec: &Spec, variables: &toml::Table) -> (run: Generation)
    requires
        plain_entries(table_entries(*variables)),
    ensures
        is_generation(run, spec.templates@, table_entries(*variables)),
{
    let mut engine = Engine::new();
    let mut outcomes: Vec<Outcome> = Vec::new();
    let mut i: usize = 0;
    while i < spec.templates.len()
        invariant
            0 <= i <= spec.templates.len(),
            outcomes.len() == i,
            plain_entries(table_entries(*variables)),
            engine.templates() == loaded_after(spec.templates@, i as int),
            forall|k: int| 0 <= k < i ==> path_verdict(#[trigger] spec.templates[k].path@) is Ok,
            forall|k: int|
                0 <= k < i ==> (#[trigger] outcomes[k])@ == outcome_of(
                    spec.templates@,
                    k,
                    table_entries(*variables),
                ),
        decreases spec.templates.len() - i,
    {
        let template = &spec.templates[i];
        match check_path_is_valid(template.path.as_str()) {
            Err(reason) => {
                return Generation { outcomes, refused: Some(Refusal { path: template.path.clone(), reason }) };
            },
            Ok(()) => {},
        }
        let outcome = match engine.load(template.path.as_str(), template.body.as_str()) {
            Err(message) => Outcome::Failed { path: template.path.clone(), stage: Stage::Compile, message },
            Ok(()) => match engine.render(template.path.as_str(), variables) {
                Ok(text) => Outcome::Rendered { path: template.path.clone(), text },
                Err(message) => Outcome::Failed { path: template.path.clone(), stage: Stage::Render, message },
            },
        };
        assert(outcome@ == outcome_of(spec.templates@, i as int, table_entries(*variables)));
        outcomes.push(outcome);
        i = i + 1;
    }
    Generation { outcomes, refused: None }
}

/// A template that could not be generated, with the reason as text.
#[derive(Debug, PartialEq)]
pub struct Failure {
    pub path: String,
    pub message: String,
}

/// A failure as plain data: the path and the reason.
pub open spec fn failure_view(failure: Failure) -> (Seq<char>, Seq<char>) {
    (failure.path@, failure.message@)
}

/// What went wrong while the text of the outcome at `index` was written, if
/// anything did.
pub open spec fn problem_at(problems: Seq<Option<String>>, index: int) -> Option<Seq<char>> {
    if 0 <= index < problems.len() && problems[index] is Some {
        Some(problems[index]->0@)
    } else {
        None
    }
}

/// The failure that an outcome amounts to once its text has been written or
/// not: a template that failed is a failure with the engine's error, one
/// whose text could not be written is a failure with what went wrong, and
/// one that was written is none.
pub open spec fn failure_at(outcome: OutcomeView, problem: Option<Seq<char>>) -> Option<(Seq<char>, Seq<char>)> {
    match outcome {
        OutcomeView::Failed { path, stage, message } => Some((path, message)),
        OutcomeView::Rendered { path, text } => match problem {
            Some(reason) => Some((path, reason)),
            None => None,
        },
    }
}

/// The failures of the first `count` outcomes, in their order.
pub open spec fn failures_of(outcomes: Seq<Outcome>, problems: Seq<Option<String>>, count: int) -> Seq<
    (Seq<char>, Seq<char>),
>
    decreases count,
{
    if count <= 0 {
        Seq::empty()
    } else {
        let before = failures_of(outcomes, problems, count - 1);
        match failure_at(outcomes[count - 1]@, problem_at(problems, count - 1)) {
            Some(failure) => before.push(failure),
            None => before,
        }
    }
}

/// Tells whether an outcome is a failure, once its text has been written or
/// not. `problem` is what went wrong while writing, if anything did.
pub fn failure_of(outcome: &Outcome, problem: &Option<String>) -> (failure: Option<Failure>)
    ensures
        failure is Some <==> failure_at(outcome@, problem_at(seq![*problem], 0)) is Some,
        failure is Some ==> failure_view(failure->0) == failure_at(outcome@, problem_at(seq![*problem], 0))->0,
{
    match outcome {
        Outcome::Failed { path, stage, message } => Some(
            Failure { path: path.clone(), message: message.clone() },
        ),
        Outcome::Rendered { path, text } => match problem {
            Some(reason) => Some(Failure { path: path.clone(), message: reason.clone() }),
            None => None,
        },
    }
}

/// Gathers the failures of a run, in the order of the templates.
/// `problems` holds, for each outcome in turn, what went wrong while its
/// text was written, if anything did; an outcome without an entry counts as
/// written.
pub fn collect_failures(outcomes: &Vec<Outcome>, problems: &Vec<Option<String>>) -> (failures: Vec<Failure>)
    ensures
        failures.len() == failures_of(outcomes@, problems@, outcomes.len() as int).len(),
        forall|i: int|
            0 <= i < failures.len() ==> failure_view(#[trigger] failures[i]) == failures_of(
                outcomes@,
                problems@,
                outcomes.len() as int,
            )[i],
{
    let mut failures: Vec<Failure> = Vec::new();
    let none: Option<String> = None;
    let mut i: usize = 0;
    while i < outcomes.len()
        invariant
            0 <= i <= outcomes.len(),
            none is None,
            failures.len() == failures_of(outcomes@, problems@, i as int).len(),
            forall|k: int|
                0 <= k < failures.len() ==> failure_view(#[trigger] failures[k]) == failures_of(
                    outcomes@,
                    problems@,
                    i as int,
                )[k],
        decreases outcomes.len() - i,
    {
        let problem = if i < problems.len() {
            &problems[i]
        } else {
            &none
        };
        assert(problem_at(seq![*problem], 0) == problem_at(problems@, i as int));
        if let Some(failure) = failure_of(&outcomes[i], problem) {
            failures.push(failure);
        }
        i = i + 1;
    }
    failures
}

/// Where exactly one template of a run fails, to render or to be written,
/// the failures are that one alone, under the path of its template.
pub proof fn a_single_failure_is_reported_alone(
    outcomes: Seq<Outcome>,
    problems: Seq<Option<String>>,
    bad: int,
    count: int,
)
    requires
        0 <= bad < outcomes.len(),
        0 <= count <= outcomes.len(),
        failure_at(outcomes[bad]@, problem_at(problems, bad)) is Some,
        forall|i: int|
            0 <= i < outcomes.len() && i != bad ==> failure_at(
                (#[trigger] outcomes[i])@,
                problem_at(problems, i),
            ) is None,
    ensures
        bad < count ==> failures_of(outcomes, problems, count) == seq![
            failure_at(outcomes[bad]@, problem_at(problems, bad))->0,
        ],
        bad < count ==> failures_of(outcomes, problems, count)[0].0 == outcome_path(outcomes[bad]@),
        bad >= count ==> failures_of(outcomes, problems, count).len() == 0,
    decreases count,
{
    if count > 0 {
        a_single_failure_is_reported_alone(outcomes, problems, bad, count - 1);
        if count - 1 != bad {
            assert(failure_at(outcomes[count - 1]@, problem_at(problems, count - 1)) is None);
        } else {
            assert(failures_of(outcomes, problems, count) =~= seq![
                failure_at(outcomes[bad]@, problem_at(problems, bad))->0,
            ]);
        }
    }
}

/// What is said when templates failed: the lines for the error stream, and
/// the message of the error that ends the command.
#[derive(Debug, PartialEq)]
pub struct FailureReport {
    pub lines: Vec<String>,
    pub summary: String,
}

/// The character of a decimal digit.
pub open spec fn digit_char(digit: nat) -> char {
    if digit == 0 {
        '0'
    } else if digit == 1 {
        '1'
    } else if digit == 2 {
        '2'
    } else if digit == 3 {
        '3'
    } else if digit == 4 {
        '4'
    } else if digit == 5 {
        '5'
    } else if digit == 6 {
        '6'
    } else if digit == 7 {
        '7'
    } else if digit == 8 {
        '8'
    } else {
        '9'
    }
}

/// The decimal digits of a number, without sign or padding.
pub open spec fn decimal_text(n: nat) -> Seq<char>
    decreases n,
{
    if n < 10 {
        seq![digit_char(n)]
    } else {
        decimal_text(n / 10).push(digit_char(n % 10))
    }
}

fn digit_text(value: usize) -> (text: &'static str)
    requires
        value < 10,
    ensures
        text@ == seq![digit_char(value as nat)],
{
    proof {
        reveal_strlit("0");
        reveal_strlit("1");
        reveal_strlit("2");
        reveal_strlit("3");
        reveal_strlit("4");
        reveal_strlit("5");
        reveal_strlit("6");
        reveal_strlit("7");
        reveal_strlit("8");
        reveal_strlit("9");
    }
    let text = if value == 0 {
        "0"
    } else if value == 1 {
        "1"
    } else if value == 2 {
        "2"
    } else if value == 3 {
        "3"
    } else if value == 4 {
        "4"
    } else if value == 5 {
        "5"
    } else if value == 6 {
        "6"
    } else if value == 7 {
        "7"
    } else if value == 8 {
        "8"
    } else {
        "9"
    };
    assert(text@ =~= seq![digit_char(value as nat)]);
    text
}

/// Writes a number in decimal digits.
pub fn decimal(n: usize) -> (text: String)
    ensures
        text@ == decimal_text(n as nat),
    decreases n,
{
    if n < 10 {
        digit_text(n).to_owned()
    } else {
        let mut text = decimal(n / 10);
        let last = digit_text(n % 10);
        assert(text@ + last@ =~= decimal_text((n / 10) as nat).push(digit_char((n % 10) as nat)));
        text.append(last);
        text
    }
}

/// The line that opens the list of failures of the spec `name`.
pub open spec fn failure_heading(name: Seq<char>) -> Seq<char> {
    "\nThe following errors occurred while generating "@ + name
}

/// The line that tells of one failure.
pub open spec fn failure_line(path: Seq<char>, message: Seq<char>) -> Seq<char> {
    "\t"@ + path + ": "@ + message
}

/// The message of the error that ends a run in which `count` templates of the
/// spec `name` failed.
pub open spec fn failure_summary(count: nat, name: Seq<char>) -> Seq<char> {
    decimal_text(count) + " template(s) in "@ + name + " failed to generate"@
}

/// Sums up the templates of the spec `name` that failed. Where none failed
/// there is nothing to report. Else the report holds a heading, one line for
/// each failure in the order given, and the closing message with their count.
pub fn report_failures(name: &str, failures: &Vec<Failure>) -> (report: Option<FailureReport>)
    ensures
        report is None <==> failures.len() == 0,
        report is Some ==> {
            let lines = report->0.lines;
            &&& lines.len() == failures.len() + 1
            &&& lines[0]@ == failure_heading(name@)
            &&& forall|i: int|
                0 <= i < failures.len() ==> (#[trigger] lines[i + 1])@ == failure_line(
                    failures[i].path@,
                    failures[i].message@,
                )
            &&& report->0.summary@ == failure_summary(failures.len() as nat, name@)
        },
{
    if failures.len() == 0 {
        return None;
    }
    let mut lines: Vec<String> = Vec::new();
    let mut heading = String::from_str("\nThe following errors occurred while generating ");
    heading.append(name);
    lines.push(heading);
    let mut i: usize = 0;
    while i < failures.len()
        invariant
            0 <= i <= failures.len(),
            lines.len() == i + 1,
            lines[0]@ == failure_heading(name@),
            forall|k: int|
                0 <= k < i ==> (#[trigger] lines[k + 1])@ == failure_line(
                    failures[k].path@,
                    failures[k].message@,
                ),
        decreases failures.len() - i,
    {
        let mut line = String::from_str("\t");
        line.append(failures[i].path.as_str());
        line.append(": ");
        line.append(failures[i].message.as_str());
        lines.push(line);
        i = i + 1;
    }
    let mut summary = decimal(failures.len());
    summary.append(" template(s) in ");
    summary.append(name);
    summary.append(" failed to generate");
    Some(FailureReport { lines, summary })
}

} // verus!
