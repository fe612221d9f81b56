//! The template engine, as far as generation uses it: templates are loaded
//! into an environment one by one, and each is rendered against a table of
//! variables.

use vstd::prelude::*;
use crate::value::{plain_entries, table_entries, Datum};

verus! {

/// The environment of the `minijinja` crate. Verus sees nothing inside it: the
/// templates that it holds are spoken of through [`loaded_templates`].
#[verifier::external_type_specification]
#[verifier::external_body]
pub struct ExEnvironment<'source>(minijinja::Environment<'source>);

/// The templates that an environment holds: each name with its source.
pub uninterp spec fn loaded_templates(env: minijinja::Environment) -> Map<Seq<char>, Seq<char>>;

/// What `minijinja::Environment::add_template` has against `source` under
/// `name`: the text of its error, and `None` where it accepts the source.
pub uninterp spec fn compile_fault(name: Seq<char>, source: Seq<char>) -> Option<Seq<char>>;

/// What rendering the template `name` yields, in an environment with the
/// engine's defaults that holds `templates`, against `variables`: the text,
/// or the text of the engine's error.
pub uninterp spec fn rendition(
    templates: Map<Seq<char>, Seq<char>>,
    name: Seq<char>,
    variables: Map<Seq<char>, Datum>,
) -> Result<Seq<char>, Seq<char>>;

/// Calls `minijinja::Environment::new`, which makes an environment with the
/// engine's defaults and no template.
#[verifier::external_body]
fn new_environment<'source>() -> (env: minijinja::Environment<'source>)
    ensures
        loaded_templates(env) =~= Map::empty(),
{
    minijinja::Environment::new()
}

/// Calls `minijinja::Environment::add_template`. It compiles `source`; on
/// success the environment holds it under `name`, in place of what it held
/// under that name; on a syntax error the environment is left as it was. The
/// error is handed on as its text.
#[verifier::external_body]
fn load_template<'source>(
    env: &mut minijinja::Environment<'source>,
    name: &'source str,
    source: &'source str,
) -> (loaded: Result<(), String>)
    ensures
        loaded is Ok <==> compile_fault(name@, source@) is None,
        loaded is Err ==> compile_fault(name@, source@) == Some(loaded->Err_0@),
        loaded is Ok ==> loaded_templates(*final(env)) == loaded_templates(*old(env)).insert(
            name@,
            source@,
        ),
        loaded is Err ==> loaded_templates(*final(env)) == loaded_templates(*old(env)),
{
    env.add_template(name, source).map_err(|error| error.to_string())
}

/// Calls `minijinja::Environment::get_template` and then
/// `minijinja::Template::render` with the table as context. The contract
/// names the outcome as a function of the templates held, the name and the
/// table's entries. The table is written out on the way, which fails on a
/// date-time that no TOML text denotes: such tables are left out. The error
/// is handed on as its text.
#[verifier::external_body]
fn render_template(env: &minijinja::Environment, name: &str, variables: &toml::Table) -> (rendered: Result<
    String,
    String,
>)
    requires
        plain_entries(table_entries(*variables)),
    ensures
        rendered is Ok <==> rendition(loaded_templates(*env), name@, table_entries(*variables)) is Ok,
        rendered is Ok ==> rendered->Ok_0@ == rendition(
            loaded_templates(*env),
            name@,
            table_entries(*variables),
        )->Ok_0,
        rendered is Err ==> rendered->Err_0@ == rendition(
            loaded_templates(*env),
            name@,
            table_entries(*variables),
        )->Err_0,
{
    env.get_template(name).and_then(|template| template.render(variables)).map_err(|error| error.to_string())
}

/// An environment of the engine with the engine's defaults. It is made here
/// and nowhere else, and only templates are added to it.
pub struct Engine<'source> {
    env: minijinja::Environment<'source>,
}

impl<'source> Engine<'source> {
    /// The templates that the engine holds: each name with its source.
    pub closed spec fn templates(&self) -> Map<Seq<char>, Seq<char>> {
        loaded_templates(self.env)
    }

    /// Makes an engine that holds no template.
    pub fn new() -> (engine: Self)
        ensures
            engine.templates() == Map::<Seq<char>, Seq<char>>::empty(),
    {
        Engine { env: new_environment() }
    }

    /// Loads `source` under `name`. Where the engine has something against
    /// the source, that is handed back and the engine holds what it held.
    pub fn load(&mut self, name: &'source str, source: &'source str) -> (loaded: Result<(), String>)
        ensures
            loaded is Ok <==> compile_fault(name@, source@) is None,
            loaded is Err ==> compile_fault(name@, source@) == Some(loaded->Err_0@),
            loaded is Ok ==> final(self).templates() == old(self).templates().insert(name@, source@),
            loaded is Err ==> final(self).templates() == old(self).templates(),
    {
        load_template(&mut self.env, name, source)
    }

    /// Renders the template `name` against `variables`.
    pub(crate) fn render(&self, name: &str, variables: &toml::Table) -> (rendered: Result<String, String>)
        requires
            plain_entries(table_entries(*variables)),
        ensures
            rendered is Ok <==> rendition(self.templates(), name@, table_entries(*variables)) is Ok,
            rendered is Ok ==> rendered->Ok_0@ == rendition(
                self.templates(),
                name@,
                table_entries(*variables),
            )->Ok_0,
            rendered is Err ==> rendered->Err_0@ == rendition(
                self.templates(),
                name@,
                table_entries(*variables),
            )->Err_0,
    {
        render_template(&self.env, name, variables)
    }
}

} // verus!
