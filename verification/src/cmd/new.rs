//! Creating a spec with some example content.

use vstd::prelude::*;
use crate::cli::NewArgs;
use crate::specs::{is_path_result, writable, EntryKind, Spec, Specs, StoreError, Template};
use crate::value::{insert_value, new_table, string_value, table_entries, Datum};

verus! {

/// The user's name where nothing tells it.
pub open spec fn fallback_user() -> Seq<char> {
    "username"@
}

/// The user's name: the first of the two candidates that is there, and a
/// stand-in where neither is.
pub open spec fn chosen_user(user: Option<String>, username: Option<String>) -> Seq<char> {
    if user is Some {
        user->0@
    } else if username is Some {
        username->0@
    } else {
        fallback_user()
    }
}

/// The source of the example template.
pub open spec fn readme_body() -> Seq<char> {
    "\n# {{ project }}\n\nCreated by {{ user }}.\n"@
}

/// The variables of the example spec.
pub open spec fn default_variables(user: Seq<char>) -> Map<Seq<char>, Datum> {
    Map::empty().insert("user"@, Datum::Text(user)).insert("project"@, Datum::Text("project-name"@))
}

/// The spec that a new spec starts from: a read-me that names the project
/// and its author. `user` and `username` are what the environment holds under
/// `USER` and under `USERNAME`.
pub fn default_spec(user: Option<String>, username: Option<String>) -> (spec: Spec)
    ensures
        table_entries(spec.variables) == default_variables(chosen_user(user, username)),
        spec.templates.len() == 1,
        spec.templates[0].path@ == "README.md"@,
        spec.templates[0].body@ == readme_body(),
{
    let name = match user {
        Some(name) => name,
        None => match username {
            Some(name) => name,
            None => String::from_str("username"),
        },
    };
    let mut variables = new_table();
    insert_value(&mut variables, String::from_str("user"), string_value(name));
    insert_value(&mut variables, String::from_str("project"), string_value(String::from_str("project-name")));
    let mut templates: Vec<Template> = Vec::new();
    templates.push(
        Template {
            path: String::from_str("README.md"),
            body: String::from_str("\n# {{ project }}\n\nCreated by {{ user }}.\n"),
        },
    );
    Spec { variables, templates }
}

/// What creating a spec amounts to: the file to write, what to say once it
/// is written, and whether the editor is opened on it then.
#[derive(Debug, PartialEq)]
pub struct Creation {
    pub path: String,
    pub spec: Spec,
    pub message: String,
    pub edit: bool,
}

/// What is said once the spec `name` is created.
pub open spec fn created_text(name: Seq<char>) -> Seq<char> {
    "Created "@ + name
}

/// Plans the creation of a new spec, given what was found at its path.
/// Refused where the name is invalid or something is there already; else
/// the example spec is to be written.
pub fn new(
    specs: &Specs,
    args: &NewArgs,
    found: EntryKind,
    user: Option<String>,
    username: Option<String>,
) -> (plan: Result<Creation, StoreError>)
    ensures
        plan is Ok <==> writable(specs@, args.name@, found) is Ok,
        plan is Err ==> plan->Err_0 == writable(specs@, args.name@, found)->Err_0,
        plan is Ok ==> {
            let creation = plan->Ok_0;
            &&& creation.path@ == writable(specs@, args.name@, found)->Ok_0
            &&& table_entries(creation.spec.variables) == default_variables(chosen_user(user, username))
            &&& creation.spec.templates.len() == 1
            &&& creation.spec.templates[0].path@ == "README.md"@
            &&& creation.spec.templates[0].body@ == readme_body()
            &&& creation.message@ == created_text(args.name@)
            &&& creation.edit == args.edit
        },
{
    match specs.write_spec(args.name.as_str(), found) {
        Err(e) => Err(e),
        Ok(path) => {
            let mut message = String::from_str("Created ");
            message.append(args.name.as_str());
            Ok(Creation { path, spec: default_spec(user, username), message, edit: args.edit })
        },
    }
}

} // verus!
