use tmpl::cli::{CpArgs, EditArgs, NewArgs, RmArgs};
use tmpl::cmd;
use tmpl::cmd::new::default_spec;
use tmpl::editor::{finish, start, EditorError, Launch};
use tmpl::io::{Line, Stream, IO};
use tmpl::specs::{EntryKind, Specs, StoreError};

fn store() -> Specs {
    Specs::new("/data/specs", EntryKind::Directory).unwrap()
}

fn created(name: &str) -> cmd::new::Creation {
    let args = NewArgs { name: name.to_string(), edit: false };
    cmd::new(&store(), &args, EntryKind::Missing, Some("alice".to_string()), None).unwrap()
}

#[test]
fn new() {
    let creation = created("test.template");

    assert_eq!(creation.path, "/data/specs/test.template");
    assert_eq!(creation.message, "Created test.template");
    assert!(!creation.edit);
    assert_eq!(creation.spec, default_spec(Some("alice".to_string()), None));
}

#[test]
fn test_new_command() {
    let creation = created("test.template");

    assert_eq!(creation.path, "/data/specs/test.template");
    assert_eq!(creation.spec, default_spec(Some("alice".to_string()), None));
}

#[test]
fn a_new_spec_never_replaces_one() {
    let args = NewArgs { name: "taken".to_string(), edit: true };

    assert_eq!(
        cmd::new(&store(), &args, EntryKind::File, None, None),
        Err(StoreError::AlreadyExists)
    );
    let bad = NewArgs { name: "a/b".to_string(), edit: true };
    assert_eq!(
        cmd::new(&store(), &bad, EntryKind::Missing, None, None),
        Err(StoreError::InvalidName)
    );
    let fresh = cmd::new(&store(), &args, EntryKind::Missing, None, None).unwrap();
    assert!(fresh.edit);
}

#[test]
fn the_example_spec_names_project_and_user() {
    let spec = default_spec(Some("alice".to_string()), Some("bob".to_string()));

    assert_eq!(spec.variables.len(), 2);
    assert_eq!(spec.variables.get("user"), Some(&toml::Value::String("alice".into())));
    assert_eq!(
        spec.variables.get("project"),
        Some(&toml::Value::String("project-name".into()))
    );
    assert_eq!(spec.templates.len(), 1);
    assert_eq!(spec.templates[0].path, "README.md");
    assert_eq!(
        spec.templates[0].body,
        "\n# {{ project }}\n\nCreated by {{ user }}.\n"
    );

    let windows = default_spec(None, Some("bob".to_string()));
    assert_eq!(windows.variables.get("user"), Some(&toml::Value::String("bob".into())));
    let nobody = default_spec(None, None);
    assert_eq!(
        nobody.variables.get("user"),
        Some(&toml::Value::String("username".into()))
    );
}

#[test]
fn rm_single_spec() {
    let spec_name = "test.spec";
    let rm_args = RmArgs { to_delete: vec![spec_name.to_string()], skip_prompt: true };

    assert_eq!(cmd::rm(&rm_args, spec_name), cmd::rm::Step::Delete);
    let line = cmd::rm::remove(spec_name, Ok(()));

    let expected = format!("Deleted {}", spec_name);
    assert_eq!(line.stream, Stream::Stdout);
    assert_eq!(line.text.trim(), expected.trim());
}

#[test]
fn rm_multiple_specs() {
    let spec_names = vec![
        "test1.spec".to_string(),
        "test2.spec".to_string(),
        "test3.spec".to_string(),
    ];
    let rm_args = RmArgs { to_delete: spec_names.clone(), skip_prompt: true };

    let mut output = String::new();
    for spec in rm_args.to_delete.iter() {
        assert_eq!(cmd::rm(&rm_args, spec), cmd::rm::Step::Delete);
        output.push_str(&cmd::rm::remove(spec, Ok(())).text);
        output.push('\n');
    }

    for spec in spec_names.iter() {
        let expected_to_contain = format!("Deleted {}", spec);
        assert!(
            output.contains(&expected_to_contain),
            "{} does not contain \"{}\"",
            output,
            expected_to_contain
        );
    }
}

#[test]
fn a_failed_deletion_is_reported_and_ends_nothing() {
    assert_eq!(
        cmd::rm::remove("gone", Err("gone doesn't exist".to_string())),
        Line {
            stream: Stream::Stderr,
            text: "Failed to delete spec: gone doesn't exist".to_string()
        }
    );
}

#[test]
fn without_consent_each_spec_is_asked_for() {
    let rm_args = RmArgs { to_delete: vec!["a".to_string()], skip_prompt: false };

    assert_eq!(
        cmd::rm(&rm_args, "a"),
        cmd::rm::Step::Ask { question: "Remove a".to_string() }
    );
    assert_eq!(cmd::rm::remove_with_prompt("a", Ok(true)), cmd::rm::Next::Delete);
    assert_eq!(
        cmd::rm::remove_with_prompt("a", Ok(false)),
        cmd::rm::Next::Say {
            line: Line { stream: Stream::Stdout, text: "Skipping a".to_string() }
        }
    );
    assert_eq!(
        cmd::rm::remove_with_prompt("a", Err("stdin closed".to_string())),
        cmd::rm::Next::Say {
            line: Line {
                stream: Stream::Stderr,
                text: "Unexpected error handling prompt: stdin closed".to_string()
            }
        }
    );
}

#[test]
fn cp() {
    let cp_args = CpArgs {
        source: "test.src".to_string(),
        dest: "test.dst".to_string(),
        skip_prompt: true,
    };

    assert_eq!(cmd::cp(&cp_args, false), cmd::cp::Step::Copy);
    assert_eq!(cmd::cp(&cp_args, true), cmd::cp::Step::Copy);
    assert_eq!(
        store().copy(&cp_args.source, &cp_args.dest, EntryKind::File),
        Ok(("/data/specs/test.src".to_string(), "/data/specs/test.dst".to_string()))
    );
}

#[test]
fn test_cp_command() {
    let cp_args = CpArgs {
        source: "test.src".to_string(),
        dest: "test.dst".to_string(),
        skip_prompt: true,
    };

    assert_eq!(cmd::cp(&cp_args, false), cmd::cp::Step::Copy);
    assert!(store().copy(&cp_args.source, &cp_args.dest, EntryKind::File).is_ok());
}

#[test]
fn overwriting_is_asked_for_unless_consent_was_given() {
    let cp_args = CpArgs {
        source: "a".to_string(),
        dest: "b".to_string(),
        skip_prompt: false,
    };

    assert_eq!(
        cmd::cp(&cp_args, true),
        cmd::cp::Step::Ask { question: "b exists, do you want to overwrite it?".to_string() }
    );
    assert_eq!(cmd::cp(&cp_args, false), cmd::cp::Step::Copy);
}

#[test]
fn only_a_spec_that_is_there_is_edited() {
    let args = EditArgs { name: "notes".to_string() };

    assert_eq!(
        cmd::edit(&store(), &args, EntryKind::File),
        Ok("/data/specs/notes".to_string())
    );
    assert_eq!(cmd::edit(&store(), &args, EntryKind::Missing), Err(StoreError::NotFound));
    assert_eq!(cmd::edit(&store(), &args, EntryKind::Directory), Err(StoreError::NotAFile));
}

#[test]
fn the_editor_has_to_be_named_and_to_succeed() {
    assert_eq!(start(Some("vi".to_string())), Ok("vi".to_string()));
    assert_eq!(start(None), Err(EditorError::NotSet));
    assert_eq!(finish(Launch::Exited { success: true }), Ok(()));
    assert_eq!(finish(Launch::Exited { success: false }), Err(EditorError::Failed));
    assert_eq!(finish(Launch::NotLaunched), Err(EditorError::LaunchFailed));

    assert_eq!(
        EditorError::NotSet.message(""),
        "EDITOR environment variable is not set. Please set this environment variable to the path of your preferred text editor."
    );
    assert_eq!(
        EditorError::LaunchFailed.message("vi"),
        "Failed to launch editor (editor: vi)"
    );
    assert_eq!(EditorError::Failed.message("vi"), "Editor exited with non-zero status");
}

#[test]
fn the_two_writers_are_kept_apart() {
    let mut io: IO<Vec<u8>, Vec<u8>> = IO::new(Vec::new(), Vec::new());

    io.stdout().extend_from_slice(b"out");
    io.stderr().extend_from_slice(b"err");
    io.stdout().extend_from_slice(b"put");

    assert_eq!(io.stdout().as_slice(), b"output");
    assert_eq!(io.stderr().as_slice(), b"err");
}
