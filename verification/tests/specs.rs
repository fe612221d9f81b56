use tmpl::path::Component;
use tmpl::specs::{check_spec_name, EntryKind, Listed, Spec, Specs, StoreError, Template};

const STORE: &str = "/data/specs";

fn store() -> Specs {
    Specs::new(STORE, EntryKind::Directory).unwrap()
}

fn in_store(name: &str) -> String {
    std::path::Path::new(STORE).join(name).to_str().unwrap().to_string()
}

#[test]
fn validate_spec_name() {
    let specs = store();

    // ok
    let ok_name = "this.is.ok";

    // not ok
    let absolute_path_name = "/this/is/not/ok";
    let nested_dir_name = "not/ok";
    let cwd_name = ".";
    let parent_name = "..";
    let parent_dir_name = "../not.ok";

    assert!(specs.validate_spec_name(ok_name).is_ok());
    assert!(specs.validate_spec_name(absolute_path_name).is_err());
    assert!(specs.validate_spec_name(nested_dir_name).is_err());
    assert!(specs.validate_spec_name(cwd_name).is_err());
    assert!(specs.validate_spec_name(parent_name).is_err());
    assert!(specs.validate_spec_name(parent_dir_name).is_err());
}

#[test]
fn dir() {
    let dir = tempfile::tempdir().unwrap();
    let specs = Specs::new(dir.path().to_str().unwrap(), EntryKind::Directory).unwrap();
    assert_eq!(dir.path(), std::path::Path::new(&specs.dir()));
}

#[test]
fn has_spec() {
    let specs = store();

    assert!(!specs.has_spec("does.not.exist", EntryKind::Missing));
    assert!(specs.has_spec("exists", EntryKind::File));
}

#[test]
fn safe_get_spec_path() {
    let specs = store();

    let full_path = specs.safe_get_spec_path("test.spec", EntryKind::File).unwrap();
    assert_eq!(in_store("test.spec"), full_path);

    // returns an error if it doesn't exist
    assert!(specs.safe_get_spec_path("doesnt.exist", EntryKind::Missing).is_err());

    // returns an error when the name is a directory
    assert!(specs.safe_get_spec_path("bad_dir", EntryKind::Directory).is_err());
}

#[test]
fn delete_spec() {
    let specs = store();

    assert_eq!(specs.delete_spec("test.spec", EntryKind::File), Ok(in_store("test.spec")));
    assert!(specs.delete_spec("doesnt.exist", EntryKind::Missing).is_err());
}

#[test]
fn write_spec() {
    let specs = store();

    assert!(specs.write_spec("test.spec", EntryKind::Missing).is_ok());

    // attempting to do it again should result in an error
    assert!(specs.write_spec("test.spec", EntryKind::File).is_err());
}

#[test]
fn copy() {
    let specs = store();

    assert!(specs.copy("first.spec", "second.spec", EntryKind::File).is_ok());

    // attempting to copy to itself should result in an error
    assert!(specs.copy("first.spec", "first.spec", EntryKind::File).is_err());

    // can't copy from something that doesn't exist either
    assert!(specs.copy("false.src", "false.dst", EntryKind::Missing).is_err());

    // can't copy from an invalid spec name
    assert!(specs.copy("/not/a/good/spec/name", "false.dst", EntryKind::Missing).is_err());
}

#[test]
fn cp_overwrite_results_in_error() {
    let specs = store();
    let result = specs.copy("test.name", "test.name", EntryKind::Missing);
    assert!(result.is_err());
}

#[test]
fn get_all_specs() {
    let specs = store();

    let spec_names = ["spec.1".to_string(), "spec.2".to_string(), "spec.3".to_string()];
    let entries: Vec<Listed> = spec_names
        .iter()
        .map(|name| Listed { name: name.clone(), kind: EntryKind::File })
        .collect();

    let all_specs = specs.get_all_specs(&entries);
    assert_eq!(all_specs.len(), spec_names.len());
    for spec_name in all_specs.iter() {
        assert!(spec_names.contains(spec_name));
    }
}

#[test]
fn only_regular_files_are_specs_and_their_order_is_kept() {
    let specs = store();
    let entries = vec![
        Listed { name: "zeta".into(), kind: EntryKind::File },
        Listed { name: "nested".into(), kind: EntryKind::Directory },
        Listed { name: "alpha".into(), kind: EntryKind::File },
        Listed { name: "socket".into(), kind: EntryKind::Other },
        Listed { name: "gone".into(), kind: EntryKind::Missing },
        Listed { name: "mid".into(), kind: EntryKind::File },
    ];

    assert_eq!(specs.get_all_specs(&entries), vec!["zeta", "alpha", "mid"]);
    assert!(specs.get_all_specs(&vec![]).is_empty());
}

#[test]
fn the_store_must_be_a_directory_that_is_there() {
    assert_eq!(Specs::new(STORE, EntryKind::Missing).err(), Some(StoreError::NotFound));
    assert_eq!(Specs::new(STORE, EntryKind::File).err(), Some(StoreError::NotADirectory));
    assert_eq!(Specs::new(STORE, EntryKind::Other).err(), Some(StoreError::NotADirectory));
    assert_eq!(store().dir(), STORE);
}

#[test]
fn each_refusal_of_the_store_has_its_error() {
    let specs = store();

    assert_eq!(specs.validate_spec_name(""), Err(StoreError::InvalidName));
    assert_eq!(specs.validate_spec_name("name/"), Err(StoreError::InvalidName));
    assert_eq!(specs.locate("a/b"), Err(StoreError::InvalidName));
    assert_eq!(specs.locate("plain"), Ok(in_store("plain")));

    assert_eq!(specs.safe_get_spec_path("x/y", EntryKind::File), Err(StoreError::InvalidName));
    assert_eq!(specs.safe_get_spec_path("x", EntryKind::Missing), Err(StoreError::NotFound));
    assert_eq!(specs.safe_get_spec_path("x", EntryKind::Directory), Err(StoreError::NotAFile));
    assert_eq!(specs.safe_get_spec_path("x", EntryKind::Other), Err(StoreError::NotAFile));

    assert_eq!(specs.delete_spec("..", EntryKind::Directory), Err(StoreError::InvalidName));
    assert_eq!(specs.delete_spec("x", EntryKind::Missing), Err(StoreError::NotFound));
    assert_eq!(specs.delete_spec("x", EntryKind::Directory), Err(StoreError::NotAFile));

    assert_eq!(specs.write_spec("../x", EntryKind::Missing), Err(StoreError::InvalidName));
    assert_eq!(specs.write_spec("x", EntryKind::File), Err(StoreError::AlreadyExists));
    assert_eq!(specs.write_spec("x", EntryKind::Directory), Err(StoreError::AlreadyExists));
    assert_eq!(specs.write_spec("x", EntryKind::Missing), Ok(in_store("x")));

    assert!(!specs.has_spec("x", EntryKind::Directory));
    assert!(!specs.has_spec("x/y", EntryKind::File));
}

#[test]
fn a_copy_is_refused_in_a_fixed_order() {
    let specs = store();

    assert_eq!(specs.copy("a/b", "a/b", EntryKind::Missing), Err(StoreError::InvalidName));
    assert_eq!(specs.copy("a", "b/c", EntryKind::File), Err(StoreError::InvalidName));
    assert_eq!(specs.copy("a", "a", EntryKind::Missing), Err(StoreError::NotFound));
    assert_eq!(specs.copy("a", "b", EntryKind::Missing), Err(StoreError::NotFound));
    assert_eq!(specs.copy("a", "a", EntryKind::File), Err(StoreError::SelfCopy));
    assert_eq!(
        specs.copy("a", "b", EntryKind::File),
        Ok((in_store("a"), in_store("b")))
    );
}

#[test]
fn every_store_error_says_what_went_wrong() {
    assert_eq!(StoreError::InvalidName.message("a/b"), "a/b must be a simple filename");
    assert_eq!(StoreError::NotFound.message("x"), "x doesn't exist");
    assert_eq!(StoreError::AlreadyExists.message("x"), "x already exists");
    assert_eq!(StoreError::NotAFile.message("x"), "x is not a file");
    assert_eq!(StoreError::NotADirectory.message("/d"), "/d is not a directory");
    assert_eq!(
        StoreError::SelfCopy.message("x"),
        "Cannot copy a spec to itself, this would result in truncation"
    );
}

#[test]
fn specs_compare_by_what_they_hold() {
    let make = || {
        let mut spec = Spec { variables: toml::Table::new(), templates: vec![] };
        spec.variables.insert("option".into(), toml::Value::Integer(42));
        spec.templates.push(Template {
            path: "README.md".into(),
            body: "Hello, world!".into(),
        });
        spec
    };

    assert_eq!(make(), make());
    let mut other = make();
    other.templates[0].body.push('!');
    assert_ne!(make(), other);
}

#[test]
fn a_name_is_judged_by_what_it_is_as_a_path() {
    let one = vec![Component::Normal];
    let same = Some("a".to_string());

    assert_eq!(check_spec_name("a", &same, false, &one), Ok(()));
    assert_eq!(check_spec_name("a", &None, false, &one), Err(StoreError::InvalidName));
    assert_eq!(
        check_spec_name("a", &Some("b".to_string()), false, &one),
        Err(StoreError::InvalidName)
    );
    assert_eq!(check_spec_name("a", &same, true, &one), Err(StoreError::InvalidName));
    assert_eq!(check_spec_name("a", &same, false, &vec![]), Err(StoreError::InvalidName));
    assert_eq!(
        check_spec_name("a", &same, false, &vec![Component::Normal, Component::Normal]),
        Err(StoreError::InvalidName)
    );
    assert_eq!(
        check_spec_name("a", &same, false, &vec![Component::ParentDir]),
        Err(StoreError::InvalidName)
    );
    assert_eq!(
        check_spec_name(".", &Some(".".to_string()), false, &one),
        Err(StoreError::InvalidName)
    );
    assert_eq!(
        check_spec_name("..", &Some("..".to_string()), false, &one),
        Err(StoreError::InvalidName)
    );
}
