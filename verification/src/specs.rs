//! Specs and the directory that stores them. Every spec is one file right
//! inside the directory, named by the spec's name. Nothing here touches the
//! file system: each operation is told what was found on disk and decides
//! whether it may go ahead, and on which path.

use vstd::prelude::*;
use crate::path::{
    components, is_absolute, judge, normals, parents, path_components, path_is_absolute, stays_inside,
    Component,
};

verus! {

/// One file to generate: where it goes and what it is rendered from.
#[derive(Debug, PartialEq)]
pub struct Template {
    /// The output path, relative to the directory that the spec is generated in.
    pub path: String,
    /// The template source.
    pub body: String,
}

/// The default variables of a spec and the files that it generates, in the
/// order in which they are generated.
#[derive(Debug, PartialEq)]
pub struct Spec {
    pub variables: toml::Table,
    pub templates: Vec<Template>,
}

/// What stands at a path of the file system.
#[derive(Clone, Copy, Debug, PartialEq, Eq, Structural)]
pub enum EntryKind {
    /// Nothing.
    Missing,
    /// A regular file.
    File,
    /// A directory.
    Directory,
    /// Something else.
    Other,
}

/// Why an operation on the store was refused.
#[derive(Clone, Copy, Debug, PartialEq, Eq, Structural)]
pub enum StoreError {
    /// The name is no plain file name.
    InvalidName,
    /// Nothing is stored where something was expected.
    NotFound,
    /// Something is stored under the name already.
    AlreadyExists,
    /// What is stored under the name is no regular file.
    NotAFile,
    /// The store itself is no directory.
    NotADirectory,
    /// A spec was to be copied onto itself, which would empty it.
    SelfCopy,
}

/// What is said of a refused operation on the spec or directory `name`.
pub open spec fn store_error_text(error: StoreError, name: Seq<char>) -> Seq<char> {
    match error {
        StoreError::InvalidName => name + " must be a simple filename"@,
        StoreError::NotFound => name + " doesn't exist"@,
        StoreError::AlreadyExists => name + " already exists"@,
        StoreError::NotAFile => name + " is not a file"@,
        StoreError::NotADirectory => name + " is not a directory"@,
        StoreError::SelfCopy => "Cannot copy a spec to itself, this would result in truncation"@,
    }
}

impl StoreError {
    /// Says why the operation on `name` was refused.
    pub fn message(&self, name: &str) -> (text: String)
        ensures
            text@ == store_error_text(*self, name@),
    {
        let mut text = name.to_owned();
        match self {
            StoreError::InvalidName => {
                text.append(" must be a simple filename");
            },
            StoreError::NotFound => {
                text.append(" doesn't exist");
            },
            StoreError::AlreadyExists => {
                text.append(" already exists");
            },
            StoreError::NotAFile => {
                text.append(" is not a file");
            },
            StoreError::NotADirectory => {
                text.append(" is not a directory");
            },
            StoreError::SelfCopy => {
                text = String::from_str("Cannot copy a spec to itself, this would result in truncation");
            },
        }
        text
    }
}

/// An entry of the store directory, as a listing of it shows it.
#[derive(Debug, PartialEq)]
pub struct Listed {
    pub name: String,
    pub kind: EntryKind,
}

/// The last step of the path written as `path`, as `std::path::Path::file_name`
/// gives it on the platform that the crate is built for.
pub uninterp spec fn path_file_name(path: Seq<char>) -> Option<Seq<char>>;

/// The path that `std::path::Path::join` makes of `dir` and `name`, on the
/// platform that the crate is built for.
pub uninterp spec fn joined_path(dir: Seq<char>, name: Seq<char>) -> Seq<char>;

/// Calls `std::path::Path::file_name`. The contract only gives the answer its
/// name: it is a function of the path's text.
#[verifier::external_body]
fn file_name(path: &str) -> (last: Option<String>)
    ensures
        text_of(last) == path_file_name(path@),
{
    std::path::Path::new(path).file_name().map(|name| name.to_string_lossy().into_owned())
}

/// Calls `std::path::Path::join`. The contract only gives the path its name:
/// it is a function of the two texts.
#[verifier::external_body]
fn join(dir: &str, name: &str) -> (path: String)
    ensures
        path@ == joined_path(dir@, name@),
{
    std::path::Path::new(dir).join(name).to_string_lossy().into_owned()
}

/// Whether a text is fit to name a spec, given what it is as a path: its
/// last step, whether it is absolute, and its steps. It has to be its own
/// last step and its only one, an ordinary name; no absolute path; and
/// neither `.` nor `..`.
pub open spec fn is_fit_name(name: Seq<char>, last: Option<Seq<char>>, absolute: bool, steps: Seq<Component>) -> bool {
    &&& last == Some(name)
    &&& name != "."@
    &&& name != ".."@
    &&& !absolute
    &&& steps == seq![Component::Normal]
}

/// A name under which a spec may be stored: one that is fit to, taken as a
/// path the way std takes it.
pub open spec fn valid_spec_name(name: Seq<char>) -> bool {
    is_fit_name(name, path_file_name(name), path_is_absolute(name), path_components(name))
}

/// What an optional text holds.
pub open spec fn text_of(text: Option<String>) -> Option<Seq<char>> {
    match text {
        Some(text) => Some(text@),
        None => None,
    }
}

/// Decides whether `name` may name a spec, given what it is as a path: its
/// last step, whether it is absolute, and its steps.
pub fn check_spec_name(name: &str, last: &Option<String>, absolute: bool, steps: &Vec<Component>) -> (checked: Result<
    (),
    StoreError,
>)
    ensures
        checked is Ok <==> is_fit_name(name@, text_of(*last), absolute, steps@),
        checked is Err ==> checked->Err_0 == StoreError::InvalidName,
{
    let name = name.to_owned();
    match last {
        None => {
            return Err(StoreError::InvalidName);
        },
        Some(last) => {
            if *last != name {
                return Err(StoreError::InvalidName);
            }
        },
    }
    if name == ".".to_owned() || name == "..".to_owned() {
        return Err(StoreError::InvalidName);
    }
    if absolute {
        return Err(StoreError::InvalidName);
    }
    if steps.len() != 1 || steps[0] != Component::Normal {
        assert(steps@ != seq![Component::Normal]) by {
            if steps.len() == 1 {
                assert(seq![Component::Normal][0] == Component::Normal);
            }
        }
        return Err(StoreError::InvalidName);
    }
    assert(steps@ =~= seq![Component::Normal]);
    Ok(())
}

/// Where the spec `name` is stored, if the name is valid.
pub open spec fn located(dir: Seq<char>, name: Seq<char>) -> Result<Seq<char>, StoreError> {
    if valid_spec_name(name) {
        Ok(joined_path(dir, name))
    } else {
        Err(StoreError::InvalidName)
    }
}

/// Where the spec `name` is stored, if the name is valid and a regular file
/// was found there.
pub open spec fn stored(dir: Seq<char>, name: Seq<char>, found: EntryKind) -> Result<Seq<char>, StoreError> {
    if !valid_spec_name(name) {
        Err(StoreError::InvalidName)
    } else {
        match found {
            EntryKind::Missing => Err(StoreError::NotFound),
            EntryKind::File => Ok(joined_path(dir, name)),
            _ => Err(StoreError::NotAFile),
        }
    }
}

/// Where a new spec `name` is to be written, if the name is valid and
/// nothing was found there.
pub open spec fn writable(dir: Seq<char>, name: Seq<char>, found: EntryKind) -> Result<Seq<char>, StoreError> {
    if !valid_spec_name(name) {
        Err(StoreError::InvalidName)
    } else if found is Missing {
        Ok(joined_path(dir, name))
    } else {
        Err(StoreError::AlreadyExists)
    }
}

/// From where to where the spec `source` is copied to make `dest`, if both
/// names are valid, something was found at the source, and the two differ.
pub open spec fn copy_plan(dir: Seq<char>, source: Seq<char>, dest: Seq<char>, found: EntryKind) -> Result<
    (Seq<char>, Seq<char>),
    StoreError,
> {
    if !valid_spec_name(source) || !valid_spec_name(dest) {
        Err(StoreError::InvalidName)
    } else if found is Missing {
        Err(StoreError::NotFound)
    } else if source == dest {
        Err(StoreError::SelfCopy)
    } else {
        Ok((joined_path(dir, source), joined_path(dir, dest)))
    }
}

/// The names of the regular files among `entries`, in their order.
pub open spec fn regular_files(entries: Seq<Listed>) -> Seq<Seq<char>>
    decreases entries.len(),
{
    if entries.len() == 0 {
        Seq::empty()
    } else if entries.last().kind is File {
        regular_files(entries.drop_last()).push(entries.last().name@)
    } else {
        regular_files(entries.drop_last())
    }
}

/// Whether an executable result is the one that the specification gives.
pub open spec fn is_path_result(got: Result<String, StoreError>, expected: Result<Seq<char>, StoreError>) -> bool {
    match (got, expected) {
        (Ok(path), Ok(text)) => path@ == text,
        (Err(e), Err(f)) => e == f,
        _ => false,
    }
}

/// A directory of specs.
pub struct Specs {
    dir: String,
}

impl View for Specs {
    type V = Seq<char>;

    /// The path of the directory.
    closed spec fn view(&self) -> Seq<char> {
        self.dir@
    }
}

impl Specs {
    /// Opens the store at `dir`, given what was found there: refused where
    /// nothing was found, and where it is no directory.
    pub fn new(dir: &str, found: EntryKind) -> (opened: Result<Specs, StoreError>)
        ensures
            opened is Ok <==> found is Directory,
            opened is Ok ==> opened->Ok_0@ == dir@,
            opened is Err ==> opened->Err_0 == if found is Missing {
                StoreError::NotFound
            } else {
                StoreError::NotADirectory
            },
    {
        match found {
            EntryKind::Directory => Ok(Specs { dir: dir.to_owned() }),
            EntryKind::Missing => Err(StoreError::NotFound),
            _ => Err(StoreError::NotADirectory),
        }
    }

    /// The path of the directory.
    pub fn dir(&self) -> (dir: String)
        ensures
            dir@ == self@,
    {
        self.dir.clone()
    }

    /// Checks that `name` is a plain file name, so that the spec lies right
    /// inside the store.
    pub fn validate_spec_name(&self, name: &str) -> (checked: Result<(), StoreError>)
        ensures
            checked is Ok <==> valid_spec_name(name@),
            checked is Err ==> checked->Err_0 == StoreError::InvalidName,
    {
        let last = file_name(name);
        let absolute = is_absolute(name);
        let steps = components(name);
        check_spec_name(name, &last, absolute, &steps)
    }

    /// The path at which the spec `name` is stored, whether or not it is there.
    pub fn locate(&self, name: &str) -> (path: Result<String, StoreError>)
        ensures
            is_path_result(path, located(self@, name@)),
    {
        match self.validate_spec_name(name) {
            Err(e) => Err(e),
            Ok(()) => Ok(join(self.dir.as_str(), name)),
        }
    }

    /// Whether the spec `name` exists, given what was found at its path: it
    /// does where the name is valid and a regular file was found.
    pub fn has_spec(&self, name: &str, found: EntryKind) -> (present: bool)
        ensures
            present <==> valid_spec_name(name@) && found is File,
    {
        if self.validate_spec_name(name).is_err() {
            return false;
        }
        found == EntryKind::File
    }

    /// The path of the spec `name`, given what was found there: refused
    /// where nothing was found, and where it is no regular file.
    pub fn safe_get_spec_path(&self, name: &str, found: EntryKind) -> (path: Result<String, StoreError>)
        ensures
            is_path_result(path, stored(self@, name@, found)),
    {
        match self.validate_spec_name(name) {
            Err(e) => Err(e),
            Ok(()) => match found {
                EntryKind::Missing => Err(StoreError::NotFound),
                EntryKind::File => Ok(join(self.dir.as_str(), name)),
                _ => Err(StoreError::NotAFile),
            },
        }
    }

    /// The file to remove in order to delete the spec `name`, given what was
    /// found at its path.
    pub fn delete_spec(&self, name: &str, found: EntryKind) -> (path: Result<String, StoreError>)
        ensures
            is_path_result(path, stored(self@, name@, found)),
    {
        match self.validate_spec_name(name) {
            Err(e) => Err(e),
            Ok(()) => self.safe_get_spec_path(name, found),
        }
    }

    /// The file to create in order to store a new spec `name`, given what was
    /// found at its path. A spec is never overwritten: whatever was found
    /// there, the write is refused.
    pub fn write_spec(&self, name: &str, found: EntryKind) -> (path: Result<String, StoreError>)
        ensures
            is_path_result(path, writable(self@, name@, found)),
    {
        match self.validate_spec_name(name) {
            Err(e) => Err(e),
            Ok(()) => {
                if found != EntryKind::Missing {
                    return Err(StoreError::AlreadyExists);
                }
                Ok(join(self.dir.as_str(), name))
            },
        }
    }

    /// The file to copy and the file to copy it to, given what was found at
    /// the source. Whether the destination exists is not asked: the copy
    /// replaces it.
    pub fn copy(&self, src_name: &str, dst_name: &str, found: EntryKind) -> (paths: Result<
        (String, String),
        StoreError,
    >)
        ensures
            paths is Ok <==> copy_plan(self@, src_name@, dst_name@, found) is Ok,
            paths is Ok ==> paths->Ok_0.0@ == copy_plan(self@, src_name@, dst_name@, found)->Ok_0.0,
            paths is Ok ==> paths->Ok_0.1@ == copy_plan(self@, src_name@, dst_name@, found)->Ok_0.1,
            paths is Err ==> paths->Err_0 == copy_plan(self@, src_name@, dst_name@, found)->Err_0,
    {
        if self.validate_spec_name(src_name).is_err() {
            return Err(StoreError::InvalidName);
        }
        if self.validate_spec_name(dst_name).is_err() {
            return Err(StoreError::InvalidName);
        }
        if found == EntryKind::Missing {
            return Err(StoreError::NotFound);
        }
        if src_name.to_owned() == dst_name.to_owned() {
            return Err(StoreError::SelfCopy);
        }
        Ok((join(self.dir.as_str(), src_name), join(self.dir.as_str(), dst_name)))
    }

    /// The specs among the entries of the store directory: the regular files,
    /// in the order of the listing.
    pub fn get_all_specs(&self, entries: &Vec<Listed>) -> (names: Vec<String>)
        ensures
            names.deep_view() == regular_files(entries@),
    {
        let mut names: Vec<String> = Vec::new();
        let mut i: usize = 0;
        assert(entries@.take(0) =~= Seq::<Listed>::empty());
        assert(names.deep_view() =~= Seq::<Seq<char>>::empty());
        while i < entries.len()
            invariant
                0 <= i <= entries.len(),
                names.deep_view() == regular_files(entries@.take(i as int)),
            decreases entries.len() - i,
        {
            let ghost before = names.deep_view();
            assert(entries@.take(i + 1).drop_last() =~= entries@.take(i as int));
            assert(entries@.take(i + 1).last() == entries@[i as int]);
            if entries[i].kind == EntryKind::File {
                names.push(entries[i].name.clone());
                assert(names.deep_view() =~= before.push(entries@[i as int].name@));
            }
            i = i + 1;
        }
        assert(entries@.take(i as int) =~= entries@);
        names
    }
}

/// A valid name, taken as a path, passes the path check: the spec lies right
/// inside the store, and no name leads out of it.
pub proof fn a_valid_name_stays_inside_the_store(name: Seq<char>)
    requires
        valid_spec_name(name),
    ensures
        judge(path_is_absolute(name), path_components(name)) is Ok,
{
    let steps = seq![Component::Normal];
    assert forall|k: int| 0 <= k <= steps.len() implies parents(#[trigger] steps.take(k)) <= normals(
        steps.take(k),
    ) by {
        if k == 0 {
            assert(steps.take(0).len() == 0);
        } else {
            assert(steps.take(1) =~= steps);
            assert(steps.drop_last().len() == 0);
            assert(parents(steps.drop_last()) == 0);
        }
    }
    assert(stays_inside(steps));
}

/// Copying a spec onto itself is refused, whatever was found on disk.
pub proof fn copy_onto_itself_is_refused(dir: Seq<char>, name: Seq<char>, found: EntryKind)
    ensures
        copy_plan(dir, name, name, found) is Err,
{
}

/// Copying a spec that is not there is refused as not found.
pub proof fn copy_of_a_missing_spec_is_not_found(dir: Seq<char>, source: Seq<char>, dest: Seq<char>)
    requires
        valid_spec_name(source),
        valid_spec_name(dest),
    ensures
        copy_plan(dir, source, dest, EntryKind::Missing) == Err::<(Seq<char>, Seq<char>), StoreError>(
            StoreError::NotFound,
        ),
{
}

/// A spec that is there already is not written again: once a file stands
/// under the name, the write is refused and names no file to change.
pub proof fn an_existing_spec_is_not_overwritten(dir: Seq<char>, name: Seq<char>, found: EntryKind)
    requires
        valid_spec_name(name),
        !(found is Missing),
    ensures
        writable(dir, name, found) == Err::<Seq<char>, StoreError>(StoreError::AlreadyExists),
{
}

/// An invalid name is refused by every operation, before anything on disk is
/// looked at.
pub proof fn an_invalid_name_is_refused_everywhere(
    dir: Seq<char>,
    name: Seq<char>,
    other: Seq<char>,
    found: EntryKind,
)
    requires
        !valid_spec_name(name),
    ensures
        located(dir, name) is Err,
        stored(dir, name, found) is Err,
        writable(dir, name, found) is Err,
        copy_plan(dir, name, other, found) is Err,
        copy_plan(dir, other, name, found) is Err,
{
}

} // verus!
