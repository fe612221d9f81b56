//! Decides whether a relative output path stays inside the directory it is
//! resolved against.

use vstd::prelude::*;

verus! {

/// One step of a path after it has been split at its separators.
#[derive(Clone, Copy, Debug, PartialEq, Eq, Structural)]
pub enum Component {
    /// A volume or drive prefix.
    Prefix,
    /// The root marker that starts an absolute path.
    RootDir,
    /// `.`, which stays where it is.
    CurDir,
    /// `..`, which climbs one level.
    ParentDir,
    /// An ordinary name, which descends one level.
    Normal,
}

/// Why a path was refused.
#[derive(Clone, Copy, Debug, PartialEq, Eq, Structural)]
pub enum PathError {
    /// The path is absolute.
    Absolute,
    /// Some `..` climbs above the starting directory.
    Escapes,
    /// Some step is neither a name, `.` nor `..`.
    Foreign,
}

/// What is said of a refused path. `cwd` is the directory that the path was
/// to stay inside.
pub open spec fn refusal_text(reason: PathError, path: Seq<char>, cwd: Seq<char>) -> Seq<char> {
    match reason {
        PathError::Absolute => path
            + " is an absolute path. Absolute paths are forbidden for security reasons."@,
        PathError::Escapes => path + " escaped outside the current directory ("@ + cwd + ")"@,
        PathError::Foreign => path + " is not a valid path"@,
    }
}

impl PathError {
    /// Says why `path` was refused.
    pub fn message(&self, path: &str, cwd: &str) -> (text: String)
        ensures
            text@ == refusal_text(*self, path@, cwd@),
    {
        let mut text = path.to_owned();
        match self {
            PathError::Absolute => {
                text.append(" is an absolute path. Absolute paths are forbidden for security reasons.");
            },
            PathError::Escapes => {
                text.append(" escaped outside the current directory (");
                text.append(cwd);
                text.append(")");
            },
            PathError::Foreign => {
                text.append(" is not a valid path");
            },
        }
        text
    }
}

/// Whether `std::path::Path::is_absolute` holds of the path written as
/// `path`, on the platform that the crate is built for.
pub uninterp spec fn path_is_absolute(path: Seq<char>) -> bool;

/// The steps that `std::path::Path::components` yields for the path written
/// as `path`, on the platform that the crate is built for.
pub uninterp spec fn path_components(path: Seq<char>) -> Seq<Component>;

/// Calls `std::path::Path::is_absolute`. The contract only gives the answer its
/// name: it is a function of the path's text.
#[verifier::external_body]
pub(crate) fn is_absolute(path: &str) -> (absolute: bool)
    ensures
        absolute == path_is_absolute(path@),
{
    std::path::Path::new(path).is_absolute()
}

/// Calls `std::path::Path::components` and keeps the kind of each step, in
/// order. The contract only gives the sequence its name: it is a function of
/// the path's text.
#[verifier::external_body]
pub(crate) fn components(path: &str) -> (parts: Vec<Component>)
    ensures
        parts@ == path_components(path@),
{
    std::path::Path::new(path).components().map(|step| match step {
        std::path::Component::Prefix(_) => Component::Prefix,
        std::path::Component::RootDir => Component::RootDir,
        std::path::Component::CurDir => Component::CurDir,
        std::path::Component::ParentDir => Component::ParentDir,
        std::path::Component::Normal(_) => Component::Normal,
    }).collect()
}

/// How many steps of `parts` are ordinary names.
pub open spec fn normals(parts: Seq<Component>) -> nat
    decreases parts.len(),
{
    if parts.len() == 0 {
        0
    } else {
        normals(parts.drop_last()) + if parts.last() is Normal { 1nat } else { 0nat }
    }
}

/// How many steps of `parts` are `..`.
pub open spec fn parents(parts: Seq<Component>) -> nat
    decreases parts.len(),
{
    if parts.len() == 0 {
        0
    } else {
        parents(parts.drop_last()) + if parts.last() is ParentDir { 1nat } else { 0nat }
    }
}

/// A step that a relative path may hold.
pub open spec fn is_relative_step(step: Component) -> bool {
    step is Normal || step is CurDir || step is ParentDir
}

/// Every step is a name, `.` or `..`, and no prefix of the walk has climbed
/// more often than it has descended.
pub open spec fn stays_inside(parts: Seq<Component>) -> bool {
    &&& forall|i: int| 0 <= i < parts.len() ==> is_relative_step(#[trigger] parts[i])
    &&& forall|k: int|
        0 <= k <= parts.len() ==> parents(#[trigger] parts.take(k)) <= normals(parts.take(k))
}

/// The walk is fine up to step `k` and goes wrong at it.
pub open spec fn fault_at(parts: Seq<Component>, k: int) -> bool {
    &&& 0 <= k < parts.len()
    &&& stays_inside(parts.take(k))
    &&& !stays_inside(parts.take(k + 1))
}

/// The step at which the walk first goes wrong.
pub open spec fn first_fault(parts: Seq<Component>) -> int {
    choose|k: int| fault_at(parts, k)
}

/// The decision on a path, given whether it is absolute and what its steps are.
pub open spec fn judge(absolute: bool, parts: Seq<Component>) -> Result<(), PathError> {
    if absolute {
        Err(PathError::Absolute)
    } else if stays_inside(parts) {
        Ok(())
    } else if parts[first_fault(parts)] is ParentDir {
        Err(PathError::Escapes)
    } else {
        Err(PathError::Foreign)
    }
}

proof fn lemma_take_step(parts: Seq<Component>, k: int)
    requires
        0 <= k < parts.len(),
    ensures
        normals(parts.take(k + 1)) == normals(parts.take(k)) + if parts[k] is Normal {
            1nat
        } else {
            0nat
        },
        parents(parts.take(k + 1)) == parents(parts.take(k)) + if parts[k] is ParentDir {
            1nat
        } else {
            0nat
        },
{
    assert(parts.take(k + 1).drop_last() =~= parts.take(k));
    assert(parts.take(k + 1).last() == parts[k]);
}

proof fn lemma_inside_extends(parts: Seq<Component>, k: int)
    requires
        0 <= k < parts.len(),
        stays_inside(parts.take(k)),
        is_relative_step(parts[k]),
        parents(parts.take(k + 1)) <= normals(parts.take(k + 1)),
    ensures
        stays_inside(parts.take(k + 1)),
{
    let longer = parts.take(k + 1);
    assert forall|j: int| 0 <= j <= longer.len() implies parents(#[trigger] longer.take(j)) <= normals(
        longer.take(j),
    ) by {
        if j <= k {
            assert(longer.take(j) =~= parts.take(k).take(j));
        } else {
            assert(longer.take(j) =~= longer);
        }
    }
    assert forall|i: int| 0 <= i < longer.len() implies is_relative_step(#[trigger] longer[i]) by {
        if i < k {
            assert(longer[i] == parts.take(k)[i]);
        }
    }
}

proof fn lemma_fault_is_unique(parts: Seq<Component>, a: int, b: int)
    requires
        fault_at(parts, a),
        fault_at(parts, b),
    ensures
        a == b,
{
    if a < b {
        a_prefix_of_a_safe_walk_is_safe(parts.take(b), a + 1);
        assert(parts.take(b).take(a + 1) =~= parts.take(a + 1));
    } else if b < a {
        a_prefix_of_a_safe_walk_is_safe(parts.take(a), b + 1);
        assert(parts.take(a).take(b + 1) =~= parts.take(b + 1));
    }
}

/// A walk that stays inside does so at each of its prefixes.
pub proof fn a_prefix_of_a_safe_walk_is_safe(parts: Seq<Component>, k: int)
    requires
        stays_inside(parts),
        0 <= k <= parts.len(),
    ensures
        stays_inside(parts.take(k)),
{
    let shorter = parts.take(k);
    assert forall|j: int| 0 <= j <= shorter.len() implies parents(#[trigger] shorter.take(j)) <= normals(
        shorter.take(j),
    ) by {
        assert(shorter.take(j) =~= parts.take(j));
    }
    assert forall|i: int| 0 <= i < shorter.len() implies is_relative_step(#[trigger] shorter[i]) by {
        assert(shorter[i] == parts[i]);
    }
}

proof fn lemma_reject(parts: Seq<Component>, k: int)
    requires
        fault_at(parts, k),
    ensures
        !stays_inside(parts),
        first_fault(parts) == k,
{
    if stays_inside(parts) {
        a_prefix_of_a_safe_walk_is_safe(parts, k + 1);
    }
    lemma_fault_is_unique(parts, k, first_fault(parts));
}

/// Walks the steps of a path and decides whether it may be written to:
/// refused when the path is absolute, when a `..` would leave the starting
/// directory, or when a step is neither a name, `.` nor `..`.
pub fn check_components(absolute: bool, parts: &Vec<Component>) -> (verdict: Result<(), PathError>)
    ensures
        verdict == judge(absolute, parts@),
{
    if absolute {
        return Err(PathError::Absolute);
    }
    let mut depth: usize = 0;
    let mut i: usize = 0;
    proof {
        assert(parts@.take(0) =~= Seq::<Component>::empty());
        assert forall|j: int| 0 <= j <= parts@.take(0).len() implies parents(#[trigger] parts@.take(0).take(j))
            <= normals(parts@.take(0).take(j)) by {
            assert(parts@.take(0).take(j) =~= Seq::<Component>::empty());
        }
    }
    while i < parts.len()
        invariant
            !absolute,
            0 <= i <= parts.len(),
            stays_inside(parts@.take(i as int)),
            depth == normals(parts@.take(i as int)) - parents(parts@.take(i as int)),
            depth <= i,
        decreases parts.len() - i,
    {
        let step = parts[i];
        proof {
            lemma_take_step(parts@, i as int);
        }
        let ghost here = i as int;
        match step {
            Component::Normal => {
                depth = depth + 1;
            },
            Component::CurDir => {},
            Component::ParentDir => {
                if depth == 0 {
                    proof {
                        assert(parts@.take(here + 1).take(here + 1) =~= parts@.take(here + 1));
                        assert(!stays_inside(parts@.take(here + 1)));
                        lemma_reject(parts@, here);
                    }
                    return Err(PathError::Escapes);
                }
                depth = depth - 1;
            },
            _ => {
                proof {
                    assert(parts@.take(here + 1)[here] == parts@[here]);
                    assert(!stays_inside(parts@.take(here + 1)));
                    lemma_reject(parts@, here);
                }
                return Err(PathError::Foreign);
            },
        }
        proof {
            lemma_inside_extends(parts@, here);
        }
        i = i + 1;
    }
    proof {
        assert(parts@.take(i as int) =~= parts@);
    }
    Ok(())
}

/// Decides whether the relative path written as `path` may be written to. No
/// file system is touched: the path is split into its steps and walked.
pub fn check_path_is_valid(path: &str) -> (verdict: Result<(), PathError>)
    ensures
        verdict == judge(path_is_absolute(path@), path_components(path@)),
{
    let absolute = is_absolute(path);
    let parts = components(path);
    check_components(absolute, &parts)
}

/// A relative path whose steps are names, `.` and `..`, and which never holds
/// more `..` than names at any point of the walk, is accepted.
pub proof fn accepts_paths_that_stay_inside(parts: Seq<Component>)
    requires
        stays_inside(parts),
    ensures
        judge(false, parts) is Ok,
{
}

/// An absolute path is refused, whatever its steps are.
pub proof fn refuses_absolute_paths(parts: Seq<Component>)
    ensures
        judge(true, parts) == Err::<(), PathError>(PathError::Absolute),
{
}

/// A path that begins with a root marker or a volume prefix is refused.
pub proof fn refuses_rooted_paths(absolute: bool, parts: Seq<Component>)
    requires
        parts.len() > 0,
        parts[0] is RootDir || parts[0] is Prefix,
    ensures
        judge(absolute, parts) is Err,
{
}

/// A path is refused as soon as one of its prefixes holds more `..` than names.
pub proof fn refuses_paths_that_climb_out(absolute: bool, parts: Seq<Component>, k: int)
    requires
        0 <= k <= parts.len(),
        parents(parts.take(k)) > normals(parts.take(k)),
    ensures
        judge(absolute, parts) is Err,
{
}

/// A path is accepted exactly when it is relative and its walk stays inside.
pub proof fn accepts_exactly_the_safe_paths(absolute: bool, parts: Seq<Component>)
    ensures
        judge(absolute, parts) is Ok <==> !absolute && stays_inside(parts),
{
}

} // verus!
