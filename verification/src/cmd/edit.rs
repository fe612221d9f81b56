//! Opening a spec in the editor.

use vstd::prelude::*;
use crate::cli::EditArgs;
use crate::specs::{is_path_result, stored, EntryKind, Specs, StoreError};

verus! {

/// The file to open in order to edit a spec, given what was found at its path.
pub fn edit(specs: &Specs, args: &EditArgs, found: EntryKind) -> (path: Result<String, StoreError>)
    ensures
        is_path_result(path, stored(specs@, args.name@, found)),
{
    specs.safe_get_spec_path(args.name.as_str(), found)
}

} // verus!
