//! Which tables of variables can be generated from: those in which every
//! date-time, at whatever depth, is one that TOML text denotes. A table that
//! was read from a spec file is such a table; one that was built by hand may
//! hold a date-time with a field out of range, which cannot be written out.

use vstd::prelude::*;
use crate::cmd::list::{a_table_has_one_key_list, holds, is_key_list, sorted_keys, table_keys};
use crate::value::{
    check_value, is_plain, lookup, plain_entries, shape_of, table_entries, value_shape, Datum, Shape,
};

verus! {

/// A variable whose value cannot be generated from: the first such in the
/// order of the names, with the kind of what it holds.
#[derive(Debug, PartialEq)]
pub struct VariableError {
    pub key: String,
    pub shape: Shape,
}

/// The first of `keys` under which `entries` holds a value that no variable
/// may hold.
pub open spec fn first_unfit(keys: Seq<Seq<char>>, entries: Map<Seq<char>, Datum>) -> Option<Seq<char>>
    decreases keys.len(),
{
    if keys.len() == 0 {
        None
    } else if !is_plain(entries[keys[0]]) {
        Some(keys[0])
    } else {
        first_unfit(keys.skip(1), entries)
    }
}

/// `error` names the first variable of `entries`, in the order of the names,
/// whose value no variable may hold, and the kind of that value.
pub open spec fn names_first_unfit(error: VariableError, entries: Map<Seq<char>, Datum>) -> bool {
    &&& first_unfit(sorted_keys(entries), entries) == Some(error.key@)
    &&& error.shape == shape_of(entries[error.key@])
}

/// What is said of a variable that cannot be generated from.
pub open spec fn variable_error_text(key: Seq<char>, shape: Shape) -> Seq<char> {
    match shape {
        Shape::Datetime => key + " is a date-time that is out of range"@,
        _ => key + " holds a date-time that is out of range"@,
    }
}

impl VariableError {
    /// Says which variable cannot be generated from, and why.
    pub fn message(&self) -> (text: String)
        ensures
            text@ == variable_error_text(self.key@, self.shape),
    {
        let mut text = self.key.clone();
        match self.shape {
            Shape::Datetime => {
                text.append(" is a date-time that is out of range");
            },
            _ => {
                text.append(" holds a date-time that is out of range");
            },
        }
        text
    }
}

/// Tests whether a table of variables can be generated from: every
/// date-time in it, at whatever depth, has to be one that TOML text denotes.
/// The first variable that holds another is named.
pub fn check_variables(variables: &toml::Table) -> (checked: Result<(), VariableError>)
    ensures
        checked is Ok <==> plain_entries(table_entries(*variables)),
        checked is Err ==> names_first_unfit(checked->Err_0, table_entries(*variables)),
{
    let keys = table_keys(variables);
    let ghost entries = table_entries(*variables);
    let ghost listed = keys.deep_view();
    proof {
        a_table_has_one_key_list(listed, entries);
        assert(listed.skip(0) =~= listed);
    }
    let mut i: usize = 0;
    while i < keys.len()
        invariant
            0 <= i <= keys.len(),
            listed == keys.deep_view(),
            entries == table_entries(*variables),
            is_key_list(listed, entries),
            listed == sorted_keys(entries),
            first_unfit(listed, entries) == first_unfit(listed.skip(i as int), entries),
            forall|k: int| 0 <= k < i ==> is_plain(entries[#[trigger] listed[k]]),
        decreases keys.len() - i,
    {
        assert(listed[i as int] == keys[i as int]@);
        assert(holds(listed, keys[i as int]@));
        assert(listed.skip(i as int)[0] == listed[i as int]);
        assert(listed.skip(i as int).skip(1) =~= listed.skip(i + 1));
        match lookup(variables, keys[i].as_str()) {
            Some(value) => {
                if !check_value(value) {
                    assert(entries.contains_key(listed[i as int]));
                    assert(!is_plain(entries[listed[i as int]]));
                    return Err(VariableError { key: keys[i].clone(), shape: value_shape(value) });
                }
            },
            None => {},
        }
        i = i + 1;
    }
    proof {
        assert forall|key: Seq<char>| entries.contains_key(key) implies is_plain(#[trigger] entries[key]) by {
            assert(holds(listed, key));
            let k = choose|k: int| 0 <= k < listed.len() && #[trigger] listed[k] == key;
            assert(is_plain(entries[listed[k]]));
        }
    }
    Ok(())
}

} // verus!
