//! Listing the specs of the store, with or without their default variables.

use vstd::prelude::*;
use crate::cli::LsArgs;
use crate::value::{is_plain, lookup, plain_entries, table_entries, value_model, Datum};
use crate::variables::{check_variables, names_first_unfit, VariableError};

verus! {

/// The number of columns that `unicode_width::UnicodeWidthStr::width` gives
/// for a text.
pub uninterp spec fn display_width(text: Seq<char>) -> nat;

/// The text that `toml::Value` displays for a value: the value as TOML writes it.
pub uninterp spec fn value_text(value: Datum) -> Seq<char>;

/// Calls `unicode_width::UnicodeWidthStr::width`. The contract only gives the
/// width its name: it is a function of the text.
#[verifier::external_body]
fn columns_of(text: &str) -> (columns: usize)
    ensures
        columns == display_width(text@),
{
    unicode_width::UnicodeWidthStr::width(text)
}

/// `a` comes before `b` when the two are ordered character by character.
pub open spec fn precedes(a: Seq<char>, b: Seq<char>) -> bool
    decreases a.len(),
{
    if b.len() == 0 {
        false
    } else if a.len() == 0 {
        true
    } else if a[0] != b[0] {
        (a[0] as int) < (b[0] as int)
    } else {
        precedes(a.skip(1), b.skip(1))
    }
}

/// The keys come in ascending order, each once.
pub open spec fn is_ascending(keys: Seq<Seq<char>>) -> bool {
    forall|i: int, j: int| 0 <= i < j < keys.len() ==> precedes(#[trigger] keys[i], #[trigger] keys[j])
}

/// `key` is one of `keys`.
pub open spec fn holds(keys: Seq<Seq<char>>, key: Seq<char>) -> bool {
    exists|i: int| 0 <= i < keys.len() && #[trigger] keys[i] == key
}

/// `keys` are the keys of `entries`: all of them, each once, in ascending order.
pub open spec fn is_key_list(keys: Seq<Seq<char>>, entries: Map<Seq<char>, Datum>) -> bool {
    &&& is_ascending(keys)
    &&& forall|key: Seq<char>| entries.contains_key(key) <==> holds(keys, key)
}

/// The keys of `entries` in ascending order.
pub open spec fn sorted_keys(entries: Map<Seq<char>, Datum>) -> Seq<Seq<char>> {
    choose|keys: Seq<Seq<char>>| is_key_list(keys, entries)
}

proof fn lemma_precedes_irreflexive(a: Seq<char>)
    ensures
        !precedes(a, a),
    decreases a.len(),
{
    if a.len() > 0 {
        lemma_precedes_irreflexive(a.skip(1));
    }
}

proof fn lemma_precedes_transitive(a: Seq<char>, b: Seq<char>, c: Seq<char>)
    requires
        precedes(a, b),
        precedes(b, c),
    ensures
        precedes(a, c),
    decreases a.len(),
{
    if a.len() > 0 && a[0] == b[0] && b[0] == c[0] {
        lemma_precedes_transitive(a.skip(1), b.skip(1), c.skip(1));
    }
}

proof fn lemma_first_is_least(x: Seq<Seq<char>>, y: Seq<Seq<char>>)
    requires
        is_ascending(x),
        is_ascending(y),
        x.len() > 0,
        y.len() > 0,
        holds(y, x[0]),
        holds(x, y[0]),
    ensures
        x[0] == y[0],
{
    let j = choose|j: int| 0 <= j < y.len() && #[trigger] y[j] == x[0];
    let i = choose|i: int| 0 <= i < x.len() && #[trigger] x[i] == y[0];
    if j > 0 {
        assert(precedes(y[0], y[j]));
        lemma_precedes_irreflexive(x[0]);
        if i > 0 {
            assert(precedes(x[0], x[i]));
            lemma_precedes_transitive(x[0], x[i], x[0]);
        }
    }
}

proof fn lemma_tail_holds(x: Seq<Seq<char>>, y: Seq<Seq<char>>, key: Seq<char>)
    requires
        is_ascending(x),
        x.len() > 0,
        y.len() > 0,
        x[0] == y[0],
        holds(x.skip(1), key),
        holds(y, key),
    ensures
        holds(y.skip(1), key),
{
    let m = choose|m: int| 0 <= m < x.skip(1).len() && #[trigger] x.skip(1)[m] == key;
    let n = choose|n: int| 0 <= n < y.len() && #[trigger] y[n] == key;
    assert(x[m + 1] == key);
    if n == 0 {
        assert(precedes(x[0], x[m + 1]));
        lemma_precedes_irreflexive(key);
    } else {
        assert(y.skip(1)[n - 1] == key);
    }
}

/// Two ascending lists of the same keys are the same list.
pub proof fn ascending_keys_are_listed_one_way(x: Seq<Seq<char>>, y: Seq<Seq<char>>)
    requires
        is_ascending(x),
        is_ascending(y),
        forall|key: Seq<char>| holds(x, key) <==> holds(y, key),
    ensures
        x == y,
    decreases x.len(),
{
    if x.len() == 0 {
        if y.len() > 0 {
            assert(y[0] == y[0]);
            assert(holds(y, y[0]));
        }
        assert(x =~= y);
    } else {
        assert(x[0] == x[0]);
        assert(holds(x, x[0]));
        assert(holds(y, x[0]));
        assert(y[0] == y[0]);
        assert(holds(y, y[0]));
        lemma_first_is_least(x, y);
        let xs = x.skip(1);
        let ys = y.skip(1);
        assert forall|i: int, j: int| 0 <= i < j < xs.len() implies precedes(
            #[trigger] xs[i],
            #[trigger] xs[j],
        ) by {
            assert(precedes(x[i + 1], x[j + 1]));
        }
        assert forall|i: int, j: int| 0 <= i < j < ys.len() implies precedes(
            #[trigger] ys[i],
            #[trigger] ys[j],
        ) by {
            assert(precedes(y[i + 1], y[j + 1]));
        }
        assert forall|key: Seq<char>| holds(xs, key) <==> holds(ys, key) by {
            if holds(xs, key) {
                let m = choose|m: int| 0 <= m < xs.len() && #[trigger] xs[m] == key;
                assert(x[m + 1] == key);
                assert(holds(x, key));
                lemma_tail_holds(x, y, key);
            }
            if holds(ys, key) {
                let m = choose|m: int| 0 <= m < ys.len() && #[trigger] ys[m] == key;
                assert(y[m + 1] == key);
                assert(holds(y, key));
                lemma_tail_holds(y, x, key);
            }
        }
        ascending_keys_are_listed_one_way(xs, ys);
        assert(x =~= seq![x[0]] + xs);
        assert(y =~= seq![y[0]] + ys);
    }
}

/// A table has one list of keys only: any list that holds its keys in
/// ascending order is [`sorted_keys`].
pub proof fn a_table_has_one_key_list(keys: Seq<Seq<char>>, entries: Map<Seq<char>, Datum>)
    requires
        is_key_list(keys, entries),
    ensures
        keys == sorted_keys(entries),
{
    ascending_keys_are_listed_one_way(keys, sorted_keys(entries));
}

/// Calls `toml::Table::keys`. The table is backed by a `BTreeMap` as long as
/// the `preserve_order` feature of the `toml` crate is off, as it is unless a
/// crate of the build turns it on; so the keys come in ascending order, each
/// key once.
#[verifier::external_body]
pub(crate) fn table_keys(table: &toml::Table) -> (keys: Vec<String>)
    ensures
        is_key_list(keys.deep_view(), table_entries(*table)),
{
    table.keys().cloned().collect()
}

/// Calls `ToString::to_string` of `toml::Value`, which writes a value as
/// TOML does. It fails on a date-time that no TOML text denotes, and such
/// values are left out.
#[verifier::external_body]
fn written(value: &toml::Value) -> (text: String)
    requires
        is_plain(value_model(*value)),
    ensures
        text@ == value_text(value_model(*value)),
{
    value.to_string()
}

/// The variables under `keys` on one line: `key=value`, separated by a comma
/// and a space.
pub open spec fn vars_text(keys: Seq<Seq<char>>, entries: Map<Seq<char>, Datum>) -> Seq<char>
    decreases keys.len(),
{
    if keys.len() == 0 {
        Seq::empty()
    } else if keys.len() == 1 {
        keys[0] + "="@ + value_text(entries[keys[0]])
    } else {
        vars_text(keys.drop_last(), entries) + ", "@ + keys.last() + "="@ + value_text(entries[keys.last()])
    }
}

/// Writes the default variables of a spec on one line, in ascending order of
/// their names, where the table can be generated from; names the variable
/// that stands against it where it cannot.
pub fn show_variables(variables: &toml::Table) -> (shown: Result<String, VariableError>)
    ensures
        shown is Ok <==> plain_entries(table_entries(*variables)),
        shown is Ok ==> shown->Ok_0@ == vars_text(
            sorted_keys(table_entries(*variables)),
            table_entries(*variables),
        ),
        shown is Err ==> names_first_unfit(shown->Err_0, table_entries(*variables)),
{
    match check_variables(variables) {
        Err(error) => Err(error),
        Ok(()) => Ok(describe_variables(variables)),
    }
}

/// Writes the default variables of a spec on one line, in ascending order of
/// their names.
pub fn describe_variables(variables: &toml::Table) -> (text: String)
    requires
        plain_entries(table_entries(*variables)),
    ensures
        text@ == vars_text(sorted_keys(table_entries(*variables)), table_entries(*variables)),
{
    let keys = table_keys(variables);
    let ghost entries = table_entries(*variables);
    let ghost listed = keys.deep_view();
    proof {
        a_table_has_one_key_list(listed, entries);
    }
    let mut text = String::new();
    let mut i: usize = 0;
    assert(listed.take(0) =~= Seq::<Seq<char>>::empty());
    while i < keys.len()
        invariant
            0 <= i <= keys.len(),
            listed == keys.deep_view(),
            entries == table_entries(*variables),
            is_key_list(listed, entries),
            plain_entries(entries),
            text@ == vars_text(listed.take(i as int), entries),
        decreases keys.len() - i,
    {
        let ghost done = listed.take(i as int);
        let ghost next = listed.take(i + 1);
        assert(next.drop_last() =~= done);
        assert(next.last() == listed[i as int]);
        assert(listed[i as int] == keys[i as int]@);
        assert(holds(listed, keys[i as int]@));
        if i > 0 {
            text.append(", ");
        }
        text.append(keys[i].as_str());
        text.append("=");
        if let Some(value) = lookup(variables, keys[i].as_str()) {
            let value = written(value);
            text.append(value.as_str());
        }
        assert(text@ =~= vars_text(next, entries)) by {
            if i == 0 {
                assert(done.len() == 0);
                assert(next.len() == 1);
                assert(next[0] == next.last());
            }
        }
        i = i + 1;
    }
    assert(listed.take(i as int) =~= listed);
    text
}

/// The widest of the names, in columns; 0 where there is none.
pub open spec fn widest(names: Seq<String>) -> nat
    decreases names.len(),
{
    if names.len() == 0 {
        0
    } else if display_width(names.last()@) > widest(names.drop_last()) {
        display_width(names.last()@)
    } else {
        widest(names.drop_last())
    }
}

/// The widest width is no less than that of any name, and it is the width
/// of one of them where there is a name.
pub proof fn widest_is_the_greatest_width(names: Seq<String>)
    ensures
        forall|i: int| 0 <= i < names.len() ==> display_width(#[trigger] names[i]@) <= widest(names),
        names.len() > 0 ==> exists|i: int|
            0 <= i < names.len() && display_width(#[trigger] names[i]@) == widest(names),
    decreases names.len(),
{
    if names.len() > 0 {
        let front = names.drop_last();
        widest_is_the_greatest_width(front);
        assert forall|i: int| 0 <= i < names.len() implies display_width(#[trigger] names[i]@) <= widest(
            names,
        ) by {
            if i < front.len() {
                assert(front[i] == names[i]);
            }
        }
        if display_width(names.last()@) > widest(front) || front.len() == 0 {
            assert(display_width(names[names.len() - 1]@) == widest(names));
        } else {
            let i = choose|i: int| 0 <= i < front.len() && display_width(#[trigger] front[i]@) == widest(front);
            assert(front[i] == names[i]);
            assert(display_width(names[i]@) == widest(names));
        }
    }
}

/// The width of the column that holds the names of the specs.
pub fn max_col_len(names: &Vec<String>) -> (columns: usize)
    ensures
        columns == widest(names@),
{
    let mut columns: usize = 0;
    let mut i: usize = 0;
    assert(names@.take(0) =~= Seq::<String>::empty());
    while i < names.len()
        invariant
            0 <= i <= names.len(),
            columns == widest(names@.take(i as int)),
        decreases names.len() - i,
    {
        assert(names@.take(i + 1).drop_last() =~= names@.take(i as int));
        assert(names@.take(i + 1).last() == names@[i as int]);
        let w = columns_of(names[i].as_str());
        if w > columns {
            columns = w;
        }
        i = i + 1;
    }
    assert(names@.take(i as int) =~= names@);
    columns
}

/// `count` spaces.
pub open spec fn spaces(count: nat) -> Seq<char> {
    Seq::new(count, |i: int| ' ')
}

/// A name, filled up with spaces to `width` columns where it takes fewer.
pub open spec fn padded(name: Seq<char>, width: nat) -> Seq<char> {
    if display_width(name) >= width {
        name
    } else {
        name + spaces((width - display_width(name)) as nat)
    }
}

/// One line of the listing with variables: the name, filled up to the
/// column's width, a tab, and the variables.
pub open spec fn row_text(name: Seq<char>, vars: Seq<char>, width: nat) -> Seq<char> {
    padded(name, width) + "\t"@ + vars
}

/// Writes the line of one spec in the listing with variables. The name is
/// filled up by the columns that it takes on the screen, so that the
/// variables of all specs line up, whatever characters the names hold.
pub fn list_row(name: &str, vars: &str, width: usize) -> (row: String)
    ensures
        row@ == row_text(name@, vars@, width as nat),
{
    let mut row = name.to_owned();
    let taken = columns_of(name);
    let mut filled: usize = taken;
    assert(row@ =~= name@ + spaces(0));
    while filled < width
        invariant
            taken == display_width(name@),
            taken <= filled,
            filled <= width || filled == taken,
            row@ == name@ + spaces((filled - taken) as nat),
        decreases width - filled,
    {
        proof {
            reveal_strlit(" ");
            assert(" "@ =~= seq![' ']);
            assert(name@ + spaces((filled - taken) as nat) + seq![' '] =~= name@ + spaces(
                (filled + 1 - taken) as nat,
            ));
        }
        row.append(" ");
        filled = filled + 1;
    }
    assert(row@ == padded(name@, width as nat)) by {
        if taken >= width {
            assert(filled == taken);
            assert(name@ + spaces(0) =~= name@);
        }
    }
    row.append("\t");
    row.append(vars);
    row
}

/// What the listing of the store amounts to.
#[derive(Debug, PartialEq)]
pub enum Listing {
    /// The store is empty: a hint on how to create a spec.
    Guidance { message: String },
    /// One line for each spec, with its name.
    Names { lines: Vec<String> },
    /// One line for each spec, made by [`list_row`] with this column width
    /// once the spec has been read.
    Rows { width: usize },
}

/// The hint that is shown in place of an empty listing.
pub open spec fn guidance() -> Seq<char> {
    "You don't have any templates yet. Please create a new one with: tmpl new <name of your template>"@
}

/// The lines of the listing without variables: the names, as they come.
pub fn list_without_vars(names: &Vec<String>) -> (lines: Vec<String>)
    ensures
        lines.deep_view() == names.deep_view(),
{
    let mut lines: Vec<String> = Vec::new();
    let mut i: usize = 0;
    while i < names.len()
        invariant
            0 <= i <= names.len(),
            lines.len() == i,
            forall|k: int| 0 <= k < i ==> (#[trigger] lines[k])@ == names[k]@,
        decreases names.len() - i,
    {
        lines.push(names[i].clone());
        i = i + 1;
    }
    assert(lines.deep_view() =~= names.deep_view());
    lines
}

/// Decides what the listing of the specs `names` shows: a hint where there
/// is no spec, else the names, or the width of the name column where the
/// variables are asked for.
pub fn list(names: &Vec<String>, args: LsArgs) -> (listing: Listing)
    ensures
        names.len() == 0 ==> (listing matches Listing::Guidance { message } && message@ == guidance()),
        names.len() > 0 && args.list_vars ==> (listing matches Listing::Rows { width } && width == widest(names@)),
        names.len() > 0 && !args.list_vars ==> (listing matches Listing::Names { lines }
            && lines.deep_view() == names.deep_view()),
{
    if names.len() == 0 {
        return Listing::Guidance {
            message: String::from_str(
                "You don't have any templates yet. Please create a new one with: tmpl new <name of your template>",
            ),
        };
    }
    if args.list_vars {
        Listing::Rows { width: max_col_len(names) }
    } else {
        Listing::Names { lines: list_without_vars(names) }
    }
}

} // verus!
