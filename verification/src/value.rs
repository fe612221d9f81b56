//! The variables of a spec: a table of typed values, and how a raw command
//! line word becomes one of them.

use vstd::prelude::*;
use crate::cmd::list::{holds, is_key_list, table_keys};

verus! {

/// The table type of the `toml` crate. Verus sees nothing inside it: what it
/// holds is spoken of through [`table_entries`].
#[verifier::external_type_specification]
#[verifier::external_body]
#[verifier::reject_recursive_types(K)]
#[verifier::reject_recursive_types(V)]
pub struct ExTomlMap<K, V>(toml::map::Map<K, V>);

/// The value type of the `toml` crate. Verus sees nothing inside it: what it
/// holds is spoken of through [`value_model`].
#[verifier::external_type_specification]
#[verifier::external_body]
pub struct ExTomlValue(toml::Value);

/// A calendar date.
#[derive(Clone, Copy, Debug, PartialEq, Eq, Structural)]
pub struct Date {
    pub year: u16,
    pub month: u8,
    pub day: u8,
}

/// A time of day. The seconds and their fraction may be left out.
#[derive(Clone, Copy, Debug, PartialEq, Eq, Structural)]
pub struct Time {
    pub hour: u8,
    pub minute: u8,
    pub second: Option<u8>,
    pub nanosecond: Option<u32>,
}

/// The distance of a time from UTC.
#[derive(Clone, Copy, Debug, PartialEq, Eq, Structural)]
pub enum Offset {
    /// None: the time is UTC.
    Z,
    /// So many minutes, east of UTC where positive.
    Custom { minutes: i16 },
}

/// A date, a time or both, by its fields: what a `toml::value::Datetime` holds.
#[derive(Clone, Copy, Debug, PartialEq, Eq, Structural)]
pub struct Moment {
    pub date: Option<Date>,
    pub time: Option<Time>,
    pub offset: Option<Offset>,
}

/// The kind of a value.
#[derive(Clone, Copy, Debug, PartialEq, Eq, Structural)]
pub enum Shape {
    Text,
    Integer,
    Float,
    Boolean,
    Datetime,
    Array,
    Table,
}

/// What a value of a variable is, as plain data.
pub enum Datum {
    /// A string.
    Text(Seq<char>),
    /// A 64-bit integer.
    Integer(i64),
    /// A 64-bit float, by its bit pattern.
    Float(u64),
    /// A boolean.
    Boolean(bool),
    /// A date, a time or both.
    Datetime(Moment),
    /// A list of values.
    Array(Seq<Datum>),
    /// A nested table.
    Table(Map<Seq<char>, Datum>),
}

/// What a `toml::Value` holds.
pub uninterp spec fn value_model(value: toml::Value) -> Datum;

/// What a `toml::Table` holds: each key with the value stored under it.
pub uninterp spec fn table_entries(table: toml::Table) -> Map<Seq<char>, Datum>;

/// The bit pattern of the float that `str::parse` reads from `raw`, if it reads one.
pub uninterp spec fn float_bits(raw: Seq<char>) -> Option<u64>;

/// The date-time that `toml::value::Datetime` reads from `raw`, if it reads one.
pub uninterp spec fn datetime_of(raw: Seq<char>) -> Option<Moment>;

/// The kind of a value.
pub open spec fn shape_of(datum: Datum) -> Shape {
    match datum {
        Datum::Text(_) => Shape::Text,
        Datum::Integer(_) => Shape::Integer,
        Datum::Float(_) => Shape::Float,
        Datum::Boolean(_) => Shape::Boolean,
        Datum::Datetime(_) => Shape::Datetime,
        Datum::Array(_) => Shape::Array,
        Datum::Table(_) => Shape::Table,
    }
}

/// Whether a year has a 29th of February.
pub open spec fn is_leap_year(year: int) -> bool {
    year % 4 == 0 && (year % 100 != 0 || year % 400 == 0)
}

/// The number of days of a month.
pub open spec fn days_in_month(year: int, month: int) -> int {
    if month == 2 {
        if is_leap_year(year) {
            29
        } else {
            28
        }
    } else if month == 4 || month == 6 || month == 9 || month == 11 {
        30
    } else {
        31
    }
}

/// A date of the calendar, with a year of four digits.
pub open spec fn is_calendar_date(date: Date) -> bool {
    &&& date.year <= 9999
    &&& 1 <= date.month <= 12
    &&& 1 <= date.day <= days_in_month(date.year as int, date.month as int)
}

/// A time of the clock; the 60th second is a leap second.
pub open spec fn is_clock_time(time: Time) -> bool {
    &&& time.hour <= 23
    &&& time.minute <= 59
    &&& time.second is Some ==> time.second->0 <= 60
    &&& time.nanosecond is Some ==> time.nanosecond->0 <= 999_999_999
}

/// An offset of less than a day.
pub open spec fn is_day_offset(offset: Offset) -> bool {
    match offset {
        Offset::Z => true,
        Offset::Custom { minutes } => -1440 < minutes < 1440,
    }
}

/// A date-time that some TOML text denotes: a date, a time, a date with a
/// time, or a date with a time and an offset, each part within its range.
/// These are the date-times that can be written out again.
pub open spec fn is_denoted(moment: Moment) -> bool {
    &&& moment.date is Some || moment.time is Some
    &&& moment.offset is Some ==> moment.date is Some && moment.time is Some
    &&& moment.date is Some ==> is_calendar_date(moment.date->0)
    &&& moment.time is Some ==> is_clock_time(moment.time->0)
    &&& moment.offset is Some ==> is_day_offset(moment.offset->0)
}

/// A value that a variable may hold: one in which every date-time, at
/// whatever depth, is one that TOML text denotes. These are the values that
/// can be written out.
pub open spec fn is_plain(datum: Datum) -> bool
    decreases datum,
{
    match datum {
        Datum::Datetime(moment) => is_denoted(moment),
        Datum::Array(items) => forall|i: int| 0 <= i < items.len() ==> is_plain(#[trigger] items[i]),
        Datum::Table(entries) => forall|key: Seq<char>|
            entries.contains_key(key) ==> is_plain(#[trigger] entries[key]),
        _ => true,
    }
}

/// What each of a list of values holds.
pub open spec fn models_of(items: Seq<toml::Value>) -> Seq<Datum> {
    Seq::new(items.len(), |i: int| value_model(items[i]))
}

/// Every value of the table is one that a variable may hold.
pub open spec fn plain_entries(entries: Map<Seq<char>, Datum>) -> bool {
    forall|key: Seq<char>| entries.contains_key(key) ==> is_plain(#[trigger] entries[key])
}

/// The number that a run of decimal digits denotes.
pub open spec fn digits_value(digits: Seq<char>) -> nat
    decreases digits.len(),
{
    if digits.len() == 0 {
        0
    } else {
        digits_value(digits.drop_last()) * 10 + (digits.last() as nat - '0' as nat) as nat
    }
}

/// A nonempty run of ASCII decimal digits.
pub open spec fn is_digits(digits: Seq<char>) -> bool {
    &&& digits.len() > 0
    &&& forall|i: int| 0 <= i < digits.len() ==> '0' <= #[trigger] digits[i] <= '9'
}

/// The integer that `raw` denotes in decimal: an optional sign, then digits
/// only, and a value that fits in 64 bits.
pub open spec fn integer_of(raw: Seq<char>) -> Option<i64> {
    let negative = raw.len() > 0 && raw[0] == '-';
    let signed = raw.len() > 0 && (raw[0] == '-' || raw[0] == '+');
    let digits = if signed { raw.skip(1) } else { raw };
    let magnitude = digits_value(digits) as int;
    let number = if negative { -magnitude } else { magnitude };
    if is_digits(digits) && i64::MIN <= number <= i64::MAX {
        Some(number as i64)
    } else {
        None
    }
}

/// The boolean that `raw` spells out.
pub open spec fn boolean_of(raw: Seq<char>) -> Option<bool> {
    if raw == "true"@ {
        Some(true)
    } else if raw == "false"@ {
        Some(false)
    } else {
        None
    }
}

/// What an optional `toml::Value` holds.
pub open spec fn reading_model(reading: Option<toml::Value>) -> Option<Datum> {
    match reading {
        Some(value) => Some(value_model(value)),
        None => None,
    }
}

/// The float that `raw` reads as, if it reads as one.
pub open spec fn float_of(raw: Seq<char>) -> Option<Datum> {
    match float_bits(raw) {
        Some(bits) => Some(Datum::Float(bits)),
        None => None,
    }
}

/// The date-time that `raw` reads as, if it reads as one.
pub open spec fn moment_of(raw: Seq<char>) -> Option<Datum> {
    match datetime_of(raw) {
        Some(moment) => Some(Datum::Datetime(moment)),
        None => None,
    }
}

/// The value that the readings of a word amount to. The first reading that
/// is there wins: integer, float, boolean, date-time; a word without any
/// reading stays a string.
pub open spec fn picked(
    integer: Option<i64>,
    float: Option<Datum>,
    boolean: Option<bool>,
    datetime: Option<Datum>,
    raw: Seq<char>,
) -> Datum {
    if integer is Some {
        Datum::Integer(integer->0)
    } else if float is Some {
        float->0
    } else if boolean is Some {
        Datum::Boolean(boolean->0)
    } else if datetime is Some {
        datetime->0
    } else {
        Datum::Text(raw)
    }
}

/// The typed value that a raw word stands for: an integer if it reads as one,
/// else a float, else a boolean, else a date-time, else the word itself.
pub open spec fn coerced(raw: Seq<char>) -> Datum {
    picked(integer_of(raw), float_of(raw), boolean_of(raw), moment_of(raw), raw)
}

proof fn lemma_digits_step(digits: Seq<char>, k: int)
    requires
        0 <= k < digits.len(),
    ensures
        digits_value(digits.take(k + 1)) == digits_value(digits.take(k)) * 10 + (digits[k] as nat
            - '0' as nat) as nat,
{
    assert(digits.take(k + 1).drop_last() =~= digits.take(k));
    assert(digits.take(k + 1).last() == digits[k]);
}

proof fn lemma_digits_grow(digits: Seq<char>, k: int)
    requires
        0 <= k <= digits.len(),
    ensures
        digits_value(digits.take(k)) <= digits_value(digits),
    decreases digits.len() - k,
{
    if k < digits.len() {
        lemma_digits_step(digits, k);
        lemma_digits_grow(digits, k + 1);
    } else {
        assert(digits.take(k) =~= digits);
    }
}

/// The value of a decimal digit, if the character is one.
fn digit_of(c: char) -> (value: Option<u64>)
    ensures
        value is Some <==> '0' <= c <= '9',
        value is Some ==> value->0 == c as nat - '0' as nat,
{
    let code: u32 = c as u32;
    if code < 48 || code > 57 {
        None
    } else {
        Some((code - 48) as u64)
    }
}

/// Reads a decimal integer: an optional `+` or `-`, then digits only, and a
/// value that fits in 64 bits. Anything else is no integer.
pub fn parse_integer(raw: &str) -> (number: Option<i64>)
    ensures
        number == integer_of(raw@),
{
    let len = raw.unicode_len();
    if len == 0 {
        return None;
    }
    let first = raw.get_char(0);
    let negative = first == '-';
    let start: usize = if first == '-' || first == '+' {
        1
    } else {
        0
    };
    let ghost digits = raw@.skip(start as int);
    assert(raw@.skip(0) =~= raw@);
    if start == len {
        return None;
    }
    let mut magnitude: u64 = 0;
    let mut i: usize = start;
    assert(digits.take(0) =~= Seq::<char>::empty());
    while i < len
        invariant
            start <= i <= len,
            len == raw@.len(),
            len > 0,
            negative <==> raw@[0] == '-',
            start == (if raw@[0] == '-' || raw@[0] == '+' {
                1int
            } else {
                0int
            }),
            digits == raw@.skip(start as int),
            forall|k: int| 0 <= k < i - start ==> '0' <= #[trigger] digits[k] <= '9',
            magnitude == digits_value(digits.take(i - start)),
            magnitude <= 9223372036854775808,
        decreases len - i,
    {
        let c = raw.get_char(i);
        assert(raw@.skip(0) =~= raw@);
        assert(digits[i - start] == c);
        proof {
            lemma_digits_step(digits, i - start);
            lemma_digits_grow(digits, i - start + 1);
        }
        match digit_of(c) {
            None => {
                return None;
            },
            Some(value) => {
                if magnitude > (9223372036854775808 - value) / 10 {
                    return None;
                }
                magnitude = magnitude * 10 + value;
            },
        }
        i = i + 1;
    }
    assert(digits.take(len - start) =~= digits);
    assert(raw@.skip(0) =~= raw@);
    assert(is_digits(digits));
    if negative {
        if magnitude == 9223372036854775808 {
            Some(i64::MIN)
        } else {
            Some(-(magnitude as i64))
        }
    } else if magnitude > 9223372036854775807 {
        None
    } else {
        Some(magnitude as i64)
    }
}

/// Reads a boolean: `true` and `false` are booleans, and nothing else is.
fn parse_boolean(raw: &str) -> (flag: Option<bool>)
    ensures
        flag == boolean_of(raw@),
{
    let word = raw.to_owned();
    if word == "true".to_owned() {
        Some(true)
    } else if word == "false".to_owned() {
        Some(false)
    } else {
        None
    }
}

/// Builds `toml::Value::Integer`.
#[verifier::external_body]
fn integer_value(number: i64) -> (value: toml::Value)
    ensures
        value_model(value) == Datum::Integer(number),
{
    toml::Value::Integer(number)
}

/// Builds `toml::Value::Boolean`.
#[verifier::external_body]
fn boolean_value(flag: bool) -> (value: toml::Value)
    ensures
        value_model(value) == Datum::Boolean(flag),
{
    toml::Value::Boolean(flag)
}

/// Builds `toml::Value::String`.
#[verifier::external_body]
pub(crate) fn string_value(text: String) -> (value: toml::Value)
    ensures
        value_model(value) == Datum::Text(text@),
{
    toml::Value::String(text)
}

/// Calls `str::parse` for a 64-bit float and wraps what it reads in
/// `toml::Value::Float`. The contract names the float's bit pattern as a
/// function of the text; it says nothing of which texts are floats.
#[verifier::external_body]
fn float_value(raw: &str) -> (value: Option<toml::Value>)
    ensures
        value is Some <==> float_bits(raw@) is Some,
        value is Some ==> value_model(value->0) == Datum::Float(float_bits(raw@)->0),
{
    raw.parse().ok().map(toml::Value::Float)
}

/// Calls `toml::value::Datetime::from_str` and wraps what it reads in
/// `toml::Value::Datetime`. The contract names the date-time as a function of
/// the text; it says nothing of which texts are date-times, but that what is
/// read is within the ranges that the parser tests.
#[verifier::external_body]
fn datetime_value(raw: &str) -> (value: Option<toml::Value>)
    ensures
        value is Some <==> datetime_of(raw@) is Some,
        value is Some ==> value_model(value->0) == Datum::Datetime(datetime_of(raw@)->0),
        value is Some ==> is_denoted(datetime_of(raw@)->0),
{
    raw.parse::<toml::value::Datetime>().ok().map(toml::Value::Datetime)
}

/// Calls `toml::Table::new`, which makes a table without entries.
#[verifier::external_body]
pub(crate) fn new_table() -> (table: toml::Table)
    ensures
        table_entries(table) =~= Map::empty(),
{
    toml::Table::new()
}

/// Calls `Clone::clone` of `toml::Table`, which copies every entry.
#[verifier::external_body]
pub(crate) fn clone_table(table: &toml::Table) -> (copy: toml::Table)
    ensures
        table_entries(copy) == table_entries(*table),
{
    table.clone()
}

/// Calls `toml::Table::insert`, which stores `value` under `key` and replaces
/// what was stored under it before.
#[verifier::external_body]
pub(crate) fn insert_value(table: &mut toml::Table, key: String, value: toml::Value)
    ensures
        table_entries(*final(table)) == table_entries(*old(table)).insert(key@, value_model(value)),
{
    table.insert(key, value);
}

/// Calls `toml::Table::get`, which finds the value stored under `key`.
#[verifier::external_body]
pub(crate) fn lookup<'a>(table: &'a toml::Table, key: &str) -> (value: Option<&'a toml::Value>)
    ensures
        value is Some <==> table_entries(*table).contains_key(key@),
        value is Some ==> value_model(*(value->0)) == table_entries(*table)[key@],
{
    table.get(key)
}

/// Tells the variants of `toml::Value` apart.
#[verifier::external_body]
pub(crate) fn value_shape(value: &toml::Value) -> (shape: Shape)
    ensures
        shape == shape_of(value_model(*value)),
{
    match value {
        toml::Value::String(_) => Shape::Text,
        toml::Value::Integer(_) => Shape::Integer,
        toml::Value::Float(_) => Shape::Float,
        toml::Value::Boolean(_) => Shape::Boolean,
        toml::Value::Datetime(_) => Shape::Datetime,
        toml::Value::Array(_) => Shape::Array,
        toml::Value::Table(_) => Shape::Table,
    }
}

/// Calls `toml::Value::as_datetime` and takes the public fields of the
/// date-time out, one for one.
#[verifier::external_body]
pub(crate) fn value_moment(value: &toml::Value) -> (moment: Option<Moment>)
    ensures
        moment is Some <==> value_model(*value) is Datetime,
        moment is Some ==> value_model(*value) == Datum::Datetime(moment->0),
{
    value.as_datetime().map(|found| Moment {
        date: found.date.map(|d| Date { year: d.year, month: d.month, day: d.day }),
        time: found.time.map(|t| Time {
            hour: t.hour, minute: t.minute, second: t.second, nanosecond: t.nanosecond,
        }),
        offset: found.offset.map(|offset| match offset {
            toml::value::Offset::Z => Offset::Z,
            toml::value::Offset::Custom { minutes } => Offset::Custom { minutes },
        }),
    })
}

/// Tests whether a date is one of the calendar.
pub fn check_date(date: &Date) -> (ok: bool)
    ensures
        ok == is_calendar_date(*date),
{
    if date.year > 9999 || date.month < 1 || date.month > 12 || date.day < 1 {
        return false;
    }
    let leap = date.year % 4 == 0 && (date.year % 100 != 0 || date.year % 400 == 0);
    let days: u8 = if date.month == 2 {
        if leap {
            29
        } else {
            28
        }
    } else if date.month == 4 || date.month == 6 || date.month == 9 || date.month == 11 {
        30
    } else {
        31
    };
    date.day <= days
}

/// Tests whether a time is one of the clock.
pub fn check_time(time: &Time) -> (ok: bool)
    ensures
        ok == is_clock_time(*time),
{
    if time.hour > 23 || time.minute > 59 {
        return false;
    }
    if let Some(second) = time.second {
        if second > 60 {
            return false;
        }
    }
    if let Some(nanosecond) = time.nanosecond {
        if nanosecond > 999_999_999 {
            return false;
        }
    }
    true
}

/// Tests whether a date-time is one that TOML text denotes.
pub fn check_moment(moment: &Moment) -> (ok: bool)
    ensures
        ok == is_denoted(*moment),
{
    if moment.date.is_none() && moment.time.is_none() {
        return false;
    }
    if let Some(date) = &moment.date {
        if !check_date(date) {
            return false;
        }
    }
    if let Some(time) = &moment.time {
        if !check_time(time) {
            return false;
        }
    }
    match moment.offset {
        None => true,
        Some(offset) => {
            if moment.date.is_none() || moment.time.is_none() {
                return false;
            }
            match offset {
                Offset::Z => true,
                Offset::Custom { minutes } => -1440 < minutes && minutes < 1440,
            }
        },
    }
}

/// Calls `toml::Value::as_array` and copies the items out.
#[verifier::external_body]
fn array_items(value: &toml::Value) -> (items: Option<Vec<toml::Value>>)
    ensures
        items is Some <==> value_model(*value) is Array,
        items is Some ==> value_model(*value) == Datum::Array(models_of(items->0@)),
{
    value.as_array().cloned()
}

/// Calls `toml::Value::as_table` and copies the table out. A table holds
/// finitely many entries.
#[verifier::external_body]
fn inner_table(value: &toml::Value) -> (table: Option<toml::Table>)
    ensures
        table is Some <==> value_model(*value) is Table,
        table is Some ==> value_model(*value) == Datum::Table(table_entries(table->0)),
        table is Some ==> table_entries(table->0).dom().finite(),
{
    value.as_table().cloned()
}

/// Tests whether a value is one that a variable may hold: every date-time
/// in it, at whatever depth, has to be one that TOML text denotes.
pub fn check_value(value: &toml::Value) -> (ok: bool)
    ensures
        ok == is_plain(value_model(*value)),
    decreases value_model(*value),
{
    match value_shape(value) {
        Shape::Datetime => match value_moment(value) {
            Some(moment) => check_moment(&moment),
            None => false,
        },
        Shape::Array => match array_items(value) {
            None => false,
            Some(items) => {
                let ghost models = models_of(items@);
                let mut i: usize = 0;
                while i < items.len()
                    invariant
                        0 <= i <= items.len(),
                        models == models_of(items@),
                        value_model(*value) == Datum::Array(models),
                        forall|k: int| 0 <= k < i ==> is_plain(#[trigger] models[k]),
                    decreases items.len() - i,
                {
                    assert(models[i as int] == value_model(items[i as int]));
                    proof {
                        let whole = value_model(*value);
                        assert(whole->Array_0 == models);
                        assert(decreases_to!(whole => whole->Array_0));
                        assert(decreases_to!(whole->Array_0 => whole->Array_0[i as int]));
                    }
                    if !check_value(&items[i]) {
                        assert(!is_plain(models[i as int]));
                        return false;
                    }
                    i = i + 1;
                }
                true
            },
        },
        Shape::Table => match inner_table(value) {
            None => false,
            Some(table) => {
                let keys = table_keys(&table);
                let ghost entries = table_entries(table);
                let ghost listed = keys.deep_view();
                let mut i: usize = 0;
                while i < keys.len()
                    invariant
                        0 <= i <= keys.len(),
                        listed == keys.deep_view(),
                        entries == table_entries(table),
                        entries.dom().finite(),
                        value_model(*value) == Datum::Table(entries),
                        is_key_list(listed, entries),
                        forall|k: int| 0 <= k < i ==> is_plain(entries[#[trigger] listed[k]]),
                    decreases keys.len() - i,
                {
                    assert(listed[i as int] == keys[i as int]@);
                    assert(holds(listed, keys[i as int]@));
                    match lookup(&table, keys[i].as_str()) {
                        Some(inner) => {
                            proof {
                                let whole = value_model(*value);
                                assert(whole->Table_0 == entries);
                                assert(decreases_to!(whole => whole->Table_0));
                                assert(decreases_to!(whole->Table_0 => whole->Table_0[keys[i as int]@]));
                            }
                            if !check_value(inner) {
                                assert(entries.contains_key(keys[i as int]@));
                                assert(!is_plain(entries[keys[i as int]@]));
                                return false;
                            }
                        },
                        None => {},
                    }
                    i = i + 1;
                }
                proof {
                    assert forall|key: Seq<char>| entries.contains_key(key) implies is_plain(
                        #[trigger] entries[key],
                    ) by {
                        assert(holds(listed, key));
                        let k = choose|k: int| 0 <= k < listed.len() && #[trigger] listed[k] == key;
                        assert(is_plain(entries[listed[k]]));
                    }
                }
                true
            },
        },
        _ => true,
    }
}

/// Picks the value that the readings of a raw word amount to. The first
/// reading that is there wins: integer, float, boolean, date-time; a word
/// without any reading stays a string.
pub fn pick(
    integer: Option<i64>,
    float: Option<toml::Value>,
    boolean: Option<bool>,
    datetime: Option<toml::Value>,
    raw: &str,
) -> (value: toml::Value)
    ensures
        value_model(value) == picked(integer, reading_model(float), boolean, reading_model(datetime), raw@),
{
    if let Some(number) = integer {
        return integer_value(number);
    }
    if let Some(value) = float {
        return value;
    }
    if let Some(flag) = boolean {
        return boolean_value(flag);
    }
    if let Some(value) = datetime {
        return value;
    }
    string_value(raw.to_owned())
}

/// Turns a raw word into a typed value. The first reading that succeeds wins:
/// integer, float, boolean, date-time; a word that is none of them stays a
/// string. The value is always one that a variable may hold.
pub fn coerce(raw: &str) -> (value: toml::Value)
    ensures
        value_model(value) == coerced(raw@),
        is_plain(value_model(value)),
{
    let integer = parse_integer(raw);
    let float = float_value(raw);
    let boolean = parse_boolean(raw);
    let datetime = datetime_value(raw);
    pick(integer, float, boolean, datetime, raw)
}

} // verus!
