//! Property lists: the parts of the plist crate that the pipeline reads and writes.

use vstd::prelude::*;

use crate::timestamp::in_calendar;

verus! {

/// The dictionary type of the plist crate, declared so that verified code can carry it.
#[verifier::external_type_specification]
#[verifier::external_body]
pub struct ExPlistDictionary(plist::Dictionary);

/// The value type of the plist crate, declared so that verified code can carry it.
#[verifier::external_type_specification]
#[verifier::external_body]
pub struct ExPlistValue(plist::Value);

/// What one key of a dictionary holds.
pub enum Entry {
    /// A string.
    Text(Seq<char>),
    /// Raw bytes.
    Data(Seq<u8>),
    /// A moment: seconds since 1970 in UTC, and nanoseconds after that second, less than a second.
    Date(int, int),
    /// An integer that is not negative.
    Unsigned(nat),
    /// Anything else.
    Other,
}

/// Entries by key.
pub type Entries = Map<Seq<char>, Entry>;

/// What a dictionary holds, by key.
pub uninterp spec fn dictionary_entries(d: plist::Dictionary) -> Map<Seq<char>, Entry>;

/// What a value holds, by key: the entries of a dictionary, and none where it is anything else.
pub uninterp spec fn value_entries(v: plist::Value) -> Map<Seq<char>, Entry>;

/// The string that `entries` hold under `key`, if they hold one.
pub open spec fn text_at(entries: Entries, key: Seq<char>) -> Option<Seq<char>> {
    if entries.contains_key(key) {
        match entries[key] {
            Entry::Text(t) => Some(t),
            _ => None,
        }
    } else {
        None
    }
}

/// The unsigned integer that `entries` hold under `key`, if they hold one.
pub open spec fn unsigned_at(entries: Entries, key: Seq<char>) -> Option<nat> {
    if entries.contains_key(key) {
        match entries[key] {
            Entry::Unsigned(n) => Some(n),
            _ => None,
        }
    } else {
        None
    }
}

/// `Value::as_dictionary` of the plist crate gives the dictionary that a value is, and nothing for
/// any other value.
#[verifier::external_body]
pub(crate) fn as_dictionary(v: &plist::Value) -> (r: Option<&plist::Dictionary>)
    ensures
        match r {
            Some(d) => dictionary_entries(*d) == value_entries(*v),
            None => value_entries(*v) == Entries::empty(),
        },
{
    v.as_dictionary()
}

/// `Dictionary::get` and `Value::as_string` of the plist crate: the string under a key, and nothing
/// where the key is absent or holds anything else.
#[verifier::external_body]
pub(crate) fn get_text(d: &plist::Dictionary, key: &str) -> (r: Option<String>)
    ensures
        match r {
            Some(t) => text_at(dictionary_entries(*d), key@) == Some(t@),
            None => text_at(dictionary_entries(*d), key@) is None,
        },
{
    d.get(key).and_then(|v| v.as_string()).map(|t| t.to_string())
}

/// `Dictionary::get` and `Value::as_unsigned_integer` of the plist crate: the unsigned integer
/// under a key, and nothing where the key is absent or holds anything else.
#[verifier::external_body]
pub(crate) fn get_unsigned(d: &plist::Dictionary, key: &str) -> (r: Option<u64>)
    ensures
        match r {
            Some(n) => unsigned_at(dictionary_entries(*d), key@) == Some(n as nat),
            None => unsigned_at(dictionary_entries(*d), key@) is None,
        },
{
    d.get(key).and_then(|v| v.as_unsigned_integer())
}

/// `Dictionary::new` of the plist crate makes a dictionary that holds nothing.
#[verifier::external_body]
pub(crate) fn empty_dictionary() -> (r: plist::Dictionary)
    ensures
        dictionary_entries(r) == Entries::empty(),
{
    plist::Dictionary::new()
}

/// The entry of a moment: nanoseconds past a second are carried into the seconds, so that a leap
/// second is the second after it.
pub open spec fn date_entry(secs: int, nanos: int) -> Entry {
    Entry::Date(secs + nanos / 1_000_000_000, nanos % 1_000_000_000)
}

/// A value to put into a dictionary.
pub enum Content {
    /// A string.
    Text(String),
    /// Raw bytes.
    Data(Vec<u8>),
    /// A moment: seconds since 1970 in UTC, and nanoseconds after that second. A leap second is
    /// written as the second before it, with more than a second of nanoseconds.
    Date(i64, u32),
}

impl Content {
    /// What a key holds once this value is put there.
    pub open spec fn entry(self) -> Entry {
        match self {
            Content::Text(t) => Entry::Text(t@),
            Content::Data(d) => Entry::Data(d@),
            Content::Date(secs, nanos) => date_entry(secs as int, nanos as int),
        }
    }

    /// Whether a date is one that chrono's calendar holds.
    pub open spec fn valid(self) -> bool {
        match self {
            Content::Date(secs, nanos) => in_calendar(secs as int, nanos as int),
            _ => true,
        }
    }
}

/// `Dictionary::insert` of the plist crate puts the value under the key, in place of what was
/// there, and leaves every other key as it was. A date is made from chrono's `DateTime` by way of
/// `SystemTime`, as both crates convert it, and `Duration::new` of std carries nanoseconds past a
/// second into the seconds. What is said of dates holds where `SystemTime` counts single
/// nanoseconds and reaches as far as chrono's calendar, as on Linux; on Windows it counts steps of
/// 100 nanoseconds, and a finer fraction is lost.
#[verifier::external_body]
pub(crate) fn put(d: &mut plist::Dictionary, key: &str, content: Content)
    requires
        content.valid(),
    ensures
        dictionary_entries(*final(d)) == dictionary_entries(*old(d)).insert(key@, content.entry()),
{
    let value = match content {
        Content::Text(t) => plist::Value::String(t),
        Content::Data(bytes) => plist::Value::Data(bytes),
        Content::Date(secs, nanos) => {
            let moment = chrono::DateTime::from_timestamp(secs, nanos).unwrap();
            plist::Value::Date(std::time::SystemTime::from(moment).into())
        },
    };
    d.insert(key.to_string(), value);
}

/// `Value::Dictionary` of the plist crate is the value that the dictionary is.
#[verifier::external_body]
pub(crate) fn into_value(d: plist::Dictionary) -> (r: plist::Value)
    ensures
        value_entries(r) == dictionary_entries(d),
{
    plist::Value::Dictionary(d)
}

/// A value is seen as what it is; a moment, with less than a second of nanoseconds, as the same
/// number of nanoseconds since 1970. What a key holds is found under that key, where it is of the
/// kind that was asked for.
pub proof fn law_contents_are_seen_in_full(content: Content, entries: Entries, key: Seq<char>)
    ensures
        match content {
            Content::Text(t) => content.entry() == Entry::Text(t@) && content.valid(),
            Content::Data(bytes) => content.entry() == Entry::Data(bytes@) && content.valid(),
            Content::Date(secs, nanos) => content.entry() matches Entry::Date(s, n) && {
                &&& 0 <= n < 1_000_000_000
                &&& s * 1_000_000_000 + n == secs * 1_000_000_000 + nanos
                &&& content.valid() <==> in_calendar(secs as int, nanos as int)
            },
        },
        text_at(entries, key) is Some <==> entries.contains_key(key) && entries[key] is Text,
        text_at(entries, key) matches Some(t) ==> entries[key] == Entry::Text(t),
        unsigned_at(entries, key) is Some <==> entries.contains_key(key) && entries[key] is Unsigned,
        unsigned_at(entries, key) matches Some(n) ==> entries[key] == Entry::Unsigned(n),
{
}

} // verus!
