use crate::error::AppError;
use vstd::prelude::*;
use vstd::string::StringSliceAdditionalSpecFns;

verus! {

/// How many documents the service keeps.
pub const DATA_KEY_COUNT: usize = 7;

/// The names of the documents the service keeps. Nothing else is a key.
pub const DATA_KEYS: [&'static str; 7] = [
    "activities",
    "activity_metric_insights",
    "meal_plans",
    "custom_foods",
    "workouts",
    "events",
    "profile",
];

/// The namespace as a sequence of names, in the order of `DATA_KEYS`.
pub open spec fn key_names() -> Seq<Seq<char>> {
    seq![
        "activities"@,
        "activity_metric_insights"@,
        "meal_plans"@,
        "custom_foods"@,
        "workouts"@,
        "events"@,
        "profile"@,
    ]
}

/// Whether `name` is one of the documents the service keeps.
pub open spec fn is_data_key(name: Seq<char>) -> bool {
    exists|i: int| 0 <= i < key_names().len() && key_names()[i] == name
}

/// The document a key holds before anything was written to it: an empty
/// object for the profile, an empty array for every list.
pub open spec fn default_text(name: Seq<char>) -> Seq<char> {
    if name == "profile"@ {
        "{}"@
    } else {
        "[]"@
    }
}

/// No name occurs twice in the namespace, so a name is the identity of its
/// document.
pub proof fn key_names_distinct()
    ensures
        key_names().len() == DATA_KEY_COUNT,
        key_names().no_duplicates(),
{
    reveal_strlit("activities");
    reveal_strlit("activity_metric_insights");
    reveal_strlit("meal_plans");
    reveal_strlit("custom_foods");
    reveal_strlit("workouts");
    reveal_strlit("events");
    reveal_strlit("profile");
    let names = key_names();
    assert(names[0].len() == 10 && names[0][0] == 'a');
    assert(names[1].len() == 24);
    assert(names[2].len() == 10 && names[2][0] == 'm');
    assert(names[3].len() == 12);
    assert(names[4].len() == 8);
    assert(names[5].len() == 6);
    assert(names[6].len() == 7);
    assert forall|i: int, j: int| 0 <= i < names.len() && 0 <= j < names.len() && i != j implies names[i]
        != names[j] by {
        assert(names[i].len() != names[j].len() || names[i][0] != names[j][0]);
    }
}

/// Two strings with the same UTF-8 bytes are the same string.
proof fn lemma_bytes_fix_text(a: Seq<char>, b: Seq<char>)
    requires
        vstd::utf8::encode_utf8(a) == vstd::utf8::encode_utf8(b),
    ensures
        a == b,
{
    vstd::utf8::encode_utf8_decode_utf8(a);
    vstd::utf8::encode_utf8_decode_utf8(b);
}

/// Compares two strings byte by byte.
pub fn same_text(a: &str, b: &str) -> (same: bool)
    ensures
        same == (a@ == b@),
{
    let x = a.as_bytes();
    let y = b.as_bytes();
    if x.len() != y.len() {
        return false;
    }
    let mut i: usize = 0;
    while i < x.len()
        invariant
            x.len() == y.len(),
            i <= x.len(),
            x@ == a.spec_bytes(),
            y@ == b.spec_bytes(),
            forall|j: int| 0 <= j < i ==> x@[j] == y@[j],
        decreases x.len() - i,
    {
        if x[i] != y[i] {
            return false;
        }
        i += 1;
    }
    proof {
        assert(x@ =~= y@);
        lemma_bytes_fix_text(a@, b@);
    }
    true
}

/// The `i`-th key of the namespace.
pub(crate) fn key_at(i: usize) -> (name: &'static str)
    requires
        i < DATA_KEY_COUNT,
    ensures
        name@ == key_names()[i as int],
{
    DATA_KEYS[i]
}

/// Accepts the keys of the namespace and rejects every other name.
pub fn validate_key(key: &str) -> (r: Result<(), AppError>)
    ensures
        is_data_key(key@) ==> r is Ok,
        !is_data_key(key@) ==> r == Err::<(), AppError>(AppError::UnknownKey),
{
    let mut i: usize = 0;
    while i < DATA_KEY_COUNT
        invariant
            i <= DATA_KEY_COUNT,
            forall|j: int| 0 <= j < i ==> key_names()[j] != key@,
        decreases DATA_KEY_COUNT - i,
    {
        if same_text(key_at(i), key) {
            return Ok(());
        }
        i += 1;
    }
    Err(AppError::UnknownKey)
}

/// The document served for a key that has no row yet.
pub fn default_json(key: &str) -> (text: &'static str)
    ensures
        text@ == default_text(key@),
{
    if same_text(key, "profile") {
        "{}"
    } else {
        "[]"
    }
}

} // verus!
