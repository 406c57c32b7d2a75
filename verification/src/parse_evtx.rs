//! Logins read from event records.

use std::collections::hash_map::DefaultHasher;
use std::hash::{Hash, Hasher};
use vstd::prelude::*;
use vstd::std_specs::hash::DefaultHasherAdditionalSpecFns;
use vstd::string::StrSliceExecFns;

verus! {

#[verifier::external_type_specification]
#[verifier::external_body]
pub struct ExJsonValue(serde_json::Value);

/// The strings inside a JSON value, each under the path of object keys that
/// leads to it. A value that is a string itself holds it under the empty
/// path.
pub uninterp spec fn json_strings(value: serde_json::Value) -> Map<Seq<Seq<char>>, Seq<char>>;

/// The writes that the `Hash` impl of `str` makes to a hasher for a text.
pub uninterp spec fn str_hash_writes(text: Seq<char>) -> Seq<Seq<u8>>;

/// The entries of `strings` whose path starts with `key`, under the rest of
/// their path.
pub open spec fn strings_under(strings: Map<Seq<Seq<char>>, Seq<char>>, key: Seq<char>) -> Map<
    Seq<Seq<char>>,
    Seq<char>,
> {
    Map::new(
        |path: Seq<Seq<char>>| strings.contains_key(seq![key] + path),
        |path: Seq<Seq<char>>| strings[seq![key] + path],
    )
}

/// The string that `strings` holds under `path`, if it holds one.
pub open spec fn string_at(strings: Map<Seq<Seq<char>>, Seq<char>>, path: Seq<Seq<char>>) -> Option<
    Seq<char>,
> {
    if strings.contains_key(path) {
        Some(strings[path])
    } else {
        None
    }
}

/// The hash of a text: what a fresh `DefaultHasher` of std finishes with
/// after the text has been hashed into it.
pub open spec fn hash_of(text: Seq<char>) -> u64 {
    DefaultHasher::spec_finish(str_hash_writes(text))
}

/// An account whose name ends in a dollar sign stands for a machine.
pub open spec fn is_machine_account(user: Seq<char>) -> bool {
    user.len() > 0 && user.last() == '$'
}

/// A time of 64 bits with a sign, read as one without: a negative time
/// wraps around.
pub open spec fn unsigned_time(time: i64) -> u64 {
    if time >= 0 {
        time as u64
    } else {
        (time + 0x1_0000_0000_0000_0000) as u64
    }
}

/// A login event: who logged in, from where, and when, in seconds.
pub struct Login {
    pub workstation: String,
    pub user: String,
    pub time: i64,
}

/// What a login holds, with its texts as sequences of characters.
pub struct LoginView {
    pub workstation: Seq<char>,
    pub user: Seq<char>,
    pub time: i64,
}

impl View for Login {
    type V = LoginView;

    open spec fn view(&self) -> LoginView {
        LoginView { workstation: self.workstation@, user: self.user@, time: self.time }
    }
}

/// The login that a record with these fields stands for. A record without a
/// user name or without a workstation name is no login, and neither is one
/// of a machine account.
pub open spec fn login_from(
    user: Option<Seq<char>>,
    workstation: Option<Seq<char>>,
    time: i64,
) -> Option<LoginView> {
    if user is Some && workstation is Some && !is_machine_account(user->0) {
        Some(LoginView { workstation: workstation->0, user: user->0, time })
    } else {
        None
    }
}

/// The path of the user name in an event record.
pub open spec fn user_path() -> Seq<Seq<char>> {
    seq!["Event"@, "EventData"@, "TargetUserName"@]
}

/// The path of the workstation name in an event record.
pub open spec fn workstation_path() -> Seq<Seq<char>> {
    seq!["Event"@, "EventData"@, "WorkstationName"@]
}

/// `serde_json::Value`'s index by a string key. It gives the member of an
/// object under that key, and a null value where `value` is no object or has
/// no such member: so the strings inside the result are those that `value`
/// holds under paths that start with `key`.
#[verifier::external_body]
fn json_member<'a>(value: &'a serde_json::Value, key: &str) -> (member: &'a serde_json::Value)
    ensures
        json_strings(*member) == strings_under(json_strings(*value), key@),
{
    &value[key]
}

/// `serde_json::Value::as_str`. It gives the text of a value that is a
/// string, and `None` for any other value.
#[verifier::external_body]
fn json_text<'a>(value: &'a serde_json::Value) -> (text: Option<&'a str>)
    ensures
        text is Some <==> json_strings(*value).contains_key(Seq::empty()),
        text matches Some(t) ==> t@ == json_strings(*value)[Seq::empty()],
{
    value.as_str()
}

/// The `Hash` impl of `str`, `<str as Hash>::hash`. It feeds the hasher a
/// run of writes that depends on the text alone.
#[verifier::external_body]
fn hash_text(text: &str, state: &mut DefaultHasher)
    ensures
        final(state)@ == old(state)@ + str_hash_writes(text@),
{
    text.hash(state);
}

impl Login {
    /// The key and the time under which the login is scored: the hashes of
    /// the user and of the workstation, and the time without its sign.
    pub fn to_scoreable(&self) -> (scoreable: ((u64, u64), u64))
        ensures
            scoreable == ((hash_of(self.user@), hash_of(self.workstation@)), unsigned_time(self.time)),
    {
        let user = Login::my_hash(self.user.as_str());
        let workstation = Login::my_hash(self.workstation.as_str());
        ((user, workstation), unsigned(self.time))
    }

    /// The hash of a text.
    pub fn my_hash(obj: &str) -> (hash: u64)
        ensures
            hash == hash_of(obj@),
    {
        let mut hasher = DefaultHasher::new();
        hash_text(obj, &mut hasher);
        assert(hasher@ =~= str_hash_writes(obj@));
        hasher.finish()
    }

    /// The login that a record with these fields stands for, if it is one.
    pub fn from_fields(user: Option<&str>, workstation: Option<&str>, time: i64) -> (login: Option<
        Login,
    >)
        ensures
            login is Some <==> login_from(view_of(user), view_of(workstation), time) is Some,
            login matches Some(l) ==> Some(l@) == login_from(
                view_of(user),
                view_of(workstation),
                time,
            ),
    {
        match user {
            Some(user) => {
                if ends_with_dollar(user) {
                    return None;
                }
                match workstation {
                    Some(workstation) => Some(
                        Login { workstation: workstation.to_owned(), user: user.to_owned(), time },
                    ),
                    None => None,
                }
            },
            None => None,
        }
    }
}

/// The text of an optional string.
pub open spec fn view_of(text: Option<&str>) -> Option<Seq<char>> {
    match text {
        Some(t) => Some(t@),
        None => None,
    }
}

/// Whether the text ends in a dollar sign.
fn ends_with_dollar(text: &str) -> (ends: bool)
    ensures
        ends == is_machine_account(text@),
{
    let len = text.unicode_len();
    len > 0 && text.get_char(len - 1) == '$'
}

/// Reads a time with a sign as one without.
fn unsigned(time: i64) -> (stamp: u64)
    ensures
        stamp == unsigned_time(time),
{
    if time >= 0 {
        time as u64
    } else {
        let below: u64 = (-(time + 1)) as u64;
        u64::MAX - below
    }
}

/// The login in the data of an event record stamped `time`, if the record
/// is one: it is, where the data names a user that is no machine account
/// and a workstation.
pub fn rec_to_login(data: &serde_json::Value, time: i64) -> (login: Option<Login>)
    ensures
        login is Some <==> login_from(
            string_at(json_strings(*data), user_path()),
            string_at(json_strings(*data), workstation_path()),
            time,
        ) is Some,
        login matches Some(l) ==> Some(l@) == login_from(
            string_at(json_strings(*data), user_path()),
            string_at(json_strings(*data), workstation_path()),
            time,
        ),
{
    let fields = json_member(json_member(data, "Event"), "EventData");
    let user = json_text(json_member(fields, "TargetUserName"));
    let workstation = json_text(json_member(fields, "WorkstationName"));
    proof {
        lemma_member_strings(json_strings(*data), "Event"@, "EventData"@, "TargetUserName"@);
        lemma_member_strings(json_strings(*data), "Event"@, "EventData"@, "WorkstationName"@);
    }
    Login::from_fields(user, workstation, time)
}

/// The string under the empty path, three members down, is the string under
/// the path of the three keys.
proof fn lemma_member_strings(
    strings: Map<Seq<Seq<char>>, Seq<char>>,
    first: Seq<char>,
    second: Seq<char>,
    third: Seq<char>,
)
    ensures
        string_at(
            strings_under(strings_under(strings_under(strings, first), second), third),
            Seq::empty(),
        ) == string_at(strings, seq![first, second, third]),
{
    let empty = Seq::<Seq<char>>::empty();
    assert(seq![third] + empty =~= seq![third]);
    assert(seq![second] + seq![third] =~= seq![second, third]);
    assert(seq![first] + seq![second, third] =~= seq![first, second, third]);
}

/// The whole minutes from `start` to `time`, both in seconds.
pub fn minutes_since(time: u64, start: u64) -> (minutes: u64)
    requires
        start <= time,
    ensures
        minutes == (time - start) / 60,
{
    (time - start) / 60
}

} // verus!
