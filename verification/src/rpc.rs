//! What is said to the node: where it is reached and with which
//! credentials, and how a command line becomes the method and the
//! parameters of a request.

use crate::text::{chars_of, decimal, decimal_digits, split, split_spec, string_of, views};
use vstd::prelude::*;

verus! {

/// `serde_json::Value`, a JSON value: carried through as it is, nothing is
/// known of what it holds but what the functions below say.
#[verifier::external_type_specification]
#[verifier::external_body]
pub struct ExJsonValue(serde_json::Value);

/// `serde_json::Error`, the error of a failed reading: only that there is
/// one is ever used.
#[verifier::external_type_specification]
#[verifier::external_body]
pub struct ExJsonError(serde_json::Error);

/// The address of the node and the credentials to present to it.
#[derive(Debug, Clone)]
pub struct AuthToken {
    user: String,
    password: String,
    url: String,
}

/// The address under which the node, or one wallet of it, is reached.
pub open spec fn url_spec(ip: Seq<char>, port: u16, walletname: Seq<char>) -> Seq<char> {
    let host = "http://"@ + ip + ":"@ + decimal_digits(port as nat);
    if walletname.len() == 0 {
        host + "/"@
    } else {
        host + "/wallet/"@ + walletname
    }
}

impl AuthToken {
    /// The user name.
    pub closed spec fn user_text(self) -> Seq<char> {
        self.user@
    }

    /// The password.
    pub closed spec fn password_text(self) -> Seq<char> {
        self.password@
    }

    /// The address of the node.
    pub closed spec fn url_text(self) -> Seq<char> {
        self.url@
    }

    /// A token with no address and no credentials.
    pub fn new() -> (res: Self)
        ensures
            res.user_text() == Seq::<char>::empty(),
            res.password_text() == Seq::<char>::empty(),
            res.url_text() == Seq::<char>::empty(),
    {
        Self { user: String::new(), password: String::new(), url: String::new() }
    }

    /// Sets the address: the node at `ip` and `port`, and the wallet
    /// `walletname` of it unless the name is empty.
    pub fn target(self, ip: &str, port: u16, walletname: &str) -> (res: Self)
        ensures
            res.url_text() == url_spec(ip@, port, walletname@),
            res.user_text() == self.user_text(),
            res.password_text() == self.password_text(),
    {
        let mut url = "http://".to_owned();
        url.append(ip);
        url.append(":");
        url.append(string_of(&decimal(port as u64)).as_str());
        if walletname.unicode_len() == 0 {
            url.append("/");
        } else {
            url.append("/wallet/");
            url.append(walletname);
        }
        Self { user: self.user, password: self.password, url }
    }

    /// Sets the credentials.
    pub fn credentials(self, user: &str, password: &str) -> (res: Self)
        ensures
            res.user_text() == user@,
            res.password_text() == password@,
            res.url_text() == self.url_text(),
    {
        Self { user: user.to_owned(), password: password.to_owned(), url: self.url }
    }

    /// The user name.
    pub fn user(&self) -> (res: &str)
        ensures
            res@ == self.user_text(),
    {
        self.user.as_str()
    }

    /// The password.
    pub fn password(&self) -> (res: &str)
        ensures
            res@ == self.password_text(),
    {
        self.password.as_str()
    }

    /// The address of the node.
    pub fn url(&self) -> (res: &str)
        ensures
            res@ == self.url_text(),
    {
        self.url.as_str()
    }
}

impl Default for AuthToken {
    fn default() -> (res: Self)
        ensures
            res.user_text() == Seq::<char>::empty(),
            res.password_text() == Seq::<char>::empty(),
            res.url_text() == Seq::<char>::empty(),
    {
        AuthToken::new()
    }
}

/// The JSON value that a text is read as, where it is JSON.
pub uninterp spec fn json_parse(text: Seq<char>) -> Option<serde_json::Value>;

/// The JSON string that holds a text.
pub uninterp spec fn json_string(text: Seq<char>) -> serde_json::Value;

/// `serde_json::from_str`, reading a `Value`: succeeds on the texts that are
/// JSON, and what it reads depends on the text alone.
#[verifier::external_body]
fn read_json(entry: &str) -> (res: Result<serde_json::Value, serde_json::Error>)
    ensures
        res is Ok <==> json_parse(entry@) is Some,
        res matches Ok(value) ==> json_parse(entry@) == Some(value),
{
    serde_json::from_str::<serde_json::Value>(entry)
}

/// `serde_json::Value::String`: the JSON string that holds the text as it is.
#[verifier::external_body]
fn string_value(entry: &str) -> (res: serde_json::Value)
    ensures
        res == json_string(entry@),
{
    serde_json::Value::String(entry.to_owned())
}

/// The parameter that an entry of a command line stands for: the value it
/// reads as where it is JSON, and otherwise the entry itself as a string.
pub open spec fn param_spec(entry: Seq<char>) -> serde_json::Value {
    match json_parse(entry) {
        Some(value) => value,
        None => json_string(entry),
    }
}

/// The parameters that a command line stands for: one for each of the
/// entries that single spaces part it into.
pub open spec fn params_spec(args: Seq<char>) -> Seq<serde_json::Value> {
    let entries = split_spec(args, seq![' ']);
    Seq::new(entries.len(), |i: int| param_spec(entries[i]))
}

/// Turns one entry of a command line into a parameter.
pub fn param(entry: &str) -> (res: serde_json::Value)
    ensures
        res == param_spec(entry@),
{
    match read_json(entry) {
        Ok(value) => value,
        Err(_) => string_value(entry),
    }
}

/// Turns a command line into parameters.
pub fn parametrize(args: &str) -> (res: Vec<serde_json::Value>)
    ensures
        res@ == params_spec(args@),
        res.len() >= 1,
{
    let text = chars_of(args);
    let mut sep: Vec<char> = Vec::new();
    sep.push(' ');
    assert(sep@ =~= seq![' ']);
    let entries = split(&text, &sep);
    let ghost fields = split_spec(args@, seq![' ']);
    assert(views(entries@) == fields);
    let mut params: Vec<serde_json::Value> = Vec::new();
    let mut i: usize = 0;
    while i < entries.len()
        invariant
            i <= entries.len(),
            views(entries@) == fields,
            params.len() == i,
            forall|j: int| 0 <= j < i ==> params@[j] == param_spec(fields[j]),
        decreases entries.len() - i,
    {
        assert(views(entries@)[i as int] == entries[i as int]@);
        let entry = string_of(&entries[i]);
        params.push(param(entry.as_str()));
        i += 1;
    }
    assert(params@ =~= params_spec(args@));
    params
}

/// A request to the node: the method to call and the parameters to call it
/// with.
#[derive(Debug)]
pub struct Post {
    pub method: serde_json::Value,
    pub params: Vec<serde_json::Value>,
}

/// Makes the request that a command line stands for: its first entry is the
/// method, the entries after it are the parameters.
pub fn call(args: &str) -> (res: Post)
    ensures
        res.method == params_spec(args@)[0],
        res.params@ == params_spec(args@).skip(1),
{
    let mut params = parametrize(args);
    let method = params.remove(0);
    assert(params@ =~= params_spec(args@).skip(1));
    Post { method, params }
}

/// The node's answer to a request.
#[derive(Debug)]
pub struct RPCResponse {
    pub result: serde_json::Value,
    pub error: Option<String>,
    pub id: String,
}

/// The node answered a request with an error.
#[derive(Debug, Clone, PartialEq, Eq)]
pub struct RpcError {
    pub message: String,
}

impl RPCResponse {
    /// The result of the answer, or the error that the node gave in its place.
    pub fn unpack(self) -> (res: Result<serde_json::Value, RpcError>)
        ensures
            match self.error {
                Some(message) => res == Err::<serde_json::Value, RpcError>(RpcError { message }),
                None => res == Ok::<serde_json::Value, RpcError>(self.result),
            },
    {
        match self.error {
            Some(message) => Err(RpcError { message }),
            None => Ok(self.result),
        }
    }
}

// ---------------------------------------------------------------------------
// Reading the node's answers
// ---------------------------------------------------------------------------

/// The number that a JSON value holds, where it is a whole number that fits
/// in 64 bits.
pub uninterp spec fn json_u64(value: serde_json::Value) -> Option<u64>;

/// The text that a JSON value holds, where it is a string.
pub uninterp spec fn json_text(value: serde_json::Value) -> Option<Seq<char>>;

/// The member of a JSON value under a key, where the value is an object
/// that has the key.
pub uninterp spec fn json_member(value: serde_json::Value, key: Seq<char>) -> Option<
    serde_json::Value,
>;

/// The members of a JSON value, where it is an object: each key with its
/// value, in the order in which the object gives them.
pub uninterp spec fn json_members(value: serde_json::Value) -> Option<
    Seq<(Seq<char>, serde_json::Value)>,
>;

/// A JSON value written out as JSON text.
pub uninterp spec fn json_written(value: serde_json::Value) -> Seq<char>;

/// The keys and values of a list of members.
pub open spec fn member_views(members: Seq<(String, serde_json::Value)>) -> Seq<
    (Seq<char>, serde_json::Value),
> {
    Seq::new(members.len(), |i: int| (members[i].0@, members[i].1))
}

/// The members of a JSON value, where it is an object: each key with the
/// JSON text of its value, in the order in which the object gives them.
pub open spec fn json_entries(value: serde_json::Value) -> Option<Seq<(Seq<char>, Seq<char>)>> {
    match json_members(value) {
        Some(members) => Some(
            Seq::new(members.len(), |i: int| (members[i].0, json_written(members[i].1))),
        ),
        None => None,
    }
}

/// The texts of a list of entries.
pub open spec fn entry_texts(entries: Seq<(String, String)>) -> Seq<(Seq<char>, Seq<char>)> {
    Seq::new(entries.len(), |i: int| (entries[i].0@, entries[i].1@))
}

/// `serde_json::from_value`, reading a `u64`: whether it succeeds, and the
/// number it gives, depend on the value alone.
#[verifier::external_body]
pub(crate) fn number_of(value: serde_json::Value) -> (res: Result<u64, serde_json::Error>)
    ensures
        res is Ok <==> json_u64(value) is Some,
        res matches Ok(number) ==> json_u64(value) == Some(number),
{
    serde_json::from_value::<u64>(value)
}

/// `serde_json::from_value`, reading a `String`: whether it succeeds, and
/// the text it gives, depend on the value alone.
#[verifier::external_body]
pub(crate) fn text_of(value: serde_json::Value) -> (res: Result<String, serde_json::Error>)
    ensures
        res is Ok <==> json_text(value) is Some,
        res matches Ok(text) ==> json_text(value) == Some(text@),
{
    serde_json::from_value::<String>(value)
}

/// `serde_json::Value::get` with a string key, handing out a copy of the
/// member: whether there is one, and which, depend on the value and the key
/// alone.
#[verifier::external_body]
pub(crate) fn member_of(value: &serde_json::Value, key: &str) -> (res: Option<serde_json::Value>)
    ensures
        res == json_member(*value, key@),
{
    value.get(key).cloned()
}

/// `serde_json::from_value`, reading a `serde_json::Map`, whose members are
/// handed out as they come: whether it succeeds, and the members it gives,
/// depend on the value alone.
#[verifier::external_body]
pub(crate) fn members_of(value: serde_json::Value) -> (res: Result<
    Vec<(String, serde_json::Value)>,
    serde_json::Error,
>)
    ensures
        res is Ok <==> json_members(value) is Some,
        res matches Ok(members) ==> json_members(value) == Some(member_views(members@)),
{
    let map = serde_json::from_value::<serde_json::Map<String, serde_json::Value>>(value)?;
    Ok(map.into_iter().collect())
}

/// `to_string` of a `serde_json::Value`, which writes the value as JSON
/// text: the text depends on the value alone.
#[verifier::external_body]
pub(crate) fn written(value: &serde_json::Value) -> (res: String)
    ensures
        res@ == json_written(*value),
{
    value.to_string()
}

/// Reads the members of an object, each key with the JSON text of its value.
pub(crate) fn entries_of(value: serde_json::Value) -> (res: Result<
    Vec<(String, String)>,
    serde_json::Error,
>)
    ensures
        res is Ok <==> json_entries(value) is Some,
        res matches Ok(entries) ==> json_entries(value) == Some(entry_texts(entries@)),
{
    match members_of(value) {
        Err(e) => Err(e),
        Ok(members) => {
            let ghost expected = json_entries(value)->0;
            let mut entries: Vec<(String, String)> = Vec::new();
            let mut i: usize = 0;
            while i < members.len()
                invariant
                    i <= members.len(),
                    entries.len() == i,
                    json_members(value) == Some(member_views(members@)),
                    expected == json_entries(value)->0,
                    forall|j: int| 0 <= j < i ==> entry_texts(entries@)[j] == expected[j],
                decreases members.len() - i,
            {
                let key = members[i].0.clone();
                let text = written(&members[i].1);
                assert(member_views(members@)[i as int] == (members@[i as int].0@, members@[i as int].1));
                let ghost before = entries@;
                entries.push((key, text));
                assert forall|j: int| 0 <= j < i + 1 implies entry_texts(entries@)[j]
                    == expected[j] by {
                    if j < i {
                        assert(entries@[j] == before[j]);
                        assert(entry_texts(before)[j] == expected[j]);
                    }
                }
                i += 1;
            }
            assert(entry_texts(entries@) =~= expected);
            Ok(entries)
        },
    }
}

} // verus!
