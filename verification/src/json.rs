//! The JSON text of the records that the service returns.
//!
//! Numbers and the punctuation of objects and arrays are written here;
//! the quoting of strings is `serde_json`'s.

use vstd::prelude::*;
use vstd::string::*;
use crate::decimal::{decimal, signed_decimal};
use crate::models::{User, UserView};

verus! {

/// The JSON string literal that `serde_json` writes for the text `s`:
/// `s` between double quotes, with the characters that JSON does not
/// allow bare written as escapes.
pub uninterp spec fn json_string(s: Seq<char>) -> Seq<char>;

/// A JSON value that may be missing: the value, or `null`.
pub open spec fn value_or_null(value: Option<Seq<char>>) -> Seq<char> {
    match value {
        Some(text) => text,
        None => "null"@,
    }
}

/// The JSON object of a record whose `id` is given as a number and whose
/// other fields are given as JSON values: the six fields in the order of
/// their declaration, with no white space.
pub open spec fn object_text(
    id: int,
    username: Seq<char>,
    email: Seq<char>,
    full_name: Seq<char>,
    created_at: Option<Seq<char>>,
    updated_at: Option<Seq<char>>,
) -> Seq<char> {
    "{\"id\":"@ + decimal(id) + ",\"username\":"@ + username + ",\"email\":"@ + email
        + ",\"full_name\":"@ + full_name + ",\"created_at\":"@ + value_or_null(created_at)
        + ",\"updated_at\":"@ + value_or_null(updated_at) + "}"@
}

/// The given texts in order, with a comma between neighbours.
pub open spec fn joined_text(items: Seq<Seq<char>>) -> Seq<char>
    decreases items.len(),
{
    if items.len() == 0 {
        Seq::empty()
    } else if items.len() == 1 {
        items[0]
    } else {
        joined_text(items.drop_last()) + ","@ + items.last()
    }
}

/// The JSON array of the given JSON values: the values in order between
/// square brackets, `[]` for none.
pub open spec fn array_text(items: Seq<Seq<char>>) -> Seq<char> {
    "["@ + joined_text(items) + "]"@
}

/// The JSON string literal of a text that may be missing.
pub open spec fn optional_string(value: Option<Seq<char>>) -> Option<Seq<char>> {
    match value {
        Some(s) => Some(json_string(s)),
        None => None,
    }
}

/// The JSON object of one record.
pub open spec fn user_text(user: UserView) -> Seq<char> {
    object_text(
        user.id,
        json_string(user.username),
        json_string(user.email),
        json_string(user.full_name),
        optional_string(user.created_at),
        optional_string(user.updated_at),
    )
}

/// The JSON array of the given records, in order.
pub open spec fn users_text(users: Seq<UserView>) -> Seq<char> {
    array_text(users.map_values(|user: UserView| user_text(user)))
}

/// Calls `serde_json::to_string` on a string slice. The result is the JSON
/// string literal of `s`. Writing a string into memory cannot fail, so the
/// call always returns a text.
#[verifier::external_body]
fn quoted(s: &str) -> (r: String)
    ensures
        r@ == json_string(s@),
{
    serde_json::to_string(s).unwrap_or_default()
}

/// Writes the JSON string literal of a text that may be missing.
fn quoted_option(value: &Option<String>) -> (r: Option<String>)
    ensures
        r.deep_view() == optional_string(value.deep_view()),
{
    match value {
        Some(s) => Some(quoted(s.as_str())),
        None => None,
    }
}

/// Appends a JSON value that may be missing, `null` in its place.
fn append_or_null(text: &mut String, value: &Option<String>)
    ensures
        final(text)@ == old(text)@ + value_or_null(value.deep_view()),
{
    match value {
        Some(s) => text.append(s.as_str()),
        None => text.append("null"),
    }
}

/// Writes the JSON object of a record from its `id` and the JSON values of
/// its other fields; a time that is `None` is written as `null`.
pub fn user_object(
    id: i32,
    username: &str,
    email: &str,
    full_name: &str,
    created_at: &Option<String>,
    updated_at: &Option<String>,
) -> (r: String)
    ensures
        r@ == object_text(
            id as int,
            username@,
            email@,
            full_name@,
            created_at.deep_view(),
            updated_at.deep_view(),
        ),
{
    let mut text = String::from_str("{\"id\":");
    text.append(signed_decimal(id).as_str());
    text.append(",\"username\":");
    text.append(username);
    text.append(",\"email\":");
    text.append(email);
    text.append(",\"full_name\":");
    text.append(full_name);
    text.append(",\"created_at\":");
    append_or_null(&mut text, created_at);
    text.append(",\"updated_at\":");
    append_or_null(&mut text, updated_at);
    text.append("}");
    text
}

/// Writes the JSON array of the given JSON values.
pub fn json_array(items: &Vec<String>) -> (r: String)
    ensures
        r@ == array_text(items.deep_view()),
{
    let ghost all = items.deep_view();
    let mut text = String::from_str("[");
    let mut i: usize = 0;
    while i < items.len()
        invariant
            i <= items.len(),
            all == items.deep_view(),
            text@ == "["@ + joined_text(all.take(i as int)),
        decreases items.len() - i,
    {
        if i > 0 {
            text.append(",");
        }
        text.append(items[i].as_str());
        proof {
            assert(all.take(i + 1).drop_last() =~= all.take(i as int));
        }
        i = i + 1;
    }
    text.append("]");
    proof {
        assert(all.take(items.len() as int) =~= all);
    }
    text
}

/// Writes the JSON object of one record.
pub fn user_json(user: &User) -> (r: String)
    ensures
        r@ == user_text(user@),
{
    let username = quoted(user.username.as_str());
    let email = quoted(user.email.as_str());
    let full_name = quoted(user.full_name.as_str());
    let created_at = quoted_option(&user.created_at);
    let updated_at = quoted_option(&user.updated_at);
    user_object(
        user.id,
        username.as_str(),
        email.as_str(),
        full_name.as_str(),
        &created_at,
        &updated_at,
    )
}

/// Writes the JSON array of the given records, in order.
pub fn users_json(users: &Vec<User>) -> (r: String)
    ensures
        r@ == users_text(users.deep_view()),
{
    let ghost object = |user: UserView| user_text(user);
    let mut objects: Vec<String> = Vec::new();
    let mut i: usize = 0;
    while i < users.len()
        invariant
            i <= users.len(),
            object == |user: UserView| user_text(user),
            objects.deep_view() == users.deep_view().take(i as int).map_values(object),
        decreases users.len() - i,
    {
        let ghost before = objects.deep_view();
        let text = user_json(&users[i]);
        objects.push(text);
        proof {
            assert(objects.deep_view() =~= before.push(text@));
            assert(users.deep_view().take(i + 1) =~= users.deep_view().take(i as int).push(
                users[i as int]@,
            ));
        }
        i = i + 1;
    }
    proof {
        assert(users.deep_view().take(users.len() as int) =~= users.deep_view());
    }
    json_array(&objects)
}

} // verus!
