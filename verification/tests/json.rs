use users_api::decimal::{signed_decimal, unsigned_decimal};
use users_api::json::{json_array, user_json, user_object, users_json};
use users_api::models::User;

fn user(id: i32, username: &str, email: &str, full_name: &str) -> User {
    User {
        id,
        username: String::from(username),
        email: String::from(email),
        full_name: String::from(full_name),
        created_at: None,
        updated_at: None,
    }
}

fn expected_value(user: &User) -> serde_json::Value {
    let time = |value: &Option<String>| match value {
        Some(text) => serde_json::Value::from(text.as_str()),
        None => serde_json::Value::Null,
    };
    let mut object = serde_json::Map::new();
    object.insert(String::from("id"), serde_json::Value::from(user.id));
    object.insert(String::from("username"), serde_json::Value::from(user.username.as_str()));
    object.insert(String::from("email"), serde_json::Value::from(user.email.as_str()));
    object.insert(String::from("full_name"), serde_json::Value::from(user.full_name.as_str()));
    object.insert(String::from("created_at"), time(&user.created_at));
    object.insert(String::from("updated_at"), time(&user.updated_at));
    serde_json::Value::Object(object)
}

#[test]
fn unsigned_decimal_of_small_and_large_numbers() {
    assert_eq!(unsigned_decimal(0), "0");
    assert_eq!(unsigned_decimal(7), "7");
    assert_eq!(unsigned_decimal(10), "10");
    assert_eq!(unsigned_decimal(1433), "1433");
    assert_eq!(unsigned_decimal(65535), "65535");
    assert_eq!(unsigned_decimal(1_000_000), "1000000");
    assert_eq!(unsigned_decimal(u32::MAX), "4294967295");
}

#[test]
fn signed_decimal_of_both_signs_and_the_ends() {
    assert_eq!(signed_decimal(0), "0");
    assert_eq!(signed_decimal(1), "1");
    assert_eq!(signed_decimal(-1), "-1");
    assert_eq!(signed_decimal(-10), "-10");
    assert_eq!(signed_decimal(12345), "12345");
    assert_eq!(signed_decimal(i32::MAX), "2147483647");
    assert_eq!(signed_decimal(i32::MIN), "-2147483648");
}

#[test]
fn signed_decimal_is_what_serde_json_writes() {
    let mut n: i32 = i32::MIN;
    loop {
        assert_eq!(signed_decimal(n), serde_json::to_string(&n).unwrap());
        match n.checked_add(7_654_321) {
            Some(next) => n = next,
            None => break,
        }
    }
    for n in -1000..1000 {
        assert_eq!(signed_decimal(n), serde_json::to_string(&n).unwrap());
    }
}

#[test]
fn user_json_of_a_plain_record() {
    let john = user(1, "john_doe", "john@example.com", "John Doe");
    assert_eq!(
        user_json(&john),
        "{\"id\":1,\"username\":\"john_doe\",\"email\":\"john@example.com\",\
         \"full_name\":\"John Doe\",\"created_at\":null,\"updated_at\":null}"
    );
}

#[test]
fn user_json_with_times() {
    let mut john = user(-5, "j", "e", "f");
    john.created_at = Some(String::from("2025-10-26T10:30:00"));
    john.updated_at = Some(String::from("2025-10-27T08:00:00"));
    assert_eq!(
        user_json(&john),
        "{\"id\":-5,\"username\":\"j\",\"email\":\"e\",\"full_name\":\"f\",\
         \"created_at\":\"2025-10-26T10:30:00\",\"updated_at\":\"2025-10-27T08:00:00\"}"
    );
}

#[test]
fn user_json_quotes_and_escapes_strings() {
    let odd = user(3, "", "say \"hi\"", "back\\slash\r\n\u{8}\u{c}\u{1f}\u{7f}/ü漢");
    assert_eq!(
        user_json(&odd),
        "{\"id\":3,\"username\":\"\",\"email\":\"say \\\"hi\\\"\",\
         \"full_name\":\"back\\\\slash\\r\\n\\b\\f\\u001f\u{7f}/ü漢\",\
         \"created_at\":null,\"updated_at\":null}"
    );
}

#[test]
fn user_json_reads_back_as_the_record() {
    let mut odd = user(i32::MIN, "a\"b", "c\\d", "e\nf\u{0}");
    odd.created_at = Some(String::from("\t"));
    let text = user_json(&odd);
    let value: serde_json::Value = serde_json::from_str(&text).unwrap();
    assert_eq!(value, expected_value(&odd));
}

#[test]
fn users_json_of_none_one_and_more() {
    assert_eq!(users_json(&Vec::new()), "[]");
    let a = user(1, "a", "a@x", "A");
    let b = user(2, "b", "b@x", "B");
    let c = user(3, "c", "c@x", "C");
    assert_eq!(users_json(&vec![a.clone()]), format!("[{}]", user_json(&a)));
    assert_eq!(
        users_json(&vec![a.clone(), b.clone()]),
        format!("[{},{}]", user_json(&a), user_json(&b))
    );
    assert_eq!(
        users_json(&vec![c.clone(), a.clone(), b.clone()]),
        format!("[{},{},{}]", user_json(&c), user_json(&a), user_json(&b))
    );
}

#[test]
fn users_json_reads_back_as_the_records() {
    let users = vec![user(1, "a", "a@x", "A"), user(2, "b\"", "b@x", "B\\")];
    let value: serde_json::Value = serde_json::from_str(&users_json(&users)).unwrap();
    assert_eq!(
        value,
        serde_json::Value::Array(users.iter().map(expected_value).collect())
    );
}

#[test]
fn user_object_puts_the_values_in_their_places() {
    assert_eq!(
        user_object(42, "\"u\"", "\"e\"", "\"f\"", &None, &None),
        "{\"id\":42,\"username\":\"u\",\"email\":\"e\",\"full_name\":\"f\",\
         \"created_at\":null,\"updated_at\":null}"
    );
    assert_eq!(
        user_object(-1, "A", "B", "C", &Some(String::from("D")), &Some(String::from("E"))),
        "{\"id\":-1,\"username\":A,\"email\":B,\"full_name\":C,\"created_at\":D,\"updated_at\":E}"
    );
    assert_eq!(
        user_object(0, "", "", "", &Some(String::new()), &None),
        "{\"id\":0,\"username\":,\"email\":,\"full_name\":,\"created_at\":,\"updated_at\":null}"
    );
}

#[test]
fn json_array_brackets_and_commas() {
    let items = |texts: &[&str]| texts.iter().map(|t| String::from(*t)).collect::<Vec<String>>();
    assert_eq!(json_array(&items(&[])), "[]");
    assert_eq!(json_array(&items(&["1"])), "[1]");
    assert_eq!(json_array(&items(&["1", "2"])), "[1,2]");
    assert_eq!(json_array(&items(&["{}", "null", "\"x\"", "[]"])), "[{},null,\"x\",[]]");
    assert_eq!(json_array(&items(&["", ""])), "[,]");
}
