use users_api::models::User;
use users_api::store::{user_from_row, users_from_rows, Cell, Column, Row};

fn column(name: &str, value: Cell) -> Column {
    Column { name: String::from(name), value }
}

fn text(value: &str) -> Cell {
    Cell::Text(String::from(value))
}

fn user(id: i32, username: &str, email: &str, full_name: &str) -> User {
    User {
        id,
        username: String::from(username),
        email: String::from(email),
        full_name: String::from(full_name),
        created_at: None,
        updated_at: None,
    }
}

#[test]
fn cell_finds_the_first_column_of_a_name() {
    let row = Row {
        columns: vec![
            column("a", Cell::Int(1)),
            column("b", text("x")),
            column("a", Cell::Int(2)),
            column("c", Cell::Null),
        ],
    };
    assert_eq!(row.cell("a"), Some(&Cell::Int(1)));
    assert_eq!(row.cell("b"), Some(&text("x")));
    assert_eq!(row.cell("c"), Some(&Cell::Null));
    assert_eq!(row.cell("d"), None);
    assert_eq!(row.cell(""), None);
}

#[test]
fn cell_takes_names_letter_for_letter() {
    let row = Row { columns: vec![column("Id", Cell::Int(1)), column("id ", Cell::Int(2))] };
    assert_eq!(row.cell("id"), None);
    assert_eq!(row.cell("ID"), None);
    assert_eq!(row.cell("Id"), Some(&Cell::Int(1)));
    assert_eq!(row.cell("id "), Some(&Cell::Int(2)));
}

#[test]
fn cell_of_a_row_without_columns() {
    let row = Row { columns: vec![] };
    assert_eq!(row.cell("id"), None);
    assert_eq!(row.int_or_zero("id"), 0);
    assert_eq!(row.text_or_empty("username"), "");
}

#[test]
fn int_or_zero_reads_integers_only() {
    let row = Row {
        columns: vec![
            column("n", Cell::Int(-42)),
            column("t", text("42")),
            column("z", Cell::Null),
            column("o", Cell::Other),
            column("min", Cell::Int(i32::MIN)),
            column("max", Cell::Int(i32::MAX)),
        ],
    };
    assert_eq!(row.int_or_zero("n"), -42);
    assert_eq!(row.int_or_zero("t"), 0);
    assert_eq!(row.int_or_zero("z"), 0);
    assert_eq!(row.int_or_zero("o"), 0);
    assert_eq!(row.int_or_zero("missing"), 0);
    assert_eq!(row.int_or_zero("min"), i32::MIN);
    assert_eq!(row.int_or_zero("max"), i32::MAX);
}

#[test]
fn text_or_empty_reads_texts_only() {
    let row = Row {
        columns: vec![
            column("t", text("hello")),
            column("n", Cell::Int(5)),
            column("z", Cell::Null),
            column("o", Cell::Other),
            column("e", text("")),
        ],
    };
    assert_eq!(row.text_or_empty("t"), "hello");
    assert_eq!(row.text_or_empty("n"), "");
    assert_eq!(row.text_or_empty("z"), "");
    assert_eq!(row.text_or_empty("o"), "");
    assert_eq!(row.text_or_empty("e"), "");
    assert_eq!(row.text_or_empty("missing"), "");
}

#[test]
fn user_from_a_full_row() {
    let row = Row {
        columns: vec![
            column("id", Cell::Int(1)),
            column("username", text("john_doe")),
            column("email", text("john@example.com")),
            column("full_name", text("John Doe")),
        ],
    };
    assert_eq!(user_from_row(&row), user(1, "john_doe", "john@example.com", "John Doe"));
}

#[test]
fn user_from_a_row_in_another_order_with_more_columns() {
    let row = Row {
        columns: vec![
            column("updated_at", text("2025-10-27T08:00:00")),
            column("full_name", text("Jane Doe")),
            column("extra", Cell::Other),
            column("email", text("jane@example.com")),
            column("created_at", text("2025-10-26T10:30:00")),
            column("username", text("jane_doe")),
            column("id", Cell::Int(2)),
        ],
    };
    assert_eq!(user_from_row(&row), user(2, "jane_doe", "jane@example.com", "Jane Doe"));
}

#[test]
fn user_from_a_row_never_has_times() {
    let row = Row {
        columns: vec![
            column("created_at", text("2025-10-26T10:30:00")),
            column("updated_at", text("2025-10-26T10:30:00")),
        ],
    };
    let made = user_from_row(&row);
    assert_eq!(made.created_at, None);
    assert_eq!(made.updated_at, None);
}

#[test]
fn user_from_a_row_with_gaps_gets_defaults() {
    let row = Row {
        columns: vec![
            column("id", Cell::Null),
            column("username", Cell::Other),
            column("full_name", Cell::Int(3)),
        ],
    };
    assert_eq!(user_from_row(&row), user(0, "", "", ""));
    assert_eq!(user_from_row(&Row { columns: vec![] }), user(0, "", "", ""));
}

#[test]
fn user_from_a_row_goes_by_the_first_column_of_a_name() {
    let row = Row {
        columns: vec![
            column("id", text("one")),
            column("id", Cell::Int(1)),
            column("username", text("first")),
            column("username", text("second")),
        ],
    };
    assert_eq!(user_from_row(&row), user(0, "first", "", ""));
}

#[test]
fn users_from_rows_keeps_count_and_order() {
    let make = |id: i32| Row {
        columns: vec![column("id", Cell::Int(id)), column("username", text(&format!("u{}", id)))],
    };
    let sets = vec![vec![make(5), make(3)], vec![], vec![make(9)], vec![make(1), make(1)]];
    let users = users_from_rows(&sets);
    assert_eq!(
        users,
        vec![
            user(5, "u5", "", ""),
            user(3, "u3", "", ""),
            user(9, "u9", "", ""),
            user(1, "u1", "", ""),
            user(1, "u1", "", ""),
        ]
    );
}

#[test]
fn users_from_no_rows() {
    assert_eq!(users_from_rows(&vec![]), Vec::<User>::new());
    assert_eq!(users_from_rows(&vec![vec![], vec![]]), Vec::<User>::new());
}
