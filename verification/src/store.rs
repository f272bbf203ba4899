//! What the store hands back for a query, and how a row becomes a record.
//!
//! A row is kept as the list of its named columns. Of a value only what the
//! service reads is kept: a 32-bit integer, a text, or neither.

use vstd::prelude::*;
use vstd::string::*;
use crate::models::{User, UserView};

verus! {

/// The value in one column of a row.
#[derive(Debug, Clone, PartialEq, Eq)]
pub enum Cell {
    /// The column is null.
    Null,
    /// A 32-bit integer.
    Int(i32),
    /// A character string.
    Text(String),
    /// A value of any other type.
    Other,
}

/// The mathematical value of a [`Cell`].
pub enum CellView {
    Null,
    Int(int),
    Text(Seq<char>),
    Other,
}

impl View for Cell {
    type V = CellView;

    open spec fn view(&self) -> CellView {
        match self {
            Cell::Null => CellView::Null,
            Cell::Int(n) => CellView::Int(*n as int),
            Cell::Text(s) => CellView::Text(s@),
            Cell::Other => CellView::Other,
        }
    }
}

impl DeepView for Cell {
    type V = CellView;

    open spec fn deep_view(&self) -> CellView {
        self@
    }
}

/// A column of a row: its name and the value in it.
#[derive(Debug, Clone, PartialEq, Eq)]
pub struct Column {
    pub name: String,
    pub value: Cell,
}

/// The mathematical value of a [`Column`].
pub struct ColumnView {
    pub name: Seq<char>,
    pub value: CellView,
}

impl View for Column {
    type V = ColumnView;

    open spec fn view(&self) -> ColumnView {
        ColumnView { name: self.name@, value: self.value@ }
    }
}

impl DeepView for Column {
    type V = ColumnView;

    open spec fn deep_view(&self) -> ColumnView {
        self@
    }
}

/// A row of a result set: its columns in the order of the result set.
/// Two columns may bear the same name.
#[derive(Debug, Clone, PartialEq, Eq)]
pub struct Row {
    pub columns: Vec<Column>,
}

impl View for Row {
    type V = Seq<ColumnView>;

    open spec fn view(&self) -> Seq<ColumnView> {
        self.columns.deep_view()
    }
}

impl DeepView for Row {
    type V = Seq<ColumnView>;

    open spec fn deep_view(&self) -> Seq<ColumnView> {
        self@
    }
}

/// Column `i` of `row` is the first one called `name`.
pub open spec fn is_first_named(row: Seq<ColumnView>, name: Seq<char>, i: int) -> bool {
    &&& 0 <= i < row.len()
    &&& row[i].name == name
    &&& forall|j: int| 0 <= j < i ==> (#[trigger] row[j]).name != name
}

/// The value in the first column of `row` called `name`, if there is one.
pub open spec fn cell_named(row: Seq<ColumnView>, name: Seq<char>) -> Option<CellView> {
    if exists|i: int| is_first_named(row, name, i) {
        Some(row[choose|i: int| is_first_named(row, name, i)].value)
    } else {
        None
    }
}

/// The integer in the column called `name`; 0 where the row has no such
/// column or the column holds no 32-bit integer.
pub open spec fn int_or_zero(row: Seq<ColumnView>, name: Seq<char>) -> int {
    match cell_named(row, name) {
        Some(CellView::Int(n)) => n,
        _ => 0,
    }
}

/// The text in the column called `name`; the empty text where the row has
/// no such column or the column holds no text.
pub open spec fn text_or_empty(row: Seq<ColumnView>, name: Seq<char>) -> Seq<char> {
    match cell_named(row, name) {
        Some(CellView::Text(s)) => s,
        _ => Seq::empty(),
    }
}

/// The record that a row stands for. The two times are absent whatever the
/// row holds.
pub open spec fn user_of(row: Seq<ColumnView>) -> UserView {
    UserView {
        id: int_or_zero(row, "id"@),
        username: text_or_empty(row, "username"@),
        email: text_or_empty(row, "email"@),
        full_name: text_or_empty(row, "full_name"@),
        created_at: None,
        updated_at: None,
    }
}

/// The records of all rows of all result sets, in the order of the result
/// sets and, within one, of its rows.
pub open spec fn users_of(sets: Seq<Seq<Seq<ColumnView>>>) -> Seq<UserView> {
    sets.flatten().map_values(|row: Seq<ColumnView>| user_of(row))
}

/// At most one column is the first of its name.
pub proof fn lemma_first_named_unique(row: Seq<ColumnView>, name: Seq<char>, i: int, k: int)
    requires
        is_first_named(row, name, i),
        is_first_named(row, name, k),
    ensures
        i == k,
{
}

impl Row {
    /// The value in the first column called `name`, if there is one.
    pub fn cell(&self, name: &str) -> (r: Option<&Cell>)
        ensures
            r.deep_view() == cell_named(self@, name@),
    {
        let key = String::from_str(name);
        let mut i: usize = 0;
        while i < self.columns.len()
            invariant
                i <= self.columns.len(),
                key@ == name@,
                forall|j: int| 0 <= j < i ==> (#[trigger] self@[j]).name != name@,
            decreases self.columns.len() - i,
        {
            if self.columns[i].name == key {
                proof {
                    let k = choose|k: int| is_first_named(self@, name@, k);
                    lemma_first_named_unique(self@, name@, i as int, k);
                }
                return Some(&self.columns[i].value);
            }
            i = i + 1;
        }
        None
    }

    /// The integer in the column called `name`, or 0.
    pub fn int_or_zero(&self, name: &str) -> (r: i32)
        ensures
            r as int == int_or_zero(self@, name@),
    {
        match self.cell(name) {
            Some(Cell::Int(n)) => *n,
            _ => 0,
        }
    }

    /// The text in the column called `name`, or the empty text.
    pub fn text_or_empty(&self, name: &str) -> (r: String)
        ensures
            r@ == text_or_empty(self@, name@),
    {
        match self.cell(name) {
            Some(Cell::Text(s)) => s.clone(),
            _ => String::new(),
        }
    }
}

/// Makes the record of one row: `id`, `username`, `email` and `full_name`
/// from the columns of these names, each replaced by 0 or the empty text
/// where the row does not have it; the two times absent.
pub fn user_from_row(row: &Row) -> (user: User)
    ensures
        user@ == user_of(row@),
{
    User {
        id: row.int_or_zero("id"),
        username: row.text_or_empty("username"),
        email: row.text_or_empty("email"),
        full_name: row.text_or_empty("full_name"),
        created_at: None,
        updated_at: None,
    }
}

/// Makes the records of all rows of all result sets, in the order of the
/// result sets and, within one, of its rows: one record for each row.
pub fn users_from_rows(sets: &Vec<Vec<Row>>) -> (users: Vec<User>)
    ensures
        users.deep_view() == users_of(sets.deep_view()),
{
    let ghost all = sets.deep_view();
    let ghost record = |row: Seq<ColumnView>| user_of(row);
    let mut users: Vec<User> = Vec::new();
    let mut i: usize = 0;
    while i < sets.len()
        invariant
            i <= sets.len(),
            all == sets.deep_view(),
            record == |row: Seq<ColumnView>| user_of(row),
            users.deep_view() == all.take(i as int).flatten().map_values(record),
        decreases sets.len() - i,
    {
        let rows = &sets[i];
        let ghost done = users.deep_view();
        let ghost these = rows.deep_view();
        let mut k: usize = 0;
        while k < rows.len()
            invariant
                k <= rows.len(),
                these == rows.deep_view(),
                record == |row: Seq<ColumnView>| user_of(row),
                users.deep_view() == done + these.take(k as int).map_values(record),
            decreases rows.len() - k,
        {
            let ghost before = users.deep_view();
            let user = user_from_row(&rows[k]);
            users.push(user);
            proof {
                assert(users.deep_view() =~= before.push(user@));
                assert(these.take(k + 1).map_values(record) =~= these.take(k as int).map_values(
                    record,
                ).push(user@));
            }
            k = k + 1;
        }
        proof {
            assert(all.take(i + 1) =~= all.take(i as int).push(these));
            all.take(i as int).lemma_flatten_push(these);
            assert(all.take(i + 1).flatten().map_values(record) =~= done + these.map_values(
                record,
            ));
        }
        i = i + 1;
    }
    proof {
        assert(all.take(sets.len() as int) =~= all);
    }
    users
}

} // verus!
