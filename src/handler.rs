use vstd::prelude::*;

use crate::value::{JsonModel, JsonValue, NativeModel, NativeValue, bind_values, to_json, to_json_spec, to_native_spec};

verus! {

/// A request: a statement and the values bound to its placeholders, in order.
#[derive(Debug)]
pub struct Query {
    pub sql: String,
    pub values: Vec<JsonValue>,
}

/// One cell of a result row: the column's name and the value read from it,
/// `None` when it could not be read.
#[derive(Debug)]
pub struct Cell {
    pub name: String,
    pub value: Option<NativeValue>,
}

/// A result row as sent: one entry per distinct column name, in the order in
/// which the names first appear.
pub type JsonRow = Vec<(String, JsonValue)>;

/// Why a request was answered with an error.
#[derive(Clone, Copy, Debug, PartialEq, Eq, Structural)]
pub enum Failure {
    Connection,
    Execution,
    Serialization,
}

/// What the database work of a request came to.
#[derive(Debug)]
pub enum Outcome {
    NoConnection(String),
    ExecutionFailed(String),
    Rows(Vec<Vec<Cell>>),
}

/// The answer to a request.
#[derive(Debug)]
pub enum Reply {
    Rows(Vec<JsonRow>),
    Error { failure: Failure, details: String },
}

pub open spec fn failure_message(f: Failure) -> Seq<char> {
    match f {
        Failure::Connection => "Failed to get database connection"@,
        Failure::Execution => "Failed to execute query"@,
        Failure::Serialization => "Failed to serialize result"@,
    }
}

impl Failure {
    /// The fixed message sent for this failure.
    pub fn message(&self) -> (r: &'static str)
        ensures
            r@ == failure_message(*self),
    {
        match self {
            Failure::Connection => {
                proof { reveal_strlit("Failed to get database connection"); }
                "Failed to get database connection"
            },
            Failure::Execution => {
                proof { reveal_strlit("Failed to execute query"); }
                "Failed to execute query"
            },
            Failure::Serialization => {
                proof { reveal_strlit("Failed to serialize result"); }
                "Failed to serialize result"
            },
        }
    }
}

pub open spec fn cell_json(value: Option<NativeModel>) -> JsonModel {
    match value {
        Some(v) => to_json_spec(v),
        None => JsonModel::Null,
    }
}

pub open spec fn has_key(row: Seq<(Seq<char>, JsonModel)>, key: Seq<char>) -> bool {
    exists|i: int| 0 <= i < row.len() && (#[trigger] row[i]).0 == key
}

pub open spec fn keys_unique(row: Seq<(Seq<char>, JsonModel)>) -> bool {
    forall|i: int, j: int| 0 <= i < j < row.len() ==> (#[trigger] row[i]).0 != (#[trigger] row[j]).0
}

/// Sets `key` to `value`: in place where the key is present, else at the end.
pub open spec fn row_insert(row: Seq<(Seq<char>, JsonModel)>, key: Seq<char>, value: JsonModel) -> Seq<
    (Seq<char>, JsonModel),
> {
    if has_key(row, key) {
        row.update(choose|i: int| 0 <= i < row.len() && (#[trigger] row[i]).0 == key, (key, value))
    } else {
        row.push((key, value))
    }
}

pub open spec fn cell_model(c: Cell) -> (Seq<char>, Option<NativeModel>) {
    (
        c.name@,
        match c.value {
            Some(v) => Some(v@),
            None => None,
        },
    )
}

/// The row built from the cells, each set in turn, so that a later column
/// with a name already seen replaces the earlier value.
pub open spec fn row_spec(cells: Seq<(Seq<char>, Option<NativeModel>)>) -> Seq<(Seq<char>, JsonModel)>
    decreases cells.len(),
{
    if cells.len() == 0 {
        Seq::empty()
    } else {
        let last = cells.last();
        row_insert(row_spec(cells.drop_last()), last.0, cell_json(last.1))
    }
}

pub open spec fn cells_model(cells: Seq<Cell>) -> Seq<(Seq<char>, Option<NativeModel>)> {
    cells.map_values(|c: Cell| cell_model(c))
}

pub open spec fn row_model(row: Seq<(String, JsonValue)>) -> Seq<(Seq<char>, JsonModel)> {
    row.map_values(|e: (String, JsonValue)| (e.0@, e.1@))
}

fn find_key(row: &Vec<(String, JsonValue)>, key: &String) -> (r: Option<usize>)
    ensures
        match r {
            Some(i) => i < row.len() && row[i as int].0@ == key@,
            None => !has_key(row_model(row@), key@),
        },
{
    let mut i: usize = 0;
    while i < row.len()
        invariant
            i <= row.len(),
            forall|j: int| 0 <= j < i ==> (#[trigger] row[j]).0@ != key@,
        decreases row.len() - i,
    {
        if row[i].0 == *key {
            return Some(i);
        }
        i = i + 1;
    }
    proof {
        if has_key(row_model(row@), key@) {
            let j = choose|j: int| 0 <= j < row_model(row@).len() && (#[trigger] row_model(row@)[j]).0 == key@;
            assert(row[j].0@ == key@);
        }
    }
    None
}

fn cell_value(value: &Option<NativeValue>) -> (r: JsonValue)
    ensures
        r@ == cell_json(
            match value {
                Some(v) => Some(v@),
                None => None,
            },
        ),
{
    match value {
        Some(v) => to_json(v),
        None => JsonValue::Null,
    }
}

/// Builds the sent row from a result row's cells.
pub fn row_to_json(cells: &Vec<Cell>) -> (r: JsonRow)
    ensures
        row_model(r@) == row_spec(cells_model(cells@)),
        keys_unique(row_model(r@)),
{
    let mut out: JsonRow = Vec::new();
    let mut i: usize = 0;
    while i < cells.len()
        invariant
            i <= cells.len(),
            row_model(out@) == row_spec(cells_model(cells@).take(i as int)),
            keys_unique(row_model(out@)),
        decreases cells.len() - i,
    {
        let ghost before = row_model(out@);
        let value = cell_value(&cells[i].value);
        let name = cells[i].name.clone();
        proof {
            let cs = cells_model(cells@).take(i as int + 1);
            assert(cs.drop_last() =~= cells_model(cells@).take(i as int));
            assert(cs.last() == cell_model(cells[i as int]));
        }
        match find_key(&out, &name) {
            Some(k) => {
                out.set(k, (name, value));
                proof {
                    let m = row_model(out@);
                    let key = cells[i as int].name@;
                    assert(has_key(before, key)) by {
                        assert(before[k as int].0 == key);
                    }
                    let c = choose|j: int| 0 <= j < before.len() && (#[trigger] before[j]).0 == key;
                    assert(before[c].0 == before[k as int].0);
                    if c < k as int {
                        assert(before[c].0 != before[k as int].0);
                    } else if c > k as int {
                        assert(before[k as int].0 != before[c].0);
                    }
                    assert(c == k as int);
                    assert(m =~= row_insert(before, key, value@));
                }
            },
            None => {
                out.push((name, value));
                proof {
                    let key = cells[i as int].name@;
                    assert(row_model(out@) =~= before.push((key, value@)));
                }
            },
        }
        i = i + 1;
    }
    assert(cells_model(cells@).take(cells.len() as int) =~= cells_model(cells@));
    out
}

/// Builds the sent rows from the result rows, in order.
pub fn rows_to_json(rows: &Vec<Vec<Cell>>) -> (r: Vec<JsonRow>)
    ensures
        r.len() == rows.len(),
        forall|i: int|
            0 <= i < rows.len() ==> row_model((#[trigger] r[i])@) == row_spec(cells_model(rows[i]@)),
{
    let mut out: Vec<JsonRow> = Vec::new();
    let mut i: usize = 0;
    while i < rows.len()
        invariant
            i <= rows.len(),
            out.len() == i,
            forall|j: int|
                0 <= j < i ==> row_model((#[trigger] out[j])@) == row_spec(cells_model(rows[j]@)),
        decreases rows.len() - i,
    {
        out.push(row_to_json(&rows[i]));
        i = i + 1;
    }
    out
}

/// The answer owed for what the database work came to: the rows on success,
/// else the failure with the driver's message.
pub open spec fn reply_matches(outcome: Outcome, reply: Reply) -> bool {
    match outcome {
        Outcome::NoConnection(d) => reply matches Reply::Error { failure, details }
            && failure == Failure::Connection && details@ == d@,
        Outcome::ExecutionFailed(d) => reply matches Reply::Error { failure, details }
            && failure == Failure::Execution && details@ == d@,
        Outcome::Rows(rows) => reply matches Reply::Rows(out) && out.len() == rows.len() && forall|
            i: int,
        |
            0 <= i < rows.len() ==> row_model((#[trigger] out[i])@) == row_spec(cells_model(rows[i]@)),
    }
}

/// Decides the answer to a request from what its database work came to.
pub fn reply_for(outcome: Outcome) -> (r: Reply)
    ensures
        reply_matches(outcome, r),
{
    match outcome {
        Outcome::NoConnection(details) => Reply::Error { failure: Failure::Connection, details },
        Outcome::ExecutionFailed(details) => Reply::Error { failure: Failure::Execution, details },
        Outcome::Rows(rows) => Reply::Rows(rows_to_json(&rows)),
    }
}

/// The answer when the rows could not be written out.
pub fn serialization_failed(details: String) -> (r: Reply)
    ensures
        r matches Reply::Error { failure, details: d } && failure == Failure::Serialization && d@
            == details@,
{
    Reply::Error { failure: Failure::Serialization, details }
}

pub open spec fn status_spec(reply: Reply) -> u16 {
    if reply is Rows {
        200
    } else {
        500
    }
}

/// Work that returned rows is answered with status 200 and one sent row per
/// result row; a failure to get a connection, or to execute the statement, is
/// answered with status 500 and that failure's fixed message.
pub proof fn lemma_reply_status(outcome: Outcome, reply: Reply)
    requires
        reply_matches(outcome, reply),
    ensures
        outcome matches Outcome::Rows(rows) ==> (status_spec(reply) == 200 && (reply matches Reply::Rows(
            out,
        ) && out.len() == rows.len())),
        outcome is NoConnection ==> (status_spec(reply) == 500 && (reply matches Reply::Error {
            failure,
            ..
        } && failure_message(failure) == "Failed to get database connection"@)),
        outcome is ExecutionFailed ==> (status_spec(reply) == 500 && (reply matches Reply::Error {
            failure,
            ..
        } && failure_message(failure) == "Failed to execute query"@)),
{
}

impl Reply {
    /// The HTTP status of the answer: 200 for rows, 500 for any failure.
    pub fn status(&self) -> (r: u16)
        ensures
            r == status_spec(*self),
    {
        match self {
            Reply::Rows(_) => 200,
            Reply::Error { .. } => 500,
        }
    }
}

/// The parameters that a request binds, in order.
pub fn query_params(query: &Query) -> (r: Vec<NativeValue>)
    ensures
        r.len() == query.values.len(),
        forall|i: int|
            0 <= i < query.values.len() ==> #[trigger] r[i]@ == to_native_spec(query.values[i]@),
{
    bind_values(&query.values)
}

} // verus!
