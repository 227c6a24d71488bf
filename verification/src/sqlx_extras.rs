//! Building SQL statements with bound arguments.

use vstd::prelude::*;

verus! {

/// A value that a statement is run with.
#[derive(Clone, Debug, PartialEq, Eq)]
pub enum SqlArg {
    Blob(Vec<u8>),
    Int(i64),
    Text(String),
}

/// The mathematical model of a [`SqlArg`].
pub enum SqlValue {
    Blob(Seq<u8>),
    Int(i64),
    Text(Seq<char>),
}

impl View for SqlArg {
    type V = SqlValue;

    open spec fn view(&self) -> SqlValue {
        match self {
            SqlArg::Blob(bytes) => SqlValue::Blob(bytes@),
            SqlArg::Int(number) => SqlValue::Int(*number),
            SqlArg::Text(text) => SqlValue::Text(text@),
        }
    }
}

/// The arguments, each by its view.
pub open spec fn arg_values(args: Seq<SqlArg>) -> Seq<SqlValue> {
    Seq::new(args.len(), |i: int| args[i]@)
}

/// A statement under construction: an `sqlx::QueryBuilder` for SQLite.
#[verifier::external_body]
pub struct Query {
    builder: sqlx::QueryBuilder<'static, sqlx::Sqlite>,
}

/// The SQL text of a [`Query`] so far.
pub uninterp spec fn query_text(query: Query) -> Seq<char>;

/// The values bound to a [`Query`] so far, in the order of their placeholders.
pub uninterp spec fn query_args(query: Query) -> Seq<SqlValue>;

/// Whether a [`Query`] still holds its bound values, so that it can grow or be
/// handed to the database.
pub uninterp spec fn query_open(query: Query) -> bool;

#[verifier::external_type_specification]
#[verifier::external_body]
pub struct ExSqliteArguments<'q>(sqlx::sqlite::SqliteArguments<'q>);

/// The values that SQLite is handed with a statement.
pub uninterp spec fn bound_values(args: sqlx::sqlite::SqliteArguments<'_>) -> Seq<SqlValue>;

/// `sqlx::QueryBuilder::new`: a statement that starts with `sql`, with nothing
/// bound.
#[verifier::external_body]
pub(crate) fn query_new(sql: &str) -> (query: Query)
    ensures
        query_open(query),
        query_text(query) == sql@,
        query_args(query) == Seq::<SqlValue>::empty(),
{
    Query { builder: sqlx::QueryBuilder::new(sql) }
}

/// `sqlx::QueryBuilder::push`: appends a fragment to the text. It panics on a
/// builder whose values were taken.
#[verifier::external_body]
pub(crate) fn query_push(query: &mut Query, sql: &str)
    requires
        query_open(*old(query)),
    ensures
        query_open(*final(query)),
        query_text(*final(query)) == query_text(*old(query)) + sql@,
        query_args(*final(query)) == query_args(*old(query)),
{
    query.builder.push(sql);
}

/// `sqlx::QueryBuilder::push_bind` with bytes: appends a placeholder to the
/// text and binds the bytes to it. It panics on a builder whose values were
/// taken.
#[verifier::external_body]
pub(crate) fn query_bind_blob(query: &mut Query, value: Vec<u8>)
    requires
        query_open(*old(query)),
    ensures
        query_open(*final(query)),
        query_text(*final(query)) == query_text(*old(query)).push('?'),
        query_args(*final(query)) == query_args(*old(query)).push(SqlValue::Blob(value@)),
{
    query.builder.push_bind(value);
}

/// `sqlx::QueryBuilder::push_bind` with a number: appends a placeholder to the
/// text and binds the number to it. It panics on a builder whose values were
/// taken.
#[verifier::external_body]
pub(crate) fn query_bind_int(query: &mut Query, value: i64)
    requires
        query_open(*old(query)),
    ensures
        query_open(*final(query)),
        query_text(*final(query)) == query_text(*old(query)).push('?'),
        query_args(*final(query)) == query_args(*old(query)).push(SqlValue::Int(value)),
{
    query.builder.push_bind(value);
}

/// `sqlx::QueryBuilder::push_bind` with a string: appends a placeholder to the
/// text and binds the string to it. It panics on a builder whose values were
/// taken.
#[verifier::external_body]
pub(crate) fn query_bind_text(query: &mut Query, value: String)
    requires
        query_open(*old(query)),
    ensures
        query_open(*final(query)),
        query_text(*final(query)) == query_text(*old(query)).push('?'),
        query_args(*final(query)) == query_args(*old(query)).push(SqlValue::Text(value@)),
{
    query.builder.push_bind(value);
}

/// `sqlx::QueryBuilder::build`, with `sqlx::Execute` to take it apart: the
/// text, and the bound values in order. `build` panics on a builder whose
/// values were taken, and takes them itself.
#[verifier::external_body]
fn query_build<'q>(query: &'q mut Query) -> (parts: (&'q str, Option<sqlx::sqlite::SqliteArguments<'q>>))
    requires
        query_open(*old(query)),
    ensures
        parts.0@ == query_text(*old(query)),
        parts.1 is Some,
        bound_values(parts.1->0) == query_args(*old(query)),
        !query_open(*final(query)),
{
    let mut built = query.builder.build();
    let args = sqlx::Execute::take_arguments(&mut built);
    (sqlx::Execute::sql(&built), args.ok().flatten())
}

/// So many placeholders, with `separator` between them.
pub open spec fn placeholders(count: nat, separator: Seq<char>) -> Seq<char>
    decreases count,
{
    if count == 0 {
        Seq::empty()
    } else if count == 1 {
        seq!['?']
    } else {
        (placeholders((count - 1) as nat, separator) + separator).push('?')
    }
}

/// An `IN` clause over `count` placeholders, or `FALSE` where there are none.
pub open spec fn in_clause(expression: Seq<char>, count: nat) -> Seq<char> {
    if count == 0 {
        "FALSE"@
    } else {
        expression + " IN ("@ + placeholders(count, ", "@) + ")"@
    }
}

impl Query {
    /// Binds a value to a new placeholder.
    fn push_bind(&mut self, value: SqlArg)
        requires
            query_open(*old(self)),
        ensures
            query_open(*final(self)),
            query_text(*final(self)) == query_text(*old(self)).push('?'),
            query_args(*final(self)) == query_args(*old(self)).push(value@),
    {
        match value {
            SqlArg::Blob(bytes) => query_bind_blob(self, bytes),
            SqlArg::Int(number) => query_bind_int(self, number),
            SqlArg::Text(text) => query_bind_text(self, text),
        }
    }

    /// Binds each value to a placeholder of its own, with `separator` between
    /// the placeholders.
    pub(crate) fn push_bind_list(&mut self, values: Vec<SqlArg>, separator: &str)
        requires
            query_open(*old(self)),
        ensures
            query_open(*final(self)),
            query_text(*final(self)) == query_text(*old(self)) + placeholders(
                values@.len(),
                separator@,
            ),
            query_args(*final(self)) == query_args(*old(self)) + arg_values(values@),
    {
        let mut rest = values;
        let ghost text = query_text(*self);
        let ghost args = query_args(*self);
        let count = rest.len();
        let mut i: usize = 0;
        proof {
            assert(text =~= text + placeholders(0, separator@));
            assert(args =~= args + arg_values(values@.take(0)));
        }
        while i < count
            invariant
                i <= count,
                count == values@.len(),
                rest@ == values@.skip(i as int),
                query_open(*self),
                query_text(*self) == text + placeholders(i as nat, separator@),
                query_args(*self) == args + arg_values(values@.take(i as int)),
            decreases count - i,
        {
            if i > 0 {
                query_push(self, separator);
            }
            let value = rest.remove(0);
            proof {
                assert(value == values@[i as int]);
            }
            self.push_bind(value);
            i = i + 1;
            proof {
                assert(rest@ =~= values@.skip(i as int));
                assert(query_text(*self) =~= text + placeholders(i as nat, separator@));
                assert(query_args(*self) =~= args + arg_values(values@.take(i as int)));
            }
        }
        proof {
            assert(values@.take(count as int) =~= values@);
        }
    }

    /// Adds an `IN` clause. Where there are no items it is `FALSE`, since an
    /// empty list is no valid SQL.
    pub fn is_in(&mut self, expression: &str, items: Vec<SqlArg>)
        requires
            query_open(*old(self)),
        ensures
            query_open(*final(self)),
            query_text(*final(self)) == query_text(*old(self)) + in_clause(
                expression@,
                items@.len(),
            ),
            query_args(*final(self)) == query_args(*old(self)) + arg_values(items@),
    {
        if items.len() == 0 {
            query_push(self, "FALSE");
            proof {
                assert(query_args(*self) =~= query_args(*old(self)) + arg_values(items@));
            }
            return;
        }
        query_push(self, expression);
        query_push(self, " IN (");
        self.push_bind_list(items, ", ");
        query_push(self, ")");
        proof {
            assert(query_text(*self) =~= query_text(*old(self)) + in_clause(expression@, items@.len()));
        }
    }

    /// The text and the bound values, for the database to run.
    pub fn parts<'q>(&'q mut self) -> (parts: (&'q str, sqlx::sqlite::SqliteArguments<'q>))
        requires
            query_open(*old(self)),
        ensures
            parts.0@ == query_text(*old(self)),
            bound_values(parts.1) == query_args(*old(self)),
            !query_open(*final(self)),
    {
        let (text, args) = query_build(self);
        (text, args.unwrap())
    }
}

/// The model of the arguments holds each argument, in its place and with its
/// value.
pub proof fn arguments_keep_their_values(args: Seq<SqlArg>, bytes: Vec<u8>, number: i64, text: String)
    ensures
        arg_values(args).len() == args.len(),
        forall|i: int| 0 <= i < args.len() ==> #[trigger] arg_values(args)[i] == args[i]@,
        SqlArg::Blob(bytes)@ == SqlValue::Blob(bytes@),
        SqlArg::Int(number)@ == SqlValue::Int(number),
        SqlArg::Text(text)@ == SqlValue::Text(text@),
{
}

/// One placeholder is a question mark, and each further one comes behind a
/// separator.
pub proof fn placeholders_are_question_marks(count: nat, separator: Seq<char>)
    requires
        count > 0,
    ensures
        placeholders(0, separator) == Seq::<char>::empty(),
        placeholders(1, separator) == seq!['?'],
        placeholders(count + 1, separator) == placeholders(count, separator) + separator + seq!['?'],
{
    assert(placeholders(count + 1, separator) =~= placeholders(count, separator) + separator + seq![
        '?',
    ]);
}

/// An `IN` clause without items is false, one with an item lists it, and each
/// further item comes in before the closing bracket.
pub proof fn in_clauses_list_their_items(expression: Seq<char>, count: nat)
    requires
        count > 0,
    ensures
        in_clause(expression, 0) == "FALSE"@,
        in_clause(expression, 1) == expression + " IN (?)"@,
        in_clause(expression, count + 1) == in_clause(expression, count).drop_last() + ", ?)"@,
{
    reveal_strlit(" IN (?)");
    reveal_strlit(" IN (");
    reveal_strlit(")");
    reveal_strlit(", ");
    reveal_strlit(", ?)");
    placeholders_are_question_marks(count, ", "@);
    assert(in_clause(expression, 1) =~= expression + " IN (?)"@);
    assert(in_clause(expression, count + 1) =~= in_clause(expression, count).drop_last() + ", ?)"@);
}

} // verus!
