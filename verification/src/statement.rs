//! SQL statement execution

use crate::error::{Error, ErrorView};
use crate::text::{decimal, decimal_string, str_eq};
use crate::text::{first_index, lemma_first_index, lemma_first_index_unique};
use crate::protocol::{is_count_outcome, lemma_execute_many_stops, Protocol};
use crate::protocol::{lemma_answers_ignore_parameters, lemma_batch_answer};
use crate::types::{column_views, converted, value_views};
use crate::types::{ColumnInfo, ColumnInfoView, FromSql, ToSql, Value, ValueView};
use vstd::prelude::*;
use vstd::string::*;

verus! {

/// Row from query result
#[derive(Debug)]
pub struct Row {
    /// Column values (indexed)
    values: Vec<Value>,
    /// Column names, in the order of the values. Where a name occurs twice,
    /// it stands for the first column of that name.
    columns: Vec<String>,
}

/// The model of a `Row`.
pub struct RowView {
    /// Column values
    pub values: Seq<ValueView>,
    /// Column names, in the order of the values
    pub columns: Seq<Seq<char>>,
}

/// The names of `names`, in order.
pub open spec fn name_views(names: Seq<String>) -> Seq<Seq<char>> {
    Seq::new(names.len(), |i: int| names[i]@)
}

/// The models of the rows of `rows`, in order.
pub open spec fn row_views(rows: Seq<Row>) -> Seq<RowView> {
    Seq::new(rows.len(), |i: int| rows[i]@)
}

impl View for Row {
    type V = RowView;

    closed spec fn view(&self) -> RowView {
        RowView { values: value_views(self.values@), columns: name_views(self.columns@) }
    }
}

impl RowView {
    /// The value in the first column named `name`, where there is such a
    /// column and the row has a value for it.
    pub open spec fn value_of(self, name: Seq<char>) -> Option<ValueView> {
        let i = first_index(self.columns, name);
        if i < self.columns.len() && i < self.values.len() {
            Some(self.values[i])
        } else {
            None
        }
    }

    /// The value at `index`, where the row has one.
    pub open spec fn value_at(self, index: int) -> Option<ValueView> {
        if 0 <= index < self.values.len() {
            Some(self.values[index])
        } else {
            None
        }
    }

    /// The names that stand for a column of their own: each name once, at
    /// its first column, in the order of the columns.
    pub open spec fn named_values(self) -> Seq<(Seq<char>, ValueView)>
        recommends
            self.columns.len() <= self.values.len(),
        decreases self.columns.len(),
    {
        if self.columns.len() == 0 {
            Seq::empty()
        } else {
            let init = RowView { values: self.values, columns: self.columns.drop_last() };
            let last = self.columns.len() - 1;
            if first_index(self.columns, self.columns[last]) == last {
                init.named_values().push((self.columns[last], self.values[last]))
            } else {
                init.named_values()
            }
        }
    }
}

impl Row {
    /// Create a new row
    pub fn new(values: Vec<Value>, column_names: Vec<String>) -> (row: Self)
        ensures
            row@ == (RowView {
                values: value_views(values@),
                columns: name_views(column_names@),
            }),
    {
        Row { values, columns: column_names }
    }

    /// Get value by index
    pub fn get(&self, index: usize) -> (value: Option<&Value>)
        ensures
            match self@.value_at(index as int) {
                Some(v) => value matches Some(x) && x@ == v,
                None => value is None,
            },
    {
        if index < self.values.len() {
            Some(&self.values[index])
        } else {
            None
        }
    }

    /// The index of the first column named `name`, or the number of columns
    /// where there is none.
    fn column_index(&self, name: &str) -> (index: usize)
        ensures
            index == first_index(self@.columns, name@),
            index <= self@.columns.len(),
    {
        let mut i: usize = 0;
        while i < self.columns.len()
            invariant
                i <= self.columns@.len(),
                forall|j: int| 0 <= j < i ==> #[trigger] self@.columns[j] != name@,
            decreases self.columns@.len() - i,
        {
            if str_eq(self.columns[i].as_str(), name) {
                proof {
                    lemma_first_index_unique(self@.columns, name@, i as int);
                }
                return i;
            }
            i += 1;
        }
        proof {
            lemma_first_index_unique(self@.columns, name@, i as int);
        }
        i
    }

    /// Get value by column name
    pub fn get_by_name(&self, name: &str) -> (value: Option<&Value>)
        ensures
            match self@.value_of(name@) {
                Some(v) => value matches Some(x) && x@ == v,
                None => value is None,
            },
    {
        let i: usize = self.column_index(name);
        if i < self.columns.len() && i < self.values.len() {
            Some(&self.values[i])
        } else {
            None
        }
    }

    /// Get typed value by index: a column-not-found error that names the
    /// index where the row has no value there, else what `T` reads the value
    /// as.
    pub fn get_typed<T: FromSql>(&self, index: usize) -> (r: Result<T, Error>)
        ensures
            match self@.value_at(index as int) {
                None => r matches Err(e) && e@ == ErrorView::ColumnNotFound(decimal(index as nat)),
                Some(v) => T::obeys_from_sql() ==> converted::<T>(v, r),
            },
    {
        match self.get(index) {
            Some(value) => T::from_sql(value),
            None => Err(Error::ColumnNotFound(decimal_string(index as u64))),
        }
    }

    /// Get typed value by column name: a column-not-found error that names
    /// the column where the row has no value for it, else what `T` reads the
    /// value as.
    pub fn get_typed_by_name<T: FromSql>(&self, name: &str) -> (r: Result<T, Error>)
        ensures
            match self@.value_of(name@) {
                None => r matches Err(e) && e@ == ErrorView::ColumnNotFound(name@),
                Some(v) => T::obeys_from_sql() ==> converted::<T>(v, r),
            },
    {
        match self.get_by_name(name) {
            Some(value) => T::from_sql(value),
            None => Err(Error::ColumnNotFound(String::from_str(name))),
        }
    }

    /// Get all values
    pub fn values(&self) -> (values: &[Value])
        ensures
            value_views(values@) == self@.values,
    {
        self.values.as_slice()
    }

    /// Get number of columns
    pub fn len(&self) -> (n: usize)
        ensures
            n == self@.values.len(),
    {
        self.values.len()
    }

    /// Get number of column names
    pub fn column_count(&self) -> (n: usize)
        ensures
            n == self@.columns.len(),
    {
        self.columns.len()
    }

    /// Check if row is empty
    pub fn is_empty(&self) -> (b: bool)
        ensures
            b == (self@.values.len() == 0),
    {
        self.values.len() == 0
    }

    /// Convert row to a map from column name to value: one entry for each
    /// name, with the value of the first column of that name, in the order
    /// of the columns.
    pub fn to_map(&self) -> (map: Vec<(String, Value)>)
        requires
            self@.columns.len() <= self@.values.len(),
        ensures
            crate::types::member_views(map@) == self@.named_values(),
    {
        let mut map: Vec<(String, Value)> = Vec::new();
        let mut i: usize = 0;
        assert(self@.columns.take(0) == Seq::<Seq<char>>::empty());
        assert(crate::types::member_views(map@) == Seq::<(Seq<char>, ValueView)>::empty());
        while i < self.columns.len()
            invariant
                i <= self.columns@.len(),
                self@.columns.len() <= self@.values.len(),
                crate::types::member_views(map@) == (RowView {
                    values: self@.values,
                    columns: self@.columns.take(i as int),
                }).named_values(),
            decreases self.columns@.len() - i,
        {
            let ghost prefix = self@.columns.take(i + 1);
            assert(prefix.drop_last() == self@.columns.take(i as int));
            assert(prefix[i as int] == self@.columns[i as int]);
            let first: usize = self.column_index(self.columns[i].as_str());
            proof {
                let name = self@.columns[i as int];
                lemma_first_index(self@.columns, name);
                assert(first <= i);
                assert forall|j: int| 0 <= j < first implies #[trigger] prefix[j] != name by {
                    assert(prefix[j] == self@.columns[j]);
                }
                assert(prefix[first as int] == self@.columns[first as int]);
                lemma_first_index_unique(prefix, name, first as int);
            }
            if first == i {
                let ghost before = crate::types::member_views(map@);
                map.push((self.columns[i].clone(), self.values[i].duplicate()));
                assert(crate::types::member_views(map@) == before.push(
                    (self@.columns[i as int], self@.values[i as int]),
                ));
            }
            i += 1;
        }
        assert(self@.columns.take(i as int) == self@.columns);
        map
    }

    /// A copy of the row.
    pub fn duplicate(&self) -> (copy: Row)
        ensures
            copy@ == self@,
    {
        let mut values: Vec<Value> = Vec::new();
        let mut i: usize = 0;
        while i < self.values.len()
            invariant
                i <= self.values@.len(),
                values@.len() == i,
                forall|j: int| 0 <= j < i ==> (#[trigger] values@[j])@ == self.values@[j]@,
            decreases self.values@.len() - i,
        {
            values.push(self.values[i].duplicate());
            i += 1;
        }
        let mut columns: Vec<String> = Vec::new();
        let mut k: usize = 0;
        while k < self.columns.len()
            invariant
                k <= self.columns@.len(),
                columns@.len() == k,
                forall|j: int| 0 <= j < k ==> (#[trigger] columns@[j])@ == self.columns@[j]@,
            decreases self.columns@.len() - k,
        {
            columns.push(self.columns[k].clone());
            k += 1;
        }
        assert(value_views(values@) =~= value_views(self.values@));
        assert(name_views(columns@) =~= name_views(self.columns@));
        Row { values, columns }
    }
}

impl Clone for Row {
    fn clone(&self) -> (copy: Row)
        ensures
            copy@ == self@,
    {
        self.duplicate()
    }
}

/// Trait for converting from a Row
pub trait FromRow: Sized {
    /// Whether `from_row` keeps to `readable` and `reads`. The impls of this
    /// crate say so where the types of their columns do, and are proved to
    /// keep to it; an impl that does not say so promises nothing of its
    /// result.
    open spec fn obeys_from_row() -> bool {
        false
    }

    /// Whether a row with the model `row` can be read as `Self`.
    open spec fn readable(row: RowView) -> bool {
        false
    }

    /// Whether `out` is what a row with the model `row` reads as.
    open spec fn reads(row: RowView, out: Self) -> bool {
        false
    }

    /// Whether `e` is an error that reading a row with the model `row`
    /// gives, where the row is not readable.
    open spec fn fails_with(row: RowView, e: ErrorView) -> bool {
        true
    }

    /// Convert from row: `Ok` exactly for the rows that are readable, and
    /// for the others an error that `fails_with` allows.
    fn from_row(row: &Row) -> (r: Result<Self, Error>)
        ensures
            Self::obeys_from_row() ==> match r {
                Ok(out) => Self::readable(row@) && Self::reads(row@, out),
                Err(e) => !Self::readable(row@) && Self::fails_with(row@, e@),
            },
    ;
}

/// Whether `e` is the error of reading the value at `index` of `row` as
/// `T`, where that fails: the row has no value there, and `e` is the
/// column-not-found error that names the index; or `T` does not accept the
/// value, and `e` is a type-mismatch error.
pub open spec fn column_failure<T: FromSql>(row: RowView, index: int, e: ErrorView) -> bool {
    if 0 <= index < row.values.len() {
        !T::accepts(row.values[index]) && e is TypeMismatch
    } else {
        e == ErrorView::ColumnNotFound(decimal(index as nat))
    }
}

/// Whether the value at `index` of `row` is there and `T` accepts it.
pub open spec fn column_accepted<T: FromSql>(row: RowView, index: int) -> bool {
    0 <= index < row.values.len() && T::accepts(row.values[index])
}

impl<T1: FromSql> FromRow for (T1,) {
    open spec fn obeys_from_row() -> bool {
        T1::obeys_from_sql()
    }

    open spec fn readable(row: RowView) -> bool {
        column_accepted::<T1>(row, 0)
    }

    open spec fn reads(row: RowView, out: (T1,)) -> bool {
        T1::yields(row.values[0], out.0)
    }

    open spec fn fails_with(row: RowView, e: ErrorView) -> bool {
        column_failure::<T1>(row, 0, e)
    }

    fn from_row(row: &Row) -> (r: Result<(T1,), Error>) {
        match row.get_typed::<T1>(0) {
            Ok(a) => Ok((a,)),
            Err(e) => Err(e),
        }
    }
}

impl<T1: FromSql, T2: FromSql> FromRow for (T1, T2) {
    open spec fn obeys_from_row() -> bool {
        T1::obeys_from_sql() && T2::obeys_from_sql()
    }

    open spec fn readable(row: RowView) -> bool {
        column_accepted::<T1>(row, 0) && column_accepted::<T2>(row, 1)
    }

    open spec fn reads(row: RowView, out: (T1, T2)) -> bool {
        T1::yields(row.values[0], out.0) && T2::yields(row.values[1], out.1)
    }

    open spec fn fails_with(row: RowView, e: ErrorView) -> bool {
        if !column_accepted::<T1>(row, 0) {
            column_failure::<T1>(row, 0, e)
        } else {
            column_failure::<T2>(row, 1, e)
        }
    }

    fn from_row(row: &Row) -> (r: Result<(T1, T2), Error>) {
        let a = match row.get_typed::<T1>(0) {
            Ok(a) => a,
            Err(e) => {
                return Err(e);
            },
        };
        match row.get_typed::<T2>(1) {
            Ok(b) => Ok((a, b)),
            Err(e) => Err(e),
        }
    }
}

impl<T1: FromSql, T2: FromSql, T3: FromSql> FromRow for (T1, T2, T3) {
    open spec fn obeys_from_row() -> bool {
        T1::obeys_from_sql() && T2::obeys_from_sql() && T3::obeys_from_sql()
    }

    open spec fn readable(row: RowView) -> bool {
        column_accepted::<T1>(row, 0) && column_accepted::<T2>(row, 1) && column_accepted::<T3>(
            row,
            2,
        )
    }

    open spec fn reads(row: RowView, out: (T1, T2, T3)) -> bool {
        T1::yields(row.values[0], out.0) && T2::yields(row.values[1], out.1) && T3::yields(
            row.values[2],
            out.2,
        )
    }

    open spec fn fails_with(row: RowView, e: ErrorView) -> bool {
        if !column_accepted::<T1>(row, 0) {
            column_failure::<T1>(row, 0, e)
        } else if !column_accepted::<T2>(row, 1) {
            column_failure::<T2>(row, 1, e)
        } else {
            column_failure::<T3>(row, 2, e)
        }
    }

    fn from_row(row: &Row) -> (r: Result<(T1, T2, T3), Error>) {
        let a = match row.get_typed::<T1>(0) {
            Ok(a) => a,
            Err(e) => {
                return Err(e);
            },
        };
        let b = match row.get_typed::<T2>(1) {
            Ok(b) => b,
            Err(e) => {
                return Err(e);
            },
        };
        match row.get_typed::<T3>(2) {
            Ok(c) => Ok((a, b, c)),
            Err(e) => Err(e),
        }
    }
}

/// Result set from query execution
pub struct ResultSet {
    rows: Vec<Row>,
    metadata: Vec<ColumnInfo>,
    current_row: usize,
}

/// The model of a `ResultSet`.
pub struct ResultSetView {
    /// The rows, in the order in which they came
    pub rows: Seq<RowView>,
    /// The column metadata
    pub metadata: Seq<ColumnInfoView>,
    /// The number of rows that `next` has handed out
    pub cursor: nat,
}

impl View for ResultSet {
    type V = ResultSetView;

    closed spec fn view(&self) -> ResultSetView {
        ResultSetView {
            rows: row_views(self.rows@),
            metadata: column_views(self.metadata@),
            cursor: self.current_row as nat,
        }
    }
}

impl ResultSet {
    /// A result set of the given rows and metadata, with its cursor before
    /// the first row.
    pub fn new(rows: Vec<Row>, metadata: Vec<ColumnInfo>) -> (set: Self)
        ensures
            set@ == (ResultSetView {
                rows: row_views(rows@),
                metadata: column_views(metadata@),
                cursor: 0,
            }),
    {
        ResultSet { rows, metadata, current_row: 0 }
    }

    /// Get number of rows in result set
    pub fn len(&self) -> (n: usize)
        ensures
            n == self@.rows.len(),
    {
        self.rows.len()
    }

    /// Check if result set is empty
    pub fn is_empty(&self) -> (b: bool)
        ensures
            b == (self@.rows.len() == 0),
    {
        self.rows.len() == 0
    }

    /// Get column metadata
    pub fn metadata(&self) -> (metadata: &[ColumnInfo])
        ensures
            column_views(metadata@) == self@.metadata,
    {
        self.metadata.as_slice()
    }

    /// Get all rows
    pub fn rows(&self) -> (rows: &[Row])
        ensures
            row_views(rows@) == self@.rows,
    {
        self.rows.as_slice()
    }

    /// Convert to vector of rows
    pub fn into_rows(self) -> (rows: Vec<Row>)
        ensures
            row_views(rows@) == self@.rows,
    {
        self.rows
    }

    /// Fetch next row: the row under the cursor, which then moves on by one;
    /// `None`, and no move, once every row has been handed out.
    pub fn next(&mut self) -> (row: Option<&Row>)
        ensures
            final(self)@.rows == old(self)@.rows,
            final(self)@.metadata == old(self)@.metadata,
            match row {
                Some(r) => {
                    &&& old(self)@.cursor < old(self)@.rows.len()
                    &&& r@ == old(self)@.rows[old(self)@.cursor as int]
                    &&& final(self)@.cursor == old(self)@.cursor + 1
                },
                None => {
                    &&& old(self)@.cursor >= old(self)@.rows.len()
                    &&& final(self)@.cursor == old(self)@.cursor
                },
            },
    {
        if self.current_row < self.rows.len() {
            let at: usize = self.current_row;
            self.current_row = at + 1;
            Some(&self.rows[at])
        } else {
            None
        }
    }

    /// Convert to typed results: one item for each row, in order, where
    /// every row is readable; the error of the first row that is not,
    /// otherwise.
    pub fn as_typed<T: FromRow>(&self) -> (r: Result<Vec<T>, Error>)
        ensures
            r matches Ok(items) ==> items@.len() == self@.rows.len(),
            T::obeys_from_row() ==> (r matches Ok(items) ==> forall|i: int|
                0 <= i < items@.len() ==> T::readable(#[trigger] self@.rows[i]) && T::reads(
                    self@.rows[i],
                    items@[i],
                )),
            T::obeys_from_row() ==> (r matches Err(e) ==> exists|k: int|
                0 <= k < self@.rows.len() && !T::readable(#[trigger] self@.rows[k])
                    && T::fails_with(self@.rows[k], e@) && forall|i: int|
                    0 <= i < k ==> T::readable(#[trigger] self@.rows[i])),
    {
        let mut items: Vec<T> = Vec::new();
        let mut i: usize = 0;
        while i < self.rows.len()
            invariant
                i <= self.rows@.len(),
                items@.len() == i,
                T::obeys_from_row() ==> forall|j: int|
                    0 <= j < i ==> T::readable(#[trigger] self@.rows[j]) && T::reads(
                        self@.rows[j],
                        items@[j],
                    ),
            decreases self.rows@.len() - i,
        {
            match T::from_row(&self.rows[i]) {
                Ok(item) => {
                    items.push(item);
                },
                Err(e) => {
                    assert(T::obeys_from_row() ==> !T::readable(self@.rows[i as int])
                        && T::fails_with(self@.rows[i as int], e@));
                    return Err(e);
                },
            }
            i += 1;
        }
        Ok(items)
    }
}

/// The models of the values that the parameters of `params` convert to, in
/// order: the value at position `i` is bound to the placeholder `:i+1`.
pub open spec fn bound_views(params: Seq<&dyn ToSql>) -> Seq<ValueView> {
    Seq::new(params.len(), |i: int| params[i].sql_value())
}

/// The bound values of each parameter set of `batch`, in order.
pub open spec fn bound_batch(batch: Seq<Vec<&dyn ToSql>>) -> Seq<Seq<ValueView>> {
    Seq::new(batch.len(), |i: int| bound_views(batch[i]@))
}

/// Whether every parameter of `params` converts as its `sql_value` says.
pub open spec fn all_obey(params: Seq<&dyn ToSql>) -> bool {
    forall|i: int| 0 <= i < params.len() ==> (#[trigger] params[i]).obeys_sql_value()
}

/// Whether every parameter of every set of `batch` converts as its
/// `sql_value` says.
pub open spec fn batch_obeys(batch: Seq<Vec<&dyn ToSql>>) -> bool {
    forall|i: int| 0 <= i < batch.len() ==> all_obey((#[trigger] batch[i])@)
}

/// Whether `values` are values that the parameters of `params` are bound
/// to: one value for each parameter, in their order, and for each parameter
/// that converts as its `sql_value` says, that value.
pub open spec fn binds(params: Seq<&dyn ToSql>, values: Seq<ValueView>) -> bool {
    &&& values.len() == params.len()
    &&& forall|i: int|
        0 <= i < params.len() && (#[trigger] params[i]).obeys_sql_value() ==> values[i]
            == params[i].sql_value()
}

/// Whether `batch` holds, for each parameter set of `batch_params` in their
/// order, values that the set is bound to.
pub open spec fn batch_binds(batch_params: Seq<Vec<&dyn ToSql>>, batch: Seq<Seq<ValueView>>) -> bool {
    &&& batch.len() == batch_params.len()
    &&& forall|i: int|
        0 <= i < batch_params.len() ==> binds((#[trigger] batch_params[i])@, batch[i])
}

/// Parameters that all convert as their `sql_value` says are bound to
/// exactly those values; and whatever the parameters, those values are
/// values that they can be bound to.
pub proof fn lemma_binds(params: Seq<&dyn ToSql>, values: Seq<ValueView>)
    ensures
        binds(params, bound_views(params)),
        all_obey(params) && binds(params, values) ==> values == bound_views(params),
{
    if all_obey(params) && binds(params, values) {
        assert(values =~= bound_views(params));
    }
}

/// Parameter sets whose parameters all convert as their `sql_value` says
/// are bound to exactly those values; and whatever the parameters, those
/// values are values that the sets can be bound to.
pub proof fn lemma_batch_binds(batch_params: Seq<Vec<&dyn ToSql>>, batch: Seq<Seq<ValueView>>)
    ensures
        batch_binds(batch_params, bound_batch(batch_params)),
        batch_obeys(batch_params) && batch_binds(batch_params, batch) ==> batch == bound_batch(
            batch_params,
        ),
{
    assert forall|i: int| 0 <= i < batch_params.len() implies binds(
        (#[trigger] batch_params[i])@,
        bound_batch(batch_params)[i],
    ) by {
        lemma_binds(batch_params[i]@, Seq::empty());
    }
    if batch_obeys(batch_params) && batch_binds(batch_params, batch) {
        assert forall|i: int| 0 <= i < batch.len() implies batch[i] == bound_batch(
            batch_params,
        )[i] by {
            assert(binds(batch_params[i]@, batch[i]));
            lemma_binds(batch_params[i]@, batch[i]);
        }
        assert(batch =~= bound_batch(batch_params));
    }
}

/// Convert parameters to values, in their order.
pub fn bind(params: &[&dyn ToSql]) -> (values: Vec<Value>)
    ensures
        binds(params@, value_views(values@)),
{
    let mut values: Vec<Value> = Vec::new();
    let mut i: usize = 0;
    while i < params.len()
        invariant
            i <= params@.len(),
            values@.len() == i,
            forall|j: int|
                0 <= j < i && (#[trigger] params@[j]).obeys_sql_value() ==> values@[j]@
                    == params@[j].sql_value(),
        decreases params@.len() - i,
    {
        values.push(params[i].to_sql());
        i += 1;
    }
    values
}

/// Prepared statement
pub struct Statement {
    sql: String,
    metadata: Option<Vec<ColumnInfo>>,
}

/// The model of a `Statement`.
pub struct StatementView {
    /// The text of the statement
    pub sql: Seq<char>,
    /// The column metadata, once it has been fetched
    pub metadata: Option<Seq<ColumnInfoView>>,
}

impl View for Statement {
    type V = StatementView;

    closed spec fn view(&self) -> StatementView {
        StatementView {
            sql: self.sql@,
            metadata: match self.metadata {
                Some(columns) => Some(column_views(columns@)),
                None => None,
            },
        }
    }
}

/// Whether `r` is the exec form of the outcome `expected` of a query: a
/// result set of the rows and the metadata, with its cursor before the first
/// row.
pub open spec fn is_result_set_outcome(
    r: Result<ResultSet, Error>,
    expected: Result<(Seq<RowView>, Seq<ColumnInfoView>), ErrorView>,
) -> bool {
    match expected {
        Ok(answer) => r matches Ok(set) && set@ == (ResultSetView {
            rows: answer.0,
            metadata: answer.1,
            cursor: 0,
        }),
        Err(ev) => r matches Err(e) && e@ == ev,
    }
}

/// Whether `r` is the exec form of the outcome `expected` of a batch.
pub open spec fn is_counts_outcome(
    r: Result<Vec<u64>, Error>,
    expected: Result<Seq<u64>, ErrorView>,
) -> bool {
    match expected {
        Ok(counts) => r matches Ok(got) && got@ == counts,
        Err(ev) => r matches Err(e) && e@ == ev,
    }
}

impl Statement {
    /// Create a new statement
    pub fn new(sql: &str) -> (statement: Self)
        ensures
            statement@ == (StatementView { sql: sql@, metadata: None }),
    {
        Statement { sql: String::from_str(sql), metadata: None }
    }

    /// Execute the statement on the session `protocol` and return results:
    /// the parameters are bound by position, and the session takes the step
    /// `SessionView::execute` with the values that they are bound to. The
    /// result is what the session answers for the statement: a result set
    /// with its cursor before the first row, or the error.
    pub fn execute(&self, protocol: &mut Protocol, params: &[&dyn ToSql]) -> (r: Result<
        ResultSet,
        Error,
    >)
        ensures
            is_result_set_outcome(r, old(protocol)@.answer(self@.sql)),
            exists|values: Seq<ValueView>| #[trigger]
                binds(params@, values) && final(protocol)@ == old(protocol)@.execute(
                    self@.sql,
                    values,
                ).0,
    {
        // Convert parameters to Values
        let values = bind(params);
        proof {
            lemma_answers_ignore_parameters(protocol@, self@.sql, value_views(values@));
        }
        // Execute statement through protocol
        match protocol.execute(self.sql.as_str(), values.as_slice()) {
            Ok(answer) => {
                let (rows, metadata) = answer;
                Ok(ResultSet { rows, metadata, current_row: 0 })
            },
            Err(e) => Err(e),
        }
    }

    /// Execute DML on the session `protocol` and return affected rows: the
    /// parameters are bound by position, and the session takes the step
    /// `SessionView::execute_dml` with the values that they are bound to.
    /// The result is what the session answers for the statement: the count,
    /// or the error.
    pub fn execute_dml(&self, protocol: &mut Protocol, params: &[&dyn ToSql]) -> (r: Result<
        u64,
        Error,
    >)
        ensures
            is_count_outcome(r, old(protocol)@.count_answer(self@.sql)),
            exists|values: Seq<ValueView>| #[trigger]
                binds(params@, values) && final(protocol)@ == old(protocol)@.execute_dml(
                    self@.sql,
                    values,
                ).0,
    {
        let values = bind(params);
        proof {
            lemma_answers_ignore_parameters(protocol@, self@.sql, value_views(values@));
        }
        protocol.execute_dml(self.sql.as_str(), values.as_slice())
    }

    /// Execute many statements with batch binding: the session takes the
    /// steps `SessionView::execute_many`, one call of `execute_dml` for each
    /// parameter set, in their order and with the values that the set is
    /// bound to, up to the first that fails. The result is one count for
    /// each set, in their order, or the error of the call that failed. What
    /// ran before a failure is not undone.
    pub fn execute_many(&self, protocol: &mut Protocol, batch_params: &[Vec<&dyn ToSql>]) -> (r:
        Result<Vec<u64>, Error>)
        ensures
            is_counts_outcome(
                r,
                old(protocol)@.batch_answer(self@.sql, batch_params@.len() as nat),
            ),
            r matches Ok(counts) ==> counts@.len() == batch_params@.len(),
            exists|batch: Seq<Seq<ValueView>>| #[trigger]
                batch_binds(batch_params@, batch) && final(protocol)@ == old(
                    protocol,
                )@.execute_many(self@.sql, batch).0 && is_counts_outcome(
                    r,
                    old(protocol)@.execute_many(self@.sql, batch).1,
                ),
    {
        let ghost start = protocol@;
        let ghost sql = self@.sql;
        let ghost mut done: Seq<Seq<ValueView>> = Seq::empty();
        let mut results: Vec<u64> = Vec::new();
        let mut i: usize = 0;
        while i < batch_params.len()
            invariant
                i <= batch_params@.len(),
                start == old(protocol)@,
                sql == self@.sql,
                done.len() == i,
                forall|j: int| 0 <= j < i ==> binds((#[trigger] batch_params@[j])@, done[j]),
                start.execute_many(sql, done) == (protocol@, Ok::<Seq<u64>, ErrorView>(results@)),
            decreases batch_params@.len() - i,
        {
            let ghost before = protocol@;
            let outcome = self.execute_dml(protocol, batch_params[i].as_slice());
            let ghost values = choose|values: Seq<ValueView>| #[trigger]
                binds(batch_params@[i as int]@, values) && protocol@ == before.execute_dml(
                    sql,
                    values,
                ).0;
            proof {
                lemma_answers_ignore_parameters(before, sql, values);
                assert(done.push(values).drop_last() == done);
                assert(done.push(values).last() == values);
            }
            match outcome {
                Ok(count) => {
                    results.push(count);
                    proof {
                        done = done.push(values);
                    }
                },
                Err(e) => {
                    proof {
                        let rest = Seq::new(
                            (batch_params@.len() - i - 1) as nat,
                            |j: int| bound_views(batch_params@[i + 1 + j]@),
                        );
                        let batch = done.push(values) + rest;
                        assert(batch.take(i + 1) == done.push(values));
                        lemma_execute_many_stops(start, sql, batch, i + 1);
                        assert forall|j: int| 0 <= j < batch_params@.len() implies binds(
                            (#[trigger] batch_params@[j])@,
                            batch[j],
                        ) by {
                            if j < i {
                                assert(batch[j] == done[j]);
                            } else if j == i {
                                assert(batch[j] == values);
                            } else {
                                assert(batch[j] == bound_views(batch_params@[j]@));
                                lemma_binds(batch_params@[j]@, Seq::empty());
                            }
                        }
                        assert(batch_binds(batch_params@, batch));
                        lemma_batch_answer(start, sql, batch);
                    }
                    return Err(e);
                },
            }
            i += 1;
        }
        proof {
            assert(batch_binds(batch_params@, done));
            lemma_batch_answer(start, sql, done);
        }
        Ok(results)
    }

    /// Get statement metadata: the cached copy where there is one, with no
    /// step of the session; else the session takes the step
    /// `SessionView::get_metadata`, and what it answers is cached.
    pub fn get_metadata(&mut self, protocol: &mut Protocol) -> (r: Result<&[ColumnInfo], Error>)
        ensures
            final(self)@.sql == old(self)@.sql,
            match old(self)@.metadata {
                Some(columns) => {
                    &&& final(protocol)@ == old(protocol)@
                    &&& final(self)@ == old(self)@
                    &&& r matches Ok(got) && column_views(got@) == columns
                },
                None => {
                    &&& final(protocol)@ == old(protocol)@.get_metadata(old(self)@.sql).0
                    &&& match old(protocol)@.get_metadata(old(self)@.sql).1 {
                        Ok(columns) => {
                            &&& final(self)@.metadata == Some(columns)
                            &&& r matches Ok(got) && column_views(got@) == columns
                        },
                        Err(ev) => {
                            &&& final(self)@ == old(self)@
                            &&& r matches Err(e) && e@ == ev
                        },
                    }
                },
            },
    {
        if self.metadata.is_none() {
            match protocol.get_metadata(self.sql.as_str()) {
                Ok(metadata) => {
                    self.metadata = Some(metadata);
                },
                Err(e) => {
                    return Err(e);
                },
            }
        }
        match &self.metadata {
            Some(columns) => Ok(columns.as_slice()),
            None => vstd::pervasive::unreached(),
        }
    }
}

} // verus!
