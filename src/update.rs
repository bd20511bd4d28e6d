//! `ALTER TABLE ... UPDATE col = ?,... where key = ?` statements.
use vstd::prelude::*;
use vstd::string::StringExecFns;

use crate::query::{
    all_bindable, binding_of, bindings_of, is_bindable, Field, MutationError, Query,
};
use crate::text::{count_char, lemma_count_absent, lemma_count_concat, lemma_count_single};

verus! {

/// The text that assigns a placeholder to column `col`, the `i`-th target:
/// `col = ?`, after a space for the first and after a comma for the others.
pub open spec fn assignment(i: int, col: Seq<char>) -> Seq<char> {
    (if i > 0 {
        ","@
    } else {
        " "@
    }) + col + " = ?"@
}

/// The assignments of all target columns, in order.
pub open spec fn assignments(cols: Seq<Seq<char>>) -> Seq<char>
    decreases cols.len(),
{
    if cols.len() == 0 {
        Seq::empty()
    } else {
        assignments(cols.drop_last()) + assignment(cols.len() - 1, cols.last())
    }
}

/// The text of an update of columns `cols` of `table`, on the row whose
/// `pk` equals a key.
pub open spec fn update_sql(table: Seq<char>, pk: Seq<char>, cols: Seq<Seq<char>>) -> Seq<char> {
    "ALTER TABLE "@ + table + " UPDATE"@ + assignments(cols) + " where "@ + pk + " = ?"@
}

/// The text of each name.
pub open spec fn names_of(names: Seq<String>) -> Seq<Seq<char>> {
    names.map_values(|s: String| s@)
}

/// ` = ?` holds one placeholder.
proof fn lemma_count_assign_tail()
    ensures
        count_char(" = ?"@, '?') == 1,
{
    reveal_strlit(" = ?");
    let head = seq![' ', '=', ' '];
    assert(" = ?"@ =~= head + seq!['?']);
    lemma_count_absent(head, '?');
    lemma_count_single('?', '?');
    lemma_count_concat(head, seq!['?'], '?');
}

/// An assignment to a column whose name holds no `?` holds one placeholder.
proof fn lemma_assignment_count(i: int, col: Seq<char>)
    requires
        !col.contains('?'),
    ensures
        count_char(assignment(i, col), '?') == 1,
{
    reveal_strlit(",");
    reveal_strlit(" ");
    let sep: Seq<char> = if i > 0 {
        ","@
    } else {
        " "@
    };
    lemma_count_absent(sep, '?');
    lemma_count_absent(col, '?');
    lemma_count_assign_tail();
    lemma_count_concat(sep, col, '?');
    lemma_count_concat(sep + col, " = ?"@, '?');
}

/// The assignments of `cols`, none of whose names holds `?`, hold one
/// placeholder for each column.
proof fn lemma_assignments_count(cols: Seq<Seq<char>>)
    requires
        forall|i: int| 0 <= i < cols.len() ==> !(#[trigger] cols[i]).contains('?'),
    ensures
        count_char(assignments(cols), '?') == cols.len(),
    decreases cols.len(),
{
    if cols.len() > 0 {
        let rest = cols.drop_last();
        assert forall|i: int| 0 <= i < rest.len() implies !(#[trigger] rest[i]).contains('?') by {
            assert(rest[i] == cols[i]);
        }
        lemma_assignments_count(rest);
        lemma_assignment_count(cols.len() - 1, cols.last());
        lemma_count_concat(assignments(rest), assignment(cols.len() - 1, cols.last()), '?');
    }
}

/// An update of `m` target columns, where neither the table, the key column
/// nor any target column has a `?` in its name, has exactly `m + 1`
/// placeholders in its text: one in the assignment of each target column,
/// in the order of the columns, and the last in the key filter.
pub proof fn lemma_update_placeholders(table: Seq<char>, pk: Seq<char>, cols: Seq<Seq<char>>)
    requires
        !table.contains('?'),
        !pk.contains('?'),
        forall|i: int| 0 <= i < cols.len() ==> !(#[trigger] cols[i]).contains('?'),
    ensures
        count_char(update_sql(table, pk, cols), '?') == cols.len() + 1,
        update_sql(table, pk, cols) == "ALTER TABLE "@ + table + " UPDATE"@ + assignments(cols)
            + (" where "@ + pk + " = ?"@),
        count_char(assignments(cols), '?') == cols.len(),
        forall|i: int|
            0 <= i < cols.len() ==> count_char(#[trigger] assignment(i, cols[i]), '?') == 1,
        count_char(" where "@ + pk + " = ?"@, '?') == 1,
{
    reveal_strlit("ALTER TABLE ");
    reveal_strlit(" UPDATE");
    reveal_strlit(" where ");
    let a = "ALTER TABLE "@;
    let b = " UPDATE"@;
    let w = " where "@;
    let t = " = ?"@;
    let asg = assignments(cols);
    assert forall|i: int| 0 <= i < cols.len() implies count_char(
        #[trigger] assignment(i, cols[i]),
        '?',
    ) == 1 by {
        lemma_assignment_count(i, cols[i]);
    }
    lemma_assignments_count(cols);
    lemma_count_assign_tail();
    lemma_count_absent(a, '?');
    lemma_count_absent(b, '?');
    lemma_count_absent(w, '?');
    lemma_count_absent(table, '?');
    lemma_count_absent(pk, '?');
    lemma_count_concat(w, pk, '?');
    lemma_count_concat(w + pk, t, '?');
    lemma_count_concat(a, table, '?');
    lemma_count_concat(a + table, b, '?');
    lemma_count_concat(a + table + b, asg, '?');
    lemma_count_concat(a + table + b + asg, w + pk + t, '?');
    assert(a + table + b + asg + w + pk + t =~= a + table + b + asg + (w + pk + t));
}

/// An update of some columns of the row with a given key.
pub struct Update {
    query: Query,
    n_fields: usize,
}

impl Update {
    /// The statement text.
    pub closed spec fn statement(&self) -> Seq<char> {
        self.query@.sql
    }

    /// How many target columns the statement assigns.
    pub closed spec fn column_count(&self) -> nat {
        self.n_fields as nat
    }

    /// Nothing is bound before the update runs.
    #[verifier::type_invariant]
    closed spec fn unbound(&self) -> bool {
        self.query@.bindings.len() == 0
    }

    /// Builds `ALTER TABLE {table_name} UPDATE {c1} = ?,{c2} = ?,... where {pk_name} = ?`,
    /// with one placeholder for each target column and a last one for the key.
    pub fn new(table_name: &str, pk_name: &str, field_names: Vec<String>) -> (r: Update)
        ensures
            r.statement() == update_sql(table_name@, pk_name@, names_of(field_names@)),
            r.column_count() == field_names@.len(),
    {
        let mut out = String::from_str("ALTER TABLE ");
        out.append(table_name);
        out.append(" UPDATE");
        let ghost prefix = out@;
        let ghost cols = names_of(field_names@);
        let mut i: usize = 0;
        assert(out@ =~= prefix + assignments(cols.take(0)));
        while i < field_names.len()
            invariant
                i <= field_names@.len(),
                cols == names_of(field_names@),
                out@ =~= prefix + assignments(cols.take(i as int)),
            decreases field_names@.len() - i,
        {
            let ghost before = out@;
            if i > 0 {
                out.append(",");
            } else {
                out.append(" ");
            }
            out.append(field_names[i].as_str());
            out.append(" = ?");
            assert(cols.take(i + 1).drop_last() =~= cols.take(i as int));
            assert(out@ =~= before + assignment(i as int, cols[i as int]));
            i = i + 1;
        }
        assert(cols.take(i as int) =~= cols);
        out.append(" where ");
        out.append(pk_name);
        out.append(" = ?");
        assert(out@ =~= update_sql(table_name@, pk_name@, cols));
        Update { query: Query::new(out), n_fields: field_names.len() }
    }

    /// The statement text.
    pub fn sql(&self) -> (r: &str)
        ensures
            r@ == self.statement(),
    {
        self.query.sql()
    }

    /// Binds `fields` in order and then `pk`, and hands back the statement
    /// ready to run. Fails, with nothing handed on, when the number of values
    /// is not the number of target columns, or else when a value is a nested
    /// sequence.
    pub fn update_fields(self, fields: Vec<Field>, pk: Field) -> (r: Result<Query, MutationError>)
        ensures
            fields@.len() != self.column_count() ==> r == Err::<Query, MutationError>(
                MutationError::ColumnCountMismatch {
                    expected: self.column_count() as usize,
                    found: fields@.len() as usize,
                },
            ),
            fields@.len() == self.column_count() ==> (r is Ok <==> all_bindable(fields@)
                && is_bindable(pk)),
            fields@.len() == self.column_count() && r is Err ==> r == Err::<Query, MutationError>(
                MutationError::UnsupportedValueKind,
            ),
            r matches Ok(q) ==> q@.sql == self.statement() && q@.bindings == bindings_of(
                fields@,
            ).push(binding_of(pk)),
    {
        proof {
            use_type_invariant(&self);
        }
        let Update { mut query, n_fields } = self;
        if fields.len() != n_fields {
            return Err(MutationError::ColumnCountMismatch { expected: n_fields, found: fields.len() });
        }
        let mut i: usize = 0;
        while i < fields.len()
            invariant
                i <= fields@.len(),
                fields@.len() == self.column_count(),
                query@.sql == self.statement(),
                query@.bindings =~= bindings_of(fields@.take(i as int)),
                all_bindable(fields@.take(i as int)),
            decreases fields@.len() - i,
        {
            let bound = fields[i].bind_fields(&mut query);
            if bound.is_err() {
                assert(!is_bindable(fields@[i as int]));
                return Err(MutationError::UnsupportedValueKind);
            }
            assert(fields@.take(i + 1) =~= fields@.take(i as int).push(fields@[i as int]));
            i = i + 1;
        }
        assert(fields@.take(i as int) =~= fields@);
        let bound = pk.bind_fields(&mut query);
        if bound.is_err() {
            return Err(MutationError::UnsupportedValueKind);
        }
        Ok(query)
    }
}

} // verus!
