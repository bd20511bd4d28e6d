//! `ALTER TABLE ... DELETE WHERE key in (...)` statements.
use vstd::prelude::*;
use vstd::string::StringExecFns;

use crate::query::{all_bindable, bindings_of, is_bindable, Field, MutationError, Query};
use crate::text::{count_char, lemma_count_absent, lemma_count_concat, lemma_count_single};

verus! {

/// `n` placeholders separated by single commas: `?,?,...,?`.
pub open spec fn placeholder_list(n: nat) -> Seq<char>
    decreases n,
{
    if n == 0 {
        Seq::empty()
    } else if n == 1 {
        seq!['?']
    } else {
        placeholder_list((n - 1) as nat) + seq![',', '?']
    }
}

/// The text of a delete from `table` of the rows whose `pk` is one of `n` keys.
pub open spec fn delete_sql(table: Seq<char>, pk: Seq<char>, n: nat) -> Seq<char> {
    "ALTER TABLE "@ + table + " DELETE WHERE "@ + pk + " in ("@ + placeholder_list(n) + ")"@
}

/// `placeholder_list(n)` holds `n` placeholders: a `?` at each even
/// position and a single comma at each odd one.
proof fn lemma_placeholder_list(n: nat)
    ensures
        count_char(placeholder_list(n), '?') == n,
        n > 0 ==> placeholder_list(n).len() == 2 * n - 1,
        forall|i: int|
            0 <= i < placeholder_list(n).len() ==> #[trigger] placeholder_list(n)[i] == if i % 2
                == 0 {
                '?'
            } else {
                ','
            },
    decreases n,
{
    if n == 1 {
        lemma_count_single('?', '?');
    } else if n > 1 {
        let p = placeholder_list((n - 1) as nat);
        lemma_placeholder_list((n - 1) as nat);
        lemma_count_concat(p, seq![',', '?'], '?');
        assert(seq![',', '?'] =~= seq![','] + seq!['?']);
        lemma_count_concat(seq![','], seq!['?'], '?');
        lemma_count_single(',', '?');
        lemma_count_single('?', '?');
    }
}

/// A delete over a non-empty list of `n` keys, from a table and on a key
/// column whose names hold no `?`, has exactly `n` placeholders in its text:
/// one list of `?` separated by single commas, with no comma before the
/// first or after the last.
pub proof fn lemma_delete_placeholders(table: Seq<char>, pk: Seq<char>, n: nat)
    requires
        n > 0,
        !table.contains('?'),
        !pk.contains('?'),
    ensures
        count_char(delete_sql(table, pk, n), '?') == n,
        delete_sql(table, pk, n) == "ALTER TABLE "@ + table + " DELETE WHERE "@ + pk + " in ("@
            + placeholder_list(n) + ")"@,
        placeholder_list(n).len() == 2 * n - 1,
        forall|i: int|
            0 <= i < placeholder_list(n).len() ==> #[trigger] placeholder_list(n)[i] == if i % 2
                == 0 {
                '?'
            } else {
                ','
            },
{
    reveal_strlit("ALTER TABLE ");
    reveal_strlit(" DELETE WHERE ");
    reveal_strlit(" in (");
    reveal_strlit(")");
    let a = "ALTER TABLE "@;
    let b = " DELETE WHERE "@;
    let c = " in ("@;
    let d = ")"@;
    let p = placeholder_list(n);
    lemma_placeholder_list(n);
    lemma_count_absent(a, '?');
    lemma_count_absent(b, '?');
    lemma_count_absent(c, '?');
    lemma_count_absent(d, '?');
    lemma_count_absent(table, '?');
    lemma_count_absent(pk, '?');
    lemma_count_concat(a, table, '?');
    lemma_count_concat(a + table, b, '?');
    lemma_count_concat(a + table + b, pk, '?');
    lemma_count_concat(a + table + b + pk, c, '?');
    lemma_count_concat(a + table + b + pk + c, p, '?');
    lemma_count_concat(a + table + b + pk + c + p, d, '?');
}

/// A delete of the rows whose key column holds one of the given keys.
pub struct Delete {
    query: Query,
    delete_pk: Vec<Field>,
}

impl Delete {
    /// The statement text.
    pub closed spec fn statement(&self) -> Seq<char> {
        self.query@.sql
    }

    /// The keys to bind, in order.
    pub closed spec fn keys(&self) -> Seq<Field> {
        self.delete_pk@
    }

    /// Nothing is bound before the delete runs.
    #[verifier::type_invariant]
    closed spec fn unbound(&self) -> bool {
        self.query@.bindings.len() == 0
    }

    /// Builds `ALTER TABLE {table_name} DELETE WHERE {pk_name} in (?,...,?)`,
    /// with one placeholder for each key.
    pub fn new(table_name: &str, pk_name: &str, delete_pk: Vec<Field>) -> (r: Delete)
        ensures
            r.statement() == delete_sql(table_name@, pk_name@, delete_pk@.len()),
            r.keys() == delete_pk@,
    {
        let mut out = String::from_str("ALTER TABLE ");
        out.append(table_name);
        out.append(" DELETE WHERE ");
        out.append(pk_name);
        out.append(" in (");
        let ghost prefix = out@;
        let n = delete_pk.len();
        let mut i: usize = 0;
        proof {
            assert(out@ =~= prefix + placeholder_list(0));
        }
        while i < n
            invariant
                i <= n,
                out@ =~= prefix + placeholder_list(i as nat),
            decreases n - i,
        {
            proof {
                reveal_strlit(",");
                reveal_strlit("?");
            }
            if i > 0 {
                out.append(",");
            }
            out.append("?");
            assert(out@ =~= prefix + placeholder_list((i + 1) as nat));
            i = i + 1;
        }
        out.append(")");
        assert(out@ =~= delete_sql(table_name@, pk_name@, delete_pk@.len()));
        Delete { query: Query::new(out), delete_pk }
    }

    /// The statement text.
    pub fn sql(&self) -> (r: &str)
        ensures
            r@ == self.statement(),
    {
        self.query.sql()
    }

    /// Binds every key, in order, and hands back the statement ready to run.
    /// Fails, with nothing handed on, when a key is a nested sequence.
    pub fn delete(self) -> (r: Result<Query, MutationError>)
        ensures
            r is Ok <==> all_bindable(self.keys()),
            r matches Ok(q) ==> q@.sql == self.statement() && q@.bindings == bindings_of(self.keys()),
            r matches Err(e) ==> e == MutationError::UnsupportedValueKind,
    {
        proof {
            use_type_invariant(&self);
        }
        let Delete { mut query, delete_pk } = self;
        let mut i: usize = 0;
        while i < delete_pk.len()
            invariant
                i <= delete_pk@.len(),
                query@.sql == self.statement(),
                query@.bindings =~= bindings_of(delete_pk@.take(i as int)),
                all_bindable(delete_pk@.take(i as int)),
                delete_pk@ == self.keys(),
            decreases delete_pk@.len() - i,
        {
            let bound = delete_pk[i].bind_fields(&mut query);
            if bound.is_err() {
                assert(!is_bindable(delete_pk@[i as int]));
                return Err(MutationError::UnsupportedValueKind);
            }
            assert(delete_pk@.take(i + 1) =~= delete_pk@.take(i as int).push(delete_pk@[i as int]));
            i = i + 1;
        }
        assert(delete_pk@.take(i as int) =~= delete_pk@);
        Ok(query)
    }
}

} // verus!
