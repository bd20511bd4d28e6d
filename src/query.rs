//! Bindable values and the statement handle that collects them.
use vstd::prelude::*;

verus! {

/// Every kind of value that a mutation statement can bind.
#[derive(Debug, PartialEq, Eq)]
pub enum Field {
    Bool(bool),
    I8(i8),
    I16(i16),
    I32(i32),
    I64(i64),
    I128(i128),
    U8(u8),
    U16(u16),
    U32(u32),
    U64(u64),
    U128(u128),
    /// A 32-bit float, held as its IEEE-754 bit pattern.
    F32(u32),
    /// A 64-bit float, held as its IEEE-754 bit pattern.
    F64(u64),
    Char(char),
    String(String),
    /// A nested sequence: no binding is defined for it.
    Vec(Vec<Field>),
    /// Days since the epoch, 16 bits wide.
    Date(u16),
    /// Days since the epoch, signed and 32 bits wide.
    Date32(i32),
    /// Seconds since the epoch.
    DateTime(u32),
    /// Scaled sub-second ticks since the epoch.
    DateTime64(i64),
    /// Text handed to the store as it stands (for instance `[2,5,8]`).
    Customize(String),
}

/// One value handed to the statement handle, in placeholder order.
#[derive(Debug, PartialEq, Eq)]
pub enum Binding {
    /// A scalar bound by reference, in its own wire type.
    Ref(Field),
    /// A string bound by value, without any escaping.
    Str(String),
}

/// Errors of the mutation builders.
#[derive(Debug, PartialEq, Eq)]
pub enum MutationError {
    /// A nested sequence reached the bind step.
    UnsupportedValueKind,
    /// An update got another number of values than it has target columns.
    ColumnCountMismatch { expected: usize, found: usize },
    /// The transport failed while executing the statement.
    Transport(String),
}

/// Whether a binding is defined for `f`.
pub open spec fn is_bindable(f: Field) -> bool {
    !(f is Vec)
}

/// The binding that `f` becomes: a raw string for `Customize`, the value
/// itself, by reference, for every other bindable kind.
pub open spec fn binding_of(f: Field) -> Binding {
    match f {
        Field::Customize(s) => Binding::Str(s),
        _ => Binding::Ref(f),
    }
}

/// Whether every value of `fs` can be bound.
pub open spec fn all_bindable(fs: Seq<Field>) -> bool {
    forall|i: int| 0 <= i < fs.len() ==> is_bindable(#[trigger] fs[i])
}

/// The bindings that `fs` becomes, in order.
pub open spec fn bindings_of(fs: Seq<Field>) -> Seq<Binding> {
    fs.map_values(|f: Field| binding_of(f))
}

/// What a statement handle holds: its text and the values bound so far.
pub struct QueryModel {
    pub sql: Seq<char>,
    pub bindings: Seq<Binding>,
}

/// A prepared statement: its text, and the values bound to it in order.
pub struct Query {
    sql: String,
    bindings: Vec<Binding>,
}

impl View for Query {
    type V = QueryModel;

    closed spec fn view(&self) -> QueryModel {
        QueryModel { sql: self.sql@, bindings: self.bindings@ }
    }
}

impl Query {
    /// A statement with text `sql` and nothing bound yet.
    pub fn new(sql: String) -> (r: Query)
        ensures
            r@.sql == sql@,
            r@.bindings == Seq::<Binding>::empty(),
    {
        Query { sql, bindings: Vec::new() }
    }

    /// The statement text.
    pub fn sql(&self) -> (r: &str)
        ensures
            r@ == self@.sql,
    {
        self.sql.as_str()
    }

    /// The values bound so far, in placeholder order.
    pub fn bindings(&self) -> (r: &Vec<Binding>)
        ensures
            r@ == self@.bindings,
    {
        &self.bindings
    }

    /// Binds a scalar to the next placeholder.
    pub fn bind_ref(&mut self, v: Field)
        requires
            is_bindable(v),
            !(v is Customize),
        ensures
            final(self)@.sql == old(self)@.sql,
            final(self)@.bindings == old(self)@.bindings.push(Binding::Ref(v)),
    {
        self.bindings.push(Binding::Ref(v));
    }

    /// Binds a string, as it stands, to the next placeholder.
    pub fn bind_str(&mut self, s: String)
        ensures
            final(self)@.sql == old(self)@.sql,
            final(self)@.bindings == old(self)@.bindings.push(Binding::Str(s)),
    {
        self.bindings.push(Binding::Str(s));
    }
}

impl Field {
    /// Binds this value to the next placeholder of `query`: a `Customize`
    /// value as a raw string, any other scalar by reference. A nested
    /// sequence is refused and leaves `query` as it was.
    pub fn bind_fields(&self, query: &mut Query) -> (r: Result<(), MutationError>)
        ensures
            final(query)@.sql == old(query)@.sql,
            is_bindable(*self) ==> r is Ok && final(query)@.bindings == old(query)@.bindings.push(
                binding_of(*self),
            ),
            !is_bindable(*self) ==> r == Err::<(), MutationError>(MutationError::UnsupportedValueKind)
                && final(query)@.bindings == old(query)@.bindings,
            self is Customize ==> final(query)@.bindings.last() == Binding::Str(self->Customize_0),
    {
        match self {
            Field::Bool(v) => query.bind_ref(Field::Bool(*v)),
            Field::I8(v) => query.bind_ref(Field::I8(*v)),
            Field::I16(v) => query.bind_ref(Field::I16(*v)),
            Field::I32(v) => query.bind_ref(Field::I32(*v)),
            Field::I64(v) => query.bind_ref(Field::I64(*v)),
            Field::I128(v) => query.bind_ref(Field::I128(*v)),
            Field::U8(v) => query.bind_ref(Field::U8(*v)),
            Field::U16(v) => query.bind_ref(Field::U16(*v)),
            Field::U32(v) => query.bind_ref(Field::U32(*v)),
            Field::U64(v) => query.bind_ref(Field::U64(*v)),
            Field::U128(v) => query.bind_ref(Field::U128(*v)),
            Field::F32(v) => query.bind_ref(Field::F32(*v)),
            Field::F64(v) => query.bind_ref(Field::F64(*v)),
            Field::Char(v) => query.bind_ref(Field::Char(*v)),
            Field::String(v) => query.bind_ref(Field::String(v.clone())),
            Field::Vec(_) => {
                return Err(MutationError::UnsupportedValueKind);
            },
            Field::Customize(v) => query.bind_str(v.clone()),
            Field::Date(v) => query.bind_ref(Field::Date(*v)),
            Field::Date32(v) => query.bind_ref(Field::Date32(*v)),
            Field::DateTime(v) => query.bind_ref(Field::DateTime(*v)),
            Field::DateTime64(v) => query.bind_ref(Field::DateTime64(*v)),
        }
        Ok(())
    }
}

} // verus!
