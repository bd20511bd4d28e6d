use clickhouse_mutation::delete::Delete;
use clickhouse_mutation::query::{Binding, Field, MutationError, Query};
use clickhouse_mutation::update::Update;

fn count_placeholders(s: &str) -> usize {
    s.chars().filter(|c| *c == '?').count()
}

fn names(cols: &[&str]) -> Vec<String> {
    cols.iter().map(|c| c.to_string()).collect()
}

#[test]
fn delete_text_for_three_keys() {
    let d = Delete::new("t", "k", vec![Field::U64(1), Field::U64(2), Field::U64(3)]);
    assert_eq!(d.sql(), "ALTER TABLE t DELETE WHERE k in (?,?,?)");
}

#[test]
fn update_text_for_two_columns() {
    let u = Update::new("t", "k", names(&["a", "b"]));
    assert_eq!(u.sql(), "ALTER TABLE t UPDATE a = ?,b = ? where k = ?");
}

#[test]
fn delete_placeholders_are_comma_separated() {
    for n in 1..20u64 {
        let keys: Vec<Field> = (0..n).map(Field::U64).collect();
        let d = Delete::new("test", "no", keys);
        let sql = d.sql();
        assert_eq!(count_placeholders(sql), n as usize);
        let open = sql.find('(').unwrap();
        let list = &sql[open + 1..sql.len() - 1];
        assert!(sql.ends_with(')'));
        assert!(!list.starts_with(','));
        assert!(!list.ends_with(','));
        assert!(list.split(',').all(|p| p == "?"));
        assert_eq!(list.split(',').count(), n as usize);
    }
}

#[test]
fn update_placeholders_one_per_column_and_one_for_key() {
    for m in 0..8usize {
        let cols: Vec<String> = (0..m).map(|i| format!("c{}", i)).collect();
        let u = Update::new("test", "no", cols);
        let sql = u.sql();
        assert_eq!(count_placeholders(sql), m + 1);
        let filter = sql.find(" where ").unwrap();
        assert_eq!(count_placeholders(&sql[..filter]), m);
        assert_eq!(&sql[filter..], " where no = ?");
        let assigned: Vec<String> = (0..m).map(|i| format!("c{} = ?", i)).collect();
        let sep = if m == 0 { "" } else { " " };
        let expected = format!("ALTER TABLE test UPDATE{}{} where no = ?", sep, assigned.join(","));
        assert_eq!(sql, expected);
    }
}

#[test]
fn delete_binds_keys_in_order() {
    let keys = vec![Field::I32(-4), Field::U8(9), Field::Bool(true), Field::Char('x')];
    let q = Delete::new("t", "k", keys).delete().unwrap();
    assert_eq!(
        q.bindings(),
        &vec![
            Binding::Ref(Field::I32(-4)),
            Binding::Ref(Field::U8(9)),
            Binding::Ref(Field::Bool(true)),
            Binding::Ref(Field::Char('x')),
        ]
    );
    assert_eq!(q.sql(), "ALTER TABLE t DELETE WHERE k in (?,?,?,?)");
}

#[test]
fn delete_scenario_fourteen_keys() {
    let mut keys: Vec<Field> = (0..10u64).map(Field::U64).collect();
    for k in [567u64, 545, 674, 873] {
        keys.push(Field::U64(k));
    }
    let d = Delete::new("test", "no", keys);
    assert_eq!(count_placeholders(d.sql()), 14);
    assert_eq!(
        d.sql(),
        "ALTER TABLE test DELETE WHERE no in (?,?,?,?,?,?,?,?,?,?,?,?,?,?)"
    );
    let q = d.delete().unwrap();
    let bound: Vec<u64> = q
        .bindings()
        .iter()
        .map(|b| match b {
            Binding::Ref(Field::U64(v)) => *v,
            _ => panic!("unexpected binding"),
        })
        .collect();
    assert_eq!(bound, vec![0, 1, 2, 3, 4, 5, 6, 7, 8, 9, 567, 545, 674, 873]);
}

#[test]
fn update_scenario_name_and_list() {
    let u = Update::new("test", "no", names(&["name", "list"]));
    assert_eq!(u.sql(), "ALTER TABLE test UPDATE name = ?,list = ? where no = ?");
    let q = u
        .update_fields(
            vec![
                Field::String("name1".to_string()),
                Field::Customize("[2,5,8]".to_string()),
            ],
            Field::U64(700),
        )
        .unwrap();
    assert_eq!(q.sql(), "ALTER TABLE test UPDATE name = ?,list = ? where no = ?");
    assert_eq!(
        q.bindings(),
        &vec![
            Binding::Ref(Field::String("name1".to_string())),
            Binding::Str("[2,5,8]".to_string()),
            Binding::Ref(Field::U64(700)),
        ]
    );
}

#[test]
fn literal_is_bound_as_raw_string() {
    let mut q = Query::new("SELECT ?".to_string());
    let f = Field::Customize("'it''s' [1, 2]".to_string());
    assert!(f.bind_fields(&mut q).is_ok());
    assert_eq!(q.bindings(), &vec![Binding::Str("'it''s' [1, 2]".to_string())]);
    assert_eq!(q.sql(), "SELECT ?");
}

#[test]
fn string_is_bound_by_reference() {
    let mut q = Query::new("SELECT ?".to_string());
    assert!(Field::String("[2,5,8]".to_string()).bind_fields(&mut q).is_ok());
    assert_eq!(q.bindings(), &vec![Binding::Ref(Field::String("[2,5,8]".to_string()))]);
}

#[test]
fn every_scalar_kind_binds_once() {
    let values = vec![
        Field::Bool(false),
        Field::I8(-8),
        Field::I16(-16),
        Field::I32(-32),
        Field::I64(-64),
        Field::I128(-128),
        Field::U8(8),
        Field::U16(16),
        Field::U32(32),
        Field::U64(64),
        Field::U128(128),
        Field::F32(1.5f32.to_bits()),
        Field::F64(2.25f64.to_bits()),
        Field::Char('z'),
        Field::String("s".to_string()),
        Field::Date(19000),
        Field::Date32(-1000),
        Field::DateTime(1_300_000_000),
        Field::DateTime64(1_200_000_000_000),
    ];
    let n = values.len();
    let q = Delete::new("t", "k", values).delete().unwrap();
    assert_eq!(q.bindings().len(), n);
    assert_eq!(q.bindings()[11], Binding::Ref(Field::F32(1.5f32.to_bits())));
    assert_eq!(q.bindings()[12], Binding::Ref(Field::F64(2.25f64.to_bits())));
    assert_eq!(q.bindings()[18], Binding::Ref(Field::DateTime64(1_200_000_000_000)));
    assert!(q.bindings().iter().all(|b| matches!(b, Binding::Ref(_))));
}

#[test]
fn sequence_is_refused_by_bind() {
    let mut q = Query::new("SELECT ?".to_string());
    let r = Field::Vec(vec![Field::U8(1)]).bind_fields(&mut q);
    assert_eq!(r, Err(MutationError::UnsupportedValueKind));
    assert!(q.bindings().is_empty());
}

#[test]
fn sequence_key_fails_delete() {
    let d = Delete::new("t", "k", vec![Field::U64(1), Field::Vec(vec![]), Field::U64(2)]);
    assert!(matches!(d.delete(), Err(MutationError::UnsupportedValueKind)));
}

#[test]
fn sequence_value_fails_update() {
    let u = Update::new("t", "k", names(&["a", "b"]));
    let r = u.update_fields(vec![Field::U8(1), Field::Vec(vec![Field::U8(2)])], Field::U64(3));
    assert!(matches!(r, Err(MutationError::UnsupportedValueKind)));
}

#[test]
fn sequence_key_fails_update() {
    let u = Update::new("t", "k", names(&["a"]));
    let r = u.update_fields(vec![Field::U8(1)], Field::Vec(vec![]));
    assert!(matches!(r, Err(MutationError::UnsupportedValueKind)));
}

#[test]
fn too_few_values_fail_update() {
    let u = Update::new("t", "k", names(&["a", "b"]));
    let r = u.update_fields(vec![Field::U8(1)], Field::U64(3));
    assert!(matches!(
        r,
        Err(MutationError::ColumnCountMismatch { expected: 2, found: 1 })
    ));
}

#[test]
fn too_many_values_fail_update() {
    let u = Update::new("t", "k", names(&["a"]));
    let r = u.update_fields(vec![Field::U8(1), Field::U8(2), Field::U8(3)], Field::U64(3));
    assert!(matches!(
        r,
        Err(MutationError::ColumnCountMismatch { expected: 1, found: 3 })
    ));
}

#[test]
fn count_mismatch_is_reported_before_sequence() {
    let u = Update::new("t", "k", names(&["a", "b"]));
    let r = u.update_fields(vec![Field::Vec(vec![])], Field::U64(3));
    assert!(matches!(
        r,
        Err(MutationError::ColumnCountMismatch { expected: 2, found: 1 })
    ));
}

#[test]
fn empty_key_list_gives_empty_in_clause() {
    let d = Delete::new("t", "k", vec![]);
    assert_eq!(d.sql(), "ALTER TABLE t DELETE WHERE k in ()");
    let q = d.delete().unwrap();
    assert!(q.bindings().is_empty());
}

#[test]
fn update_without_columns_binds_only_key() {
    let u = Update::new("t", "k", vec![]);
    assert_eq!(u.sql(), "ALTER TABLE t UPDATE where k = ?");
    let q = u.update_fields(vec![], Field::I64(-1)).unwrap();
    assert_eq!(q.bindings(), &vec![Binding::Ref(Field::I64(-1))]);
}

#[test]
fn update_binds_values_then_key() {
    let u = Update::new("tbl", "id", names(&["x", "y", "z"]));
    let q = u
        .update_fields(
            vec![Field::I8(3), Field::Date(2), Field::Customize("now()".to_string())],
            Field::U32(77),
        )
        .unwrap();
    assert_eq!(q.sql(), "ALTER TABLE tbl UPDATE x = ?,y = ?,z = ? where id = ?");
    assert_eq!(
        q.bindings(),
        &vec![
            Binding::Ref(Field::I8(3)),
            Binding::Ref(Field::Date(2)),
            Binding::Str("now()".to_string()),
            Binding::Ref(Field::U32(77)),
        ]
    );
}

#[test]
fn query_binds_through_its_own_methods() {
    let mut q = Query::new("SELECT ?, ?".to_string());
    q.bind_ref(Field::U16(5));
    q.bind_str("raw".to_string());
    assert_eq!(
        q.bindings(),
        &vec![Binding::Ref(Field::U16(5)), Binding::Str("raw".to_string())]
    );
}
