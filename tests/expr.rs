use std::rc::Rc;

use rust_query::builder::ValueBuilder;
use rust_query::expr::{assume_expr, into_expr, into_owned, new_column, Expr, Node, UnixEpoch};
use rust_query::sql::{Field, MyAlias, Source, SourceKind, SqlExpr};
use rust_query::typ::{from_sql, ColumnType, MyTyp, RawValue, TableRef, Value};

fn col(a: usize, name: &str) -> SqlExpr {
    SqlExpr::Column(MyAlias { id: a }, name.to_string())
}

fn opt(t: MyTyp) -> MyTyp {
    MyTyp::Nullable(Box::new(t))
}

fn table(name: &str) -> MyTyp {
    MyTyp::Table(TableRef::new(name, "id"))
}

/// What the storage engine keeps for a literal.
fn store(e: &SqlExpr) -> RawValue {
    match e {
        SqlExpr::Integer(i) => RawValue::Integer(*i),
        SqlExpr::Float(f) => RawValue::Real(*f),
        SqlExpr::Text(s) => RawValue::Text(s.clone()),
        SqlExpr::Blob(b) => RawValue::Blob(b.clone()),
        SqlExpr::Bool(b) => RawValue::Integer(if *b { 1 } else { 0 }),
        SqlExpr::Null(_) => RawValue::Null,
        _ => panic!("not a literal"),
    }
}

fn round_trip(v: Value, t: MyTyp) -> Value {
    let e = into_expr(v, &t, 0, 0);
    let mut b = ValueBuilder::new();
    let sql = e.build_expr(&mut b);
    assert_eq!(b.slots().len(), 0);
    from_sql(&t, store(&sql)).unwrap()
}

#[test]
fn absent_renders_typed_null() {
    let mut b = ValueBuilder::new();
    let e = into_expr(Value::Absent, &opt(MyTyp::Text), 0, 0);
    assert_eq!(e.build_expr(&mut b), SqlExpr::Null(ColumnType::String));
    let e = into_expr(Value::Absent, &opt(table("Album")), 0, 0);
    assert_eq!(e.build_expr(&mut b), SqlExpr::Null(ColumnType::Integer));
}

#[test]
fn present_renders_inner_literal() {
    let mut b = ValueBuilder::new();
    let v = Value::Present(Box::new(Value::Text("Metal".to_string())));
    let e = into_expr(v, &opt(MyTyp::Text), 0, 0);
    assert_eq!(e.build_expr(&mut b), SqlExpr::Text("Metal".to_string()));
}

#[test]
fn nullability_round_trip() {
    for t in [MyTyp::Integer, MyTyp::Float, MyTyp::Text, MyTyp::Blob, MyTyp::Bool, table("Album")] {
        assert_eq!(round_trip(Value::Absent, opt(t.copy())), Value::Absent);
    }
    let present = |v: Value| Value::Present(Box::new(v));
    assert_eq!(round_trip(present(Value::Integer(-3)), opt(MyTyp::Integer)), present(Value::Integer(-3)));
    let bits = 1.25f64.to_bits();
    assert_eq!(round_trip(present(Value::Float(bits)), opt(MyTyp::Float)), present(Value::Float(bits)));
    assert_eq!(
        round_trip(present(Value::Text("a".to_string())), opt(MyTyp::Text)),
        present(Value::Text("a".to_string()))
    );
    assert_eq!(round_trip(present(Value::Blob(vec![9])), opt(MyTyp::Blob)), present(Value::Blob(vec![9])));
    assert_eq!(round_trip(present(Value::Bool(true)), opt(MyTyp::Bool)), present(Value::Bool(true)));
    assert_eq!(round_trip(present(Value::Bool(false)), opt(MyTyp::Bool)), present(Value::Bool(false)));
    assert_eq!(round_trip(present(Value::Row(20)), opt(table("Track"))), present(Value::Row(20)));
    assert_eq!(round_trip(Value::Integer(1000), MyTyp::Integer), Value::Integer(1000));
}

#[test]
fn unix_epoch_renders_current_time() {
    let mut b = ValueBuilder::new();
    let e = UnixEpoch.into_expr(0, 0);
    assert_eq!(e.inner.typ, MyTyp::Integer);
    assert_eq!(e.build_expr(&mut b), SqlExpr::UnixEpoch);
}

#[test]
fn migrated_expression_renders_the_same() {
    let album = TableRef::new("Album", "id");
    let track = new_column(MyAlias { id: 0 }, "album".to_string(), MyTyp::Table(album), 1, 0);
    let title = track.field("title".to_string(), MyTyp::Text);
    let mut b1 = ValueBuilder::new();
    let _root = b1.new_alias();
    let original = title.build_expr(&mut b1);
    let migrated = Expr::_migrate(title.clone());
    assert_eq!(migrated.schema, 2);
    assert_eq!(migrated.inner.typ, MyTyp::Text);
    let mut b2 = ValueBuilder::new();
    let _root = b2.new_alias();
    assert_eq!(migrated.build_expr(&mut b2), original);
    assert_eq!(b1.slots(), b2.slots());
    let twice = Expr::_migrate(Expr::_migrate(title));
    let mut b3 = ValueBuilder::new();
    let _root = b3.new_alias();
    assert_eq!(twice.build_expr(&mut b3), original);
    assert_eq!(twice.schema, 3);
}

#[test]
fn clone_shares_the_node() {
    let e = into_expr(Value::Integer(60), &MyTyp::Integer, 0, 0);
    let c = e.clone();
    assert!(Rc::ptr_eq(&e.inner.node, &c.inner.node));
    let mut b = ValueBuilder::new();
    assert_eq!(c.build_expr(&mut b), SqlExpr::Integer(60));
}

#[test]
fn assume_renders_inner() {
    let e = new_column(MyAlias { id: 0 }, "composer".to_string(), opt(MyTyp::Text), 0, 0);
    let a = assume_expr(e);
    assert_eq!(a.inner.typ, MyTyp::Text);
    let mut b = ValueBuilder::new();
    assert_eq!(a.build_expr(&mut b), col(0, "composer"));
    let owned = into_owned(a);
    assert!(matches!(&*owned.node, Node::AdHoc(_)));
}

#[test]
fn table_reference_renders_as_join() {
    let mut b = ValueBuilder::new();
    let root = b.new_alias();
    let album = new_column(root, "album".to_string(), table("Album"), 0, 0);
    assert_eq!(album.build_table(&mut b), MyAlias { id: 1 });
    assert_eq!(album.build_table(&mut b), MyAlias { id: 1 });
    assert_eq!(b.slots().len(), 2);
}

/// Track -> Album -> Artist, read twice: once for the artist's name, once to
/// correlate an aggregate counting the artist's albums.
#[test]
fn chained_joins_and_aggregate_are_emitted_once() {
    let mut b = ValueBuilder::new();
    let track = b.new_alias();
    let album = new_column(track, "album".to_string(), table("Album"), 0, 0);
    let artist = album.field("artist".to_string(), table("Artist"));
    let artist_name = artist.field("name".to_string(), MyTyp::Text);

    let name_sql = artist_name.build_expr(&mut b);
    assert_eq!(name_sql, col(2, "name"));

    let correlation = artist.build_expr(&mut b);
    assert_eq!(correlation, col(1, "artist"));
    let query = "SELECT artist, COUNT(*) AS count FROM Album GROUP BY artist".to_string();
    let count = b.get_aggr(query.clone(), vec![(Field::Str("artist".to_string()), correlation)]);
    let again = artist.build_expr(&mut b);
    let count2 = b.get_aggr(query, vec![(Field::Str("artist".to_string()), again)]);
    assert_eq!(count, count2);
    assert_eq!(artist_name.build_expr(&mut b), name_sql);

    let slots = b.slots();
    assert_eq!(slots.len(), 4);
    assert_eq!(slots[0], None);
    let joins: Vec<&Source> = slots.iter().flatten().collect();
    let n_album = joins.iter().filter(|s| s.kind == SourceKind::Implicit("Album".to_string())).count();
    let n_artist = joins.iter().filter(|s| s.kind == SourceKind::Implicit("Artist".to_string())).count();
    let n_aggr = joins.iter().filter(|s| matches!(s.kind, SourceKind::Aggregate(_))).count();
    assert_eq!((n_album, n_artist, n_aggr), (1, 1, 1));
    assert_eq!(slots[1].as_ref().unwrap().conds, vec![(Field::Str("id".to_string()), col(0, "album"))]);
    assert_eq!(slots[2].as_ref().unwrap().conds, vec![(Field::Str("id".to_string()), col(1, "artist"))]);
    assert_eq!(slots[3].as_ref().unwrap().conds, vec![(Field::Str("artist".to_string()), col(1, "artist"))]);
}
