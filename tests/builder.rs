use rust_query::builder::ValueBuilder;
use rust_query::sql::{Field, MyAlias, Source, SourceKind, SqlExpr};
use rust_query::typ::TableRef;

fn col(a: usize, name: &str) -> SqlExpr {
    SqlExpr::Column(MyAlias { id: a }, name.to_string())
}

#[test]
fn join_is_deduplicated() {
    let mut b = ValueBuilder::new();
    let album = TableRef::new("Album", "id");
    let a1 = b.get_join(&album, SqlExpr::Integer(7));
    let a2 = b.get_join(&album, SqlExpr::Integer(7));
    let a3 = b.get_join(&album, SqlExpr::Integer(7));
    assert_eq!(a1, a2);
    assert_eq!(a2, a3);
    assert_eq!(b.slots().len(), 1);
    let expected = Source {
        kind: SourceKind::Implicit("Album".to_string()),
        conds: vec![(Field::Str("id".to_string()), SqlExpr::Integer(7))],
    };
    assert_eq!(b.slots()[0], Some(expected));
}

#[test]
fn distinct_sources_get_increasing_aliases() {
    let mut b = ValueBuilder::new();
    let root = b.new_alias();
    let album = TableRef::new("Album", "id");
    let artist = TableRef::new("Artist", "id");
    let a1 = b.get_join(&album, col(root.id, "album"));
    let a2 = b.get_join(&album, col(root.id, "other_album"));
    let a3 = b.get_join(&artist, col(root.id, "album"));
    let a4 = b.get_aggr("SELECT COUNT(*) FROM Album".to_string(), vec![]);
    assert_eq!(root, MyAlias { id: 0 });
    assert_eq!(a1, MyAlias { id: 1 });
    assert_eq!(a2, MyAlias { id: 2 });
    assert_eq!(a3, MyAlias { id: 3 });
    assert_eq!(a4, MyAlias { id: 4 });
    assert_eq!(b.slots()[0], None);
    assert_eq!(b.slots().len(), 5);
}

#[test]
fn aggregate_is_deduplicated() {
    let mut b = ValueBuilder::new();
    let conds = || vec![(Field::Str("artist".to_string()), col(0, "artist"))];
    let q = "SELECT artist, COUNT(*) FROM Album GROUP BY artist";
    let a1 = b.get_aggr(q.to_string(), conds());
    let a2 = b.get_aggr(q.to_string(), conds());
    let a3 = b.get_aggr(q.to_string(), vec![(Field::Str("artist".to_string()), col(1, "artist"))]);
    assert_eq!(a1, a2);
    assert_ne!(a1, a3);
    assert_eq!(b.slots().len(), 2);
}

#[test]
fn join_and_aggregate_do_not_share() {
    let mut b = ValueBuilder::new();
    let a1 = b.get_aggr("Album".to_string(), vec![(Field::Str("id".to_string()), SqlExpr::Integer(1))]);
    let a2 = b.get_join(&TableRef::new("Album", "id"), SqlExpr::Integer(1));
    assert_ne!(a1, a2);
}

#[test]
fn unique_lookup_shares_the_join() {
    let mut b = ValueBuilder::new();
    let genre = TableRef::new("Genre", "id");
    let e = b.get_unique(&genre, vec![("name".to_string(), SqlExpr::Text("Metal".to_string()))]);
    assert_eq!(e, col(0, "id"));
    let e2 = b.get_unique(&genre, vec![("name".to_string(), SqlExpr::Text("Metal".to_string()))]);
    assert_eq!(e2, col(0, "id"));
    let by_id = b.get_join(&genre, SqlExpr::Text("Metal".to_string()));
    assert_eq!(by_id, MyAlias { id: 1 });
    let same = b.get_unique(&genre, vec![("id".to_string(), SqlExpr::Text("Metal".to_string()))]);
    assert_eq!(same, col(1, "id"));
    assert_eq!(b.slots().len(), 2);
}

#[test]
fn condition_order_matters() {
    let mut b = ValueBuilder::new();
    let t = TableRef::new("Customer", "id");
    let c1 = vec![("first".to_string(), SqlExpr::Integer(1)), ("second".to_string(), SqlExpr::Integer(2))];
    let c2 = vec![("second".to_string(), SqlExpr::Integer(2)), ("first".to_string(), SqlExpr::Integer(1))];
    let e1 = b.get_unique(&t, c1);
    let e2 = b.get_unique(&t, c2);
    assert_ne!(e1, e2);
}

#[test]
fn structural_equality_of_expressions() {
    assert!(SqlExpr::Blob(vec![1, 2]).same(&SqlExpr::Blob(vec![1, 2])));
    assert!(!SqlExpr::Blob(vec![1, 2]).same(&SqlExpr::Blob(vec![1, 3])));
    assert!(!SqlExpr::Integer(1).same(&SqlExpr::Bool(true)));
    assert!(col(2, "name").same(&col(2, "name")));
    assert!(!col(2, "name").same(&col(3, "name")));
}
