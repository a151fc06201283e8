//! The scalar SQL expressions that rendering produces, and the source
//! specifications (joins and aggregate subqueries) that are deduplicated.
use vstd::prelude::*;

use crate::typ::ColumnType;

verus! {

/// A generated SQL identifier naming a joined table or a subquery.
#[derive(Clone, Copy, Debug, PartialEq, Eq, Structural)]
pub struct MyAlias {
    pub id: usize,
}

/// A column of a source: by name, or by a generated alias.
#[derive(Debug, PartialEq, Eq)]
pub enum Field {
    Str(String),
    U64(MyAlias),
}

/// A scalar SQL expression. A float literal is held as the bits of its IEEE 754 double.
#[derive(Debug, PartialEq, Eq)]
pub enum SqlExpr {
    Integer(i64),
    Float(u64),
    Text(String),
    Blob(Vec<u8>),
    Bool(bool),
    /// NULL typed with the storage category of the column it stands for.
    Null(ColumnType),
    /// A column of the source with the given alias.
    Column(MyAlias, String),
    /// The current time as a unix timestamp.
    UnixEpoch,
}

/// The kind of a source: an implicit join against a named table, or an
/// aggregate subquery given by its statement text.
#[derive(Debug, PartialEq, Eq)]
pub enum SourceKind {
    Implicit(String),
    Aggregate(String),
}

/// A join or aggregate subquery with its conditions: the key under which
/// the builder context hands out aliases.
#[derive(Debug, PartialEq, Eq)]
pub struct Source {
    pub kind: SourceKind,
    pub conds: Vec<(Field, SqlExpr)>,
}

pub enum FieldModel {
    Str(Seq<char>),
    U64(nat),
}

/// A `SqlExpr` with strings and bytes as sequences; equal models are
/// structurally equal expressions.
pub enum SqlModel {
    Integer(i64),
    Float(u64),
    Text(Seq<char>),
    Blob(Seq<u8>),
    Bool(bool),
    Null(ColumnType),
    Column(nat, Seq<char>),
    UnixEpoch,
}

pub enum KindModel {
    Implicit(Seq<char>),
    Aggregate(Seq<char>),
}

pub struct SourceModel {
    pub kind: KindModel,
    pub conds: Seq<(FieldModel, SqlModel)>,
}

impl View for Field {
    type V = FieldModel;

    open spec fn view(&self) -> FieldModel {
        match self {
            Field::Str(s) => FieldModel::Str(s@),
            Field::U64(a) => FieldModel::U64(a.id as nat),
        }
    }
}

impl View for SqlExpr {
    type V = SqlModel;

    open spec fn view(&self) -> SqlModel {
        match self {
            SqlExpr::Integer(i) => SqlModel::Integer(*i),
            SqlExpr::Float(f) => SqlModel::Float(*f),
            SqlExpr::Text(s) => SqlModel::Text(s@),
            SqlExpr::Blob(b) => SqlModel::Blob(b@),
            SqlExpr::Bool(b) => SqlModel::Bool(*b),
            SqlExpr::Null(c) => SqlModel::Null(*c),
            SqlExpr::Column(a, n) => SqlModel::Column(a.id as nat, n@),
            SqlExpr::UnixEpoch => SqlModel::UnixEpoch,
        }
    }
}

impl View for SourceKind {
    type V = KindModel;

    open spec fn view(&self) -> KindModel {
        match self {
            SourceKind::Implicit(t) => KindModel::Implicit(t@),
            SourceKind::Aggregate(q) => KindModel::Aggregate(q@),
        }
    }
}

pub open spec fn cond_model(c: (Field, SqlExpr)) -> (FieldModel, SqlModel) {
    (c.0@, c.1@)
}

impl View for Source {
    type V = SourceModel;

    open spec fn view(&self) -> SourceModel {
        SourceModel { kind: self.kind@, conds: self.conds@.map_values(|c| cond_model(c)) }
    }
}

fn eq_str(a: &String, b: &String) -> (r: bool)
    ensures
        r == (a@ == b@),
{
    a.eq(b)
}

fn eq_bytes(a: &Vec<u8>, b: &Vec<u8>) -> (r: bool)
    ensures
        r == (a@ == b@),
{
    if a.len() != b.len() {
        return false;
    }
    let mut i: usize = 0;
    while i < a.len()
        invariant
            a@.len() == b@.len(),
            0 <= i <= a@.len(),
            forall|j: int| 0 <= j < i ==> a@[j] == b@[j],
        decreases a@.len() - i,
    {
        if a[i] != b[i] {
            return false;
        }
        i = i + 1;
    }
    assert(a@ =~= b@);
    true
}

impl Field {
    pub fn copy(&self) -> (r: Field)
        ensures
            r@ == self@,
    {
        match self {
            Field::Str(s) => Field::Str(s.clone()),
            Field::U64(a) => Field::U64(*a),
        }
    }

    pub fn same(&self, o: &Field) -> (r: bool)
        ensures
            r == (self@ == o@),
    {
        match (self, o) {
            (Field::Str(a), Field::Str(b)) => eq_str(a, b),
            (Field::U64(a), Field::U64(b)) => a.id == b.id,
            _ => false,
        }
    }
}

impl SqlExpr {
    pub fn copy(&self) -> (r: SqlExpr)
        ensures
            r@ == self@,
    {
        match self {
            SqlExpr::Integer(i) => SqlExpr::Integer(*i),
            SqlExpr::Float(f) => SqlExpr::Float(*f),
            SqlExpr::Text(s) => SqlExpr::Text(s.clone()),
            SqlExpr::Blob(b) => {
                let c = b.clone();
                assert(c@ =~= b@);
                SqlExpr::Blob(c)
            },
            SqlExpr::Bool(b) => SqlExpr::Bool(*b),
            SqlExpr::Null(c) => SqlExpr::Null(*c),
            SqlExpr::Column(a, n) => SqlExpr::Column(*a, n.clone()),
            SqlExpr::UnixEpoch => SqlExpr::UnixEpoch,
        }
    }

    /// Structural equality.
    pub fn same(&self, o: &SqlExpr) -> (r: bool)
        ensures
            r == (self@ == o@),
    {
        match (self, o) {
            (SqlExpr::Integer(a), SqlExpr::Integer(b)) => *a == *b,
            (SqlExpr::Float(a), SqlExpr::Float(b)) => *a == *b,
            (SqlExpr::Text(a), SqlExpr::Text(b)) => eq_str(a, b),
            (SqlExpr::Blob(a), SqlExpr::Blob(b)) => eq_bytes(a, b),
            (SqlExpr::Bool(a), SqlExpr::Bool(b)) => *a == *b,
            (SqlExpr::Null(a), SqlExpr::Null(b)) => *a == *b,
            (SqlExpr::Column(a, n), SqlExpr::Column(b, m)) => a.id == b.id && eq_str(n, m),
            (SqlExpr::UnixEpoch, SqlExpr::UnixEpoch) => true,
            _ => false,
        }
    }
}

impl SourceKind {
    pub fn same(&self, o: &SourceKind) -> (r: bool)
        ensures
            r == (self@ == o@),
    {
        match (self, o) {
            (SourceKind::Implicit(a), SourceKind::Implicit(b)) => eq_str(a, b),
            (SourceKind::Aggregate(a), SourceKind::Aggregate(b)) => eq_str(a, b),
            _ => false,
        }
    }
}

impl Source {
    /// Structural equality: same kind, same table or subquery, and the same
    /// conditions in the same order.
    pub fn same(&self, o: &Source) -> (r: bool)
        ensures
            r == (self@ == o@),
    {
        if !self.kind.same(&o.kind) {
            return false;
        }
        if self.conds.len() != o.conds.len() {
            assert(self@.conds.len() != o@.conds.len());
            return false;
        }
        let mut i: usize = 0;
        while i < self.conds.len()
            invariant
                self.conds@.len() == o.conds@.len(),
                0 <= i <= self.conds@.len(),
                forall|j: int| 0 <= j < i ==> cond_model(self.conds@[j]) == cond_model(o.conds@[j]),
            decreases self.conds@.len() - i,
        {
            let a = &self.conds[i];
            let b = &o.conds[i];
            if !a.0.same(&b.0) || !a.1.same(&b.1) {
                assert(self@.conds[i as int] != o@.conds[i as int]);
                return false;
            }
            i = i + 1;
        }
        assert(self@.conds =~= o@.conds);
        true
    }
}

} // verus!
