//! Expression nodes and handles: how they render to SQL against a builder
//! context, how native values become expressions, and how an expression of
//! an older schema version is carried over to the next.
use std::rc::Rc;

use vstd::prelude::*;

use crate::builder::{ValueBuilder, distinct_sources, join_source, lemma_found, lemma_request_records, request};
use crate::sql::{MyAlias, SourceModel, SqlExpr, SqlModel};
use crate::typ::{ColumnType, MyTyp, RawModel, TableRef, Value, ValueModel};

verus! {

/// An expression node whose rendering is fixed by the library rather than by
/// a literal or a column: a built-in pseudo-value or a combinator.
pub enum AdHoc {
    /// The current time as a unix timestamp.
    UnixEpoch,
    /// A nullable expression used as if it were never NULL.
    Assume(Rc<Node>),
}

/// A shared node with its type forgotten.
pub struct DynTypedExpr {
    pub node: Rc<Node>,
}

/// An expression of the previous schema version, used unchanged.
pub struct MigratedExpr {
    pub prev: DynTypedExpr,
}

/// A node of an expression tree. Children are shared, never copied.
pub enum Node {
    /// A native value.
    Lit(SqlExpr),
    AdHoc(AdHoc),
    /// A nullable value: the inner node, or NULL of the given category.
    Nullable(Option<Rc<Node>>, ColumnType),
    /// A column of the source with the given alias.
    Column(MyAlias, String),
    /// A column of the row of `table` that the inner node refers to.
    Field(Rc<Node>, TableRef, String),
    Migrated(MigratedExpr),
}

/// A shared node together with the type of its value.
pub struct DynTyped {
    pub node: Rc<Node>,
    pub typ: MyTyp,
}

/// An expression handle: a typed node, the schema version it is valid
/// against, and the query scope that may reference it. The two tags are
/// carried with the handle; migration advances the schema version, and the
/// code that nests queries compares scopes before it uses a handle.
pub struct Expr {
    pub inner: DynTyped,
    pub schema: u64,
    pub scope: u64,
}

/// The current time as an expression.
pub struct UnixEpoch;

/// The SQL that node `n` renders to against a builder context whose sources
/// are `slots`, and the sources afterwards.
pub open spec fn render_model(n: Node, slots: Seq<Option<SourceModel>>) -> (SqlModel, Seq<Option<SourceModel>>)
    decreases n,
{
    match n {
        Node::Lit(e) => (e@, slots),
        Node::AdHoc(AdHoc::UnixEpoch) => (SqlModel::UnixEpoch, slots),
        Node::AdHoc(AdHoc::Assume(inner)) => render_model(*inner, slots),
        Node::Nullable(Some(inner), _) => render_model(*inner, slots),
        Node::Nullable(None, c) => (SqlModel::Null(c), slots),
        Node::Column(a, name) => (SqlModel::Column(a.id as nat, name@), slots),
        Node::Field(of, table, name) => {
            let (e, s1) = render_model(*of, slots);
            let (s2, a) = request(s1, join_source(table, e));
            (SqlModel::Column(a, name@), s2)
        },
        Node::Migrated(m) => render_model(*m.prev.node, slots),
    }
}

/// The SQL literal of value `v` of type `t`.
pub open spec fn sql_of_value(v: ValueModel, t: MyTyp) -> SqlModel
    decreases v,
{
    match v {
        ValueModel::Integer(i) => SqlModel::Integer(i),
        ValueModel::Float(f) => SqlModel::Float(f),
        ValueModel::Text(s) => SqlModel::Text(s),
        ValueModel::Blob(b) => SqlModel::Blob(b),
        ValueModel::Bool(b) => SqlModel::Bool(b),
        ValueModel::Row(i) => SqlModel::Integer(i),
        ValueModel::Absent => SqlModel::Null(t.sql_type()),
        ValueModel::Present(x) => match t {
            MyTyp::Nullable(inner) => sql_of_value(*x, *inner),
            _ => sql_of_value(*x, t),
        },
    }
}

/// What the storage engine holds after storing the literal `e`; a boolean
/// is stored as the integer 1 or 0.
pub open spec fn stored(e: SqlModel) -> RawModel {
    match e {
        SqlModel::Integer(i) => RawModel::Integer(i),
        SqlModel::Float(f) => RawModel::Real(f),
        SqlModel::Text(s) => RawModel::Text(s),
        SqlModel::Blob(b) => RawModel::Blob(b),
        SqlModel::Bool(b) => RawModel::Integer(if b { 1 } else { 0 }),
        _ => RawModel::Null,
    }
}

/// Node `n` renders to `e` without touching the builder context.
pub open spec fn renders_pure(n: Node, e: SqlModel) -> bool {
    forall|s: Seq<Option<SourceModel>>| #[trigger] render_model(n, s) == (e, s)
}

/// Relies on `Rc::clone`: the clone points at the same node.
#[verifier::external_body]
fn share(n: &Rc<Node>) -> (r: Rc<Node>)
    ensures
        r == *n,
{
    Rc::clone(n)
}

/// Renders node `n` to SQL, requesting the joins it needs from `b`.
pub fn render_node(n: &Node, b: &mut ValueBuilder) -> (r: SqlExpr)
    requires
        old(b).wf(),
    ensures
        final(b).wf(),
        (r@, final(b)@) == render_model(*n, old(b)@),
    decreases n,
{
    match n {
        Node::Lit(e) => e.copy(),
        Node::AdHoc(AdHoc::UnixEpoch) => SqlExpr::UnixEpoch,
        Node::AdHoc(AdHoc::Assume(inner)) => render_node(&**inner, b),
        Node::Nullable(Some(inner), _) => render_node(&**inner, b),
        Node::Nullable(None, c) => SqlExpr::Null(*c),
        Node::Column(a, name) => SqlExpr::Column(*a, name.clone()),
        Node::Field(of, table, name) => {
            let e = render_node(&**of, b);
            let a = b.get_join(table, e);
            SqlExpr::Column(a, name.clone())
        },
        Node::Migrated(m) => render_node(&*m.prev.node, b),
    }
}

/// The node of value `v` of type `t`.
fn value_node(v: Value, t: &MyTyp) -> (r: Node)
    requires
        v.model().has_type(*t),
    ensures
        renders_pure(r, sql_of_value(v.model(), *t)),
    decreases v,
{
    let ghost vm = v.model();
    let r = match v {
        Value::Integer(i) => Node::Lit(SqlExpr::Integer(i)),
        Value::Float(f) => Node::Lit(SqlExpr::Float(f)),
        Value::Text(s) => Node::Lit(SqlExpr::Text(s)),
        Value::Blob(b) => Node::Lit(SqlExpr::Blob(b)),
        Value::Bool(b) => Node::Lit(SqlExpr::Bool(b)),
        Value::Row(i) => Node::Lit(SqlExpr::Integer(i)),
        Value::Absent => Node::Nullable(None, t.typ()),
        Value::Present(x) => {
            match t {
                MyTyp::Nullable(inner) => {
                    let node = value_node(*x, inner);
                    Node::Nullable(Some(Rc::new(node)), t.typ())
                },
                _ => {
                    assert(false);
                    Node::Nullable(None, t.typ())
                },
            }
        },
    };
    assert forall|s: Seq<Option<SourceModel>>| #[trigger] render_model(r, s) == (sql_of_value(vm, *t), s) by {
        match r {
            Node::Nullable(Some(inner), _) => {
                assert(render_model(*inner, s) == (sql_of_value(vm, *t), s));
            },
            _ => {},
        }
    }
    r
}

/// Turns a native value of type `t` into an expression; an absent value
/// becomes NULL of the storage category of `t`.
pub fn into_expr(v: Value, t: &MyTyp, schema: u64, scope: u64) -> (r: Expr)
    requires
        v.model().has_type(*t),
    ensures
        r.inner.typ == *t,
        r.schema == schema,
        r.scope == scope,
        renders_pure(*r.inner.node, sql_of_value(v.model(), *t)),
{
    let node = value_node(v, t);
    Expr::new(node, t.copy(), schema, scope)
}

impl UnixEpoch {
    pub fn into_expr(self, schema: u64, scope: u64) -> (r: Expr)
        ensures
            r.inner.typ == MyTyp::Integer,
            r.schema == schema,
            r.scope == scope,
            renders_pure(*r.inner.node, SqlModel::UnixEpoch),
    {
        Expr::adhoc(AdHoc::UnixEpoch, MyTyp::Integer, schema, scope)
    }
}

/// An expression of type `typ` rendered by the ad-hoc node `a`.
pub fn adhoc_expr(a: AdHoc, typ: MyTyp, schema: u64, scope: u64) -> (r: Expr)
    ensures
        *r.inner.node == Node::AdHoc(a),
        r.inner.typ == typ,
        r.schema == schema,
        r.scope == scope,
{
    Expr::adhoc(a, typ, schema, scope)
}

/// The column `name` of the source with alias `alias`.
pub fn new_column(alias: MyAlias, name: String, typ: MyTyp, schema: u64, scope: u64) -> (r: Expr)
    ensures
        r.inner.typ == typ,
        r.schema == schema,
        r.scope == scope,
        renders_pure(*r.inner.node, SqlModel::Column(alias.id as nat, name@)),
{
    Expr::new(Node::Column(alias, name), typ, schema, scope)
}

/// A nullable expression used as one of the type it wraps; it renders as before.
pub fn assume_expr(e: Expr) -> (r: Expr)
    requires
        e.inner.typ is Nullable,
    ensures
        r.inner.typ == *e.inner.typ->Nullable_0,
        r.schema == e.schema,
        r.scope == e.scope,
        forall|s: Seq<Option<SourceModel>>| #[trigger] render_model(*r.inner.node, s) == render_model(*e.inner.node, s),
{
    let Expr { inner, schema, scope } = e;
    let DynTyped { node, typ } = inner;
    match typ {
        MyTyp::Nullable(t) => Expr::adhoc(AdHoc::Assume(node), *t, schema, scope),
        _ => {
            assert(false);
            Expr::adhoc(AdHoc::Assume(node), MyTyp::Integer, schema, scope)
        },
    }
}

/// The typed node of an expression, without its tags.
pub fn into_owned(e: Expr) -> (r: DynTyped)
    ensures
        r == e.inner,
{
    e.inner
}

impl DynTyped {
    /// The node with its type forgotten.
    pub fn erase(self) -> (r: DynTypedExpr)
        ensures
            r.node == self.node,
    {
        DynTypedExpr { node: self.node }
    }
}

/// `r` is expression `prev` carried over to the next schema version.
pub open spec fn is_migration_of(r: Expr, prev: Expr) -> bool {
    &&& *r.inner.node == Node::Migrated(MigratedExpr { prev: DynTypedExpr { node: prev.inner.node } })
    &&& r.inner.typ == prev.inner.typ
    &&& r.schema == prev.schema + 1
    &&& r.scope == prev.scope
}

impl Expr {
    pub fn new(node: Node, typ: MyTyp, schema: u64, scope: u64) -> (r: Expr)
        ensures
            *r.inner.node == node,
            r.inner.typ == typ,
            r.schema == schema,
            r.scope == scope,
    {
        Expr { inner: DynTyped { node: Rc::new(node), typ }, schema, scope }
    }

    pub fn adhoc(a: AdHoc, typ: MyTyp, schema: u64, scope: u64) -> (r: Expr)
        ensures
            *r.inner.node == Node::AdHoc(a),
            r.inner.typ == typ,
            r.schema == schema,
            r.scope == scope,
    {
        Expr::new(Node::AdHoc(a), typ, schema, scope)
    }

    /// A second handle on the same node.
    pub fn clone(&self) -> (r: Expr)
        ensures
            r == *self,
    {
        Expr {
            inner: DynTyped { node: share(&self.inner.node), typ: self.inner.typ.copy() },
            schema: self.schema,
            scope: self.scope,
        }
    }

    /// Carries `prev` over to the next schema version; it renders to the same SQL.
    pub fn _migrate(prev: Expr) -> (r: Expr)
        requires
            prev.schema < u64::MAX,
        ensures
            is_migration_of(r, prev),
    {
        let schema = prev.schema + 1;
        let scope = prev.scope;
        let typ = prev.inner.typ.copy();
        let erased = prev.inner.erase();
        Expr::new(Node::Migrated(MigratedExpr { prev: erased }), typ, schema, scope)
    }

    /// The column `name` of the row that this table-reference expression
    /// points at; rendering it joins that table once per builder context.
    pub fn field(&self, name: String, typ: MyTyp) -> (r: Expr)
        requires
            self.inner.typ is Table,
        ensures
            *r.inner.node == Node::Field(self.inner.node, self.inner.typ->Table_0, name),
            r.inner.typ == typ,
            r.schema == self.schema,
            r.scope == self.scope,
    {
        let table = match &self.inner.typ {
            MyTyp::Table(t) => t.copy(),
            _ => {
                assert(false);
                TableRef { name: String::new(), id: String::new() }
            },
        };
        Expr::new(Node::Field(share(&self.inner.node), table, name), typ, self.schema, self.scope)
    }

    /// The SQL of this expression.
    pub fn build_expr(&self, b: &mut ValueBuilder) -> (r: SqlExpr)
        requires
            old(b).wf(),
        ensures
            final(b).wf(),
            (r@, final(b)@) == render_model(*self.inner.node, old(b)@),
    {
        render_node(&*self.inner.node, b)
    }

    /// The alias of the row that this table-reference expression points at:
    /// the implicit join against the table on its identity column.
    pub fn build_table(&self, b: &mut ValueBuilder) -> (r: MyAlias)
        requires
            old(b).wf(),
            self.inner.typ is Table,
        ensures
            final(b).wf(),
            ({
                let (e, s1) = render_model(*self.inner.node, old(b)@);
                (final(b)@, r.id as nat) == request(s1, join_source(self.inner.typ->Table_0, e))
            }),
    {
        let e = self.build_expr(b);
        match &self.inner.typ {
            MyTyp::Table(t) => b.get_join(t, e),
            _ => {
                assert(false);
                MyAlias { id: 0 }
            },
        }
    }
}

/// An expression carried over from the previous schema version renders to
/// exactly the SQL of the original, against any builder context.
pub proof fn lemma_migration_transparent(r: Expr, prev: Expr, slots: Seq<Option<SourceModel>>)
    requires
        is_migration_of(r, prev),
    ensures
        render_model(*r.inner.node, slots) == render_model(*prev.inner.node, slots),
{
}

/// Storing the SQL of a value and decoding it back as the same type gives the
/// value again: an absent value comes back absent, a present one as itself.
/// A present value that wraps an absent one (possible only for a nullable
/// type nested in another) is stored as NULL and comes back absent.
pub proof fn lemma_nullability_round_trip(v: ValueModel, t: MyTyp)
    requires
        v.has_type(t),
        !present_absent(v),
    ensures
        crate::typ::decode_model(t, stored(sql_of_value(v, t))) == Ok::<ValueModel, crate::typ::DecodeError>(v),
    decreases v,
{
    match v {
        ValueModel::Present(x) => {
            match t {
                MyTyp::Nullable(inner) => {
                    lemma_nullability_round_trip(*x, *inner);
                    lemma_not_null(*x, *inner);
                },
                _ => {},
            }
        },
        _ => {},
    }
}

/// Some `Present` in `v` wraps an `Absent`.
pub open spec fn present_absent(v: ValueModel) -> bool
    decreases v,
{
    match v {
        ValueModel::Present(x) => *x is Absent || present_absent(*x),
        _ => false,
    }
}

proof fn lemma_not_null(v: ValueModel, t: MyTyp)
    requires
        v.has_type(t),
        !(v is Absent),
        !present_absent(v),
    ensures
        !(stored(sql_of_value(v, t)) is Null),
    decreases v,
{
    match v {
        ValueModel::Present(x) => {
            match t {
                MyTyp::Nullable(inner) => lemma_not_null(*x, *inner),
                _ => {},
            }
        },
        _ => {},
    }
}

/// The node that a shared handle points at.
pub open spec fn at(r: Rc<Node>) -> Node {
    *r
}

/// `later` holds every slot of `slots` unchanged, and perhaps more after them.
pub open spec fn extends(slots: Seq<Option<SourceModel>>, later: Seq<Option<SourceModel>>) -> bool {
    slots.len() <= later.len() && forall|i: int| 0 <= i < slots.len() ==> later[i] == slots[i]
}

/// Rendering only appends sources, and keeps them distinct.
pub proof fn lemma_render_extends(n: Node, slots: Seq<Option<SourceModel>>)
    requires
        distinct_sources(slots),
    ensures
        distinct_sources(render_model(n, slots).1),
        extends(slots, render_model(n, slots).1),
    decreases n,
{
    match n {
        Node::AdHoc(AdHoc::Assume(inner)) => lemma_render_extends(at(inner), slots),
        Node::Nullable(Some(inner), _) => lemma_render_extends(at(inner), slots),
        Node::Field(of, table, name) => {
            let (e, s1) = render_model(at(of), slots);
            lemma_render_extends(at(of), slots);
            lemma_request_records(s1, join_source(table, e));
        },
        Node::Migrated(m) => lemma_render_extends(at(m.prev.node), slots),
        _ => {},
    }
}

/// Once an expression has been rendered against a builder context, rendering
/// it again later, whatever was requested in between, gives the same SQL and
/// records nothing new: every join it needs is already there, under the
/// alias it had the first time.
pub proof fn lemma_render_stable(
    n: Node,
    slots: Seq<Option<SourceModel>>,
    later: Seq<Option<SourceModel>>,
)
    requires
        distinct_sources(slots),
        distinct_sources(later),
        extends(render_model(n, slots).1, later),
    ensures
        render_model(n, later) == (render_model(n, slots).0, later),
    decreases n,
{
    match n {
        Node::AdHoc(AdHoc::Assume(inner)) => lemma_render_stable(at(inner), slots, later),
        Node::Nullable(Some(inner), _) => lemma_render_stable(at(inner), slots, later),
        Node::Field(of, table, name) => {
            let (e, s1) = render_model(at(of), slots);
            let src = join_source(table, e);
            let (s2, a) = request(s1, src);
            lemma_render_extends(at(of), slots);
            lemma_request_records(s1, src);
            assert(extends(s1, later));
            lemma_render_stable(at(of), slots, later);
            assert(later[a as int] == s2[a as int]);
            lemma_found(later, src, a as int);
        },
        Node::Migrated(m) => lemma_render_stable(at(m.prev.node), slots, later),
        _ => {},
    }
}

/// Rendering the same expression twice in a row against one builder context
/// gives the same SQL both times, and the second rendering records nothing.
pub proof fn lemma_render_idempotent(n: Node, slots: Seq<Option<SourceModel>>)
    requires
        distinct_sources(slots),
    ensures
        ({
            let (e1, s1) = render_model(n, slots);
            let (e2, s2) = render_model(n, s1);
            e1 == e2 && s2 == s1
        }),
{
    lemma_render_extends(n, slots);
    lemma_render_stable(n, slots, render_model(n, slots).1);
}

} // verus!
