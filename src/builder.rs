//! The builder context of one query: it hands out aliases and keeps each
//! distinct join or aggregate subquery exactly once.
use vstd::prelude::*;

use crate::sql::{Field, FieldModel, KindModel, MyAlias, Source, SourceKind, SourceModel, SqlExpr, SqlModel, cond_model};
use crate::typ::TableRef;

verus! {

/// The state threaded through rendering. Alias `i` names slot `i`: a source
/// that was requested (a join or an aggregate subquery), or `None` for an
/// alias taken for a table of the query itself.
pub struct ValueBuilder {
    slots: Vec<Option<Source>>,
}

pub open spec fn slot_model(s: Option<Source>) -> Option<SourceModel> {
    match s {
        Some(x) => Some(x@),
        None => None,
    }
}

impl View for ValueBuilder {
    type V = Seq<Option<SourceModel>>;

    closed spec fn view(&self) -> Seq<Option<SourceModel>> {
        self.slots@.map_values(|s| slot_model(s))
    }
}

/// No source is recorded twice.
pub open spec fn distinct_sources(slots: Seq<Option<SourceModel>>) -> bool {
    forall|i: int, j: int|
        0 <= i < j < slots.len() && slots[i] is Some ==> #[trigger] slots[i] != #[trigger] slots[j]
}

/// The slot that holds source `s`, if any.
pub open spec fn find(slots: Seq<Option<SourceModel>>, s: SourceModel) -> Option<int> {
    if exists|i: int| 0 <= i < slots.len() && slots[i] == Some(s) {
        Some(choose|i: int| 0 <= i < slots.len() && slots[i] == Some(s))
    } else {
        None
    }
}

/// Requesting source `s`: the slots afterwards and the alias handed out.
/// A source seen before gets its alias back and nothing is recorded; a new
/// one is recorded under the next alias.
pub open spec fn request(slots: Seq<Option<SourceModel>>, s: SourceModel) -> (Seq<Option<SourceModel>>, nat) {
    match find(slots, s) {
        Some(i) => (slots, i as nat),
        None => (slots.push(Some(s)), slots.len()),
    }
}

/// The implicit join against `table` on its identity column being `e`.
pub open spec fn join_source(table: TableRef, e: SqlModel) -> SourceModel {
    SourceModel { kind: KindModel::Implicit(table.name@), conds: seq![(FieldModel::Str(table.id@), e)] }
}

/// The implicit join against `table` on the named columns having the given values.
pub open spec fn unique_source(table: TableRef, conds: Seq<(String, SqlExpr)>) -> SourceModel {
    SourceModel {
        kind: KindModel::Implicit(table.name@),
        conds: conds.map_values(|c: (String, SqlExpr)| (FieldModel::Str(c.0@), c.1@)),
    }
}

/// The aggregate subquery `aggr` correlated by `conds`.
pub open spec fn aggr_source(aggr: Seq<char>, conds: Seq<(Field, SqlExpr)>) -> SourceModel {
    SourceModel { kind: KindModel::Aggregate(aggr), conds: conds.map_values(|c| cond_model(c)) }
}

pub(crate) proof fn lemma_found(slots: Seq<Option<SourceModel>>, s: SourceModel, i: int)
    requires
        distinct_sources(slots),
        0 <= i < slots.len(),
        slots[i] == Some(s),
    ensures
        find(slots, s) == Some(i),
{
    let j = choose|j: int| 0 <= j < slots.len() && slots[j] == Some(s);
    if j < i {
        assert(slots[j] != slots[i]);
    } else if i < j {
        assert(slots[i] != slots[j]);
    }
}

impl ValueBuilder {
    pub open spec fn wf(&self) -> bool {
        distinct_sources(self@)
    }

    /// A fresh context for one query.
    pub fn new() -> (r: ValueBuilder)
        ensures
            r.wf(),
            r@ == Seq::<Option<SourceModel>>::empty(),
    {
        let r = ValueBuilder { slots: Vec::new() };
        assert(r@ =~= Seq::<Option<SourceModel>>::empty());
        r
    }

    /// Takes a fresh alias for a table of the query itself.
    pub fn new_alias(&mut self) -> (r: MyAlias)
        requires
            old(self).wf(),
        ensures
            final(self).wf(),
            final(self)@ == old(self)@.push(None),
            r.id == old(self)@.len(),
    {
        let ghost before = self@;
        let id = self.slots.len();
        self.slots.push(None);
        assert(self@ =~= before.push(None));
        MyAlias { id }
    }

    /// The recorded sources, slot by slot, in the order they were first requested.
    pub fn slots(&self) -> (r: &Vec<Option<Source>>)
        ensures
            r@.map_values(|s| slot_model(s)) == self@,
    {
        &self.slots
    }

    fn lookup(&self, s: &Source) -> (r: Option<usize>)
        requires
            self.wf(),
        ensures
            match r {
                Some(i) => find(self@, s@) == Some(i as int),
                None => find(self@, s@) is None,
            },
    {
        let mut i: usize = 0;
        while i < self.slots.len()
            invariant
                self.wf(),
                0 <= i <= self.slots@.len(),
                self@.len() == self.slots@.len(),
                forall|j: int| 0 <= j < i ==> self@[j] != Some(s@),
            decreases self.slots@.len() - i,
        {
            assert(self@[i as int] == slot_model(self.slots@[i as int]));
            match &self.slots[i] {
                Some(src) => {
                    if src.same(s) {
                        proof {
                            lemma_found(self@, s@, i as int);
                        }
                        return Some(i);
                    }
                },
                None => {},
            }
            i = i + 1;
        }
        None
    }

    /// Hands out the alias of source `s`, recording it first if it is new.
    pub fn get_or_init(&mut self, s: Source) -> (r: MyAlias)
        requires
            old(self).wf(),
        ensures
            final(self).wf(),
            (final(self)@, r.id as nat) == request(old(self)@, s@),
    {
        match self.lookup(&s) {
            Some(i) => MyAlias { id: i },
            None => {
                let ghost before = self@;
                let ghost m = s@;
                let id = self.slots.len();
                self.slots.push(Some(s));
                assert(self@ =~= before.push(Some(m)));
                assert forall|i: int, j: int|
                    0 <= i < j < self@.len() && self@[i] is Some implies #[trigger] self@[i]
                        != #[trigger] self@[j] by {
                    if j == before.len() {
                        if self@[i] == self@[j] {
                            assert(before[i] == Some(m));
                        }
                    } else {
                        assert(before[i] != before[j]);
                    }
                }
                MyAlias { id }
            },
        }
    }

    /// The alias of the implicit join against `table` on its identity column being `expr`.
    pub fn get_join(&mut self, table: &TableRef, expr: SqlExpr) -> (r: MyAlias)
        requires
            old(self).wf(),
        ensures
            final(self).wf(),
            (final(self)@, r.id as nat) == request(old(self)@, join_source(*table, expr@)),
    {
        let ghost e = expr@;
        let source = Source {
            kind: SourceKind::Implicit(table.name.clone()),
            conds: vec![(Field::Str(table.id.clone()), expr)],
        };
        assert(source@.conds =~= join_source(*table, e).conds);
        self.get_or_init(source)
    }

    /// The alias of the aggregate subquery `aggr` correlated by `conds`.
    pub fn get_aggr(&mut self, aggr: String, conds: Vec<(Field, SqlExpr)>) -> (r: MyAlias)
        requires
            old(self).wf(),
        ensures
            final(self).wf(),
            (final(self)@, r.id as nat) == request(old(self)@, aggr_source(aggr@, conds@)),
    {
        let source = Source { kind: SourceKind::Aggregate(aggr), conds };
        self.get_or_init(source)
    }

    /// Looks up the row of `table` whose named columns have the given values:
    /// the identity column of the (shared) implicit join for that condition.
    pub fn get_unique(&mut self, table: &TableRef, conds: Vec<(String, SqlExpr)>) -> (r: SqlExpr)
        requires
            old(self).wf(),
        ensures
            final(self).wf(),
            ({
                let (after, a) = request(old(self)@, unique_source(*table, conds@));
                final(self)@ == after && r@ == SqlModel::Column(a, table.id@)
            }),
    {
        let mut fields: Vec<(Field, SqlExpr)> = Vec::new();
        let mut i: usize = 0;
        while i < conds.len()
            invariant
                0 <= i <= conds@.len(),
                fields@.len() == i,
                forall|j: int|
                    0 <= j < i ==> #[trigger] cond_model(fields@[j]) == (
                    FieldModel::Str(conds@[j].0@),
                    conds@[j].1@,
                ),
            decreases conds@.len() - i,
        {
            let c = &conds[i];
            fields.push((Field::Str(c.0.clone()), c.1.copy()));
            i = i + 1;
        }
        let source = Source { kind: SourceKind::Implicit(table.name.clone()), conds: fields };
        assert(source@.conds =~= unique_source(*table, conds@).conds);
        let a = self.get_or_init(source);
        SqlExpr::Column(a, table.id.clone())
    }
}

/// Requesting two structurally equal sources from one builder context hands
/// out the same alias both times, and the source is recorded exactly once.
pub proof fn lemma_dedup_idempotent(b: ValueBuilder, s1: Source, s2: Source)
    requires
        b.wf(),
        s1@ == s2@,
    ensures
        ({
            let (after1, a1) = request(b@, s1@);
            let (after2, a2) = request(after1, s2@);
            &&& a1 == a2
            &&& after2 == after1
            &&& distinct_sources(after2)
            &&& after2[a1 as int] == Some(s1@)
            &&& forall|i: int| 0 <= i < after2.len() && after2[i] == Some(s1@) ==> i == a1
        }),
{
    let (after1, a1) = request(b@, s1@);
    lemma_request_records(b@, s1@);
    lemma_found(after1, s2@, a1 as int);
    assert forall|i: int| 0 <= i < after1.len() && after1[i] == Some(s1@) implies i == a1 by {
        lemma_found(after1, s1@, i);
    }
}

/// What a request leaves behind: distinct sources still, the old slots kept
/// as they were, and the source recorded under the alias handed out.
pub proof fn lemma_request_records(slots: Seq<Option<SourceModel>>, s: SourceModel)
    requires
        distinct_sources(slots),
    ensures
        ({
            let (after, a) = request(slots, s);
            &&& distinct_sources(after)
            &&& slots.len() <= after.len() <= slots.len() + 1
            &&& forall|i: int| 0 <= i < slots.len() ==> after[i] == slots[i]
            &&& a < after.len()
            &&& after[a as int] == Some(s)
        }),
{
    match find(slots, s) {
        Some(i) => {},
        None => {
            let after = slots.push(Some(s));
            assert forall|i: int, j: int|
                0 <= i < j < after.len() && after[i] is Some implies #[trigger] after[i]
                    != #[trigger] after[j] by {
                if j == slots.len() {
                    if after[i] == after[j] {
                        assert(slots[i] == Some(s));
                    }
                } else {
                    assert(slots[i] != slots[j]);
                }
            }
        },
    }
}

/// Within one builder context, two different sources never get the same
/// alias; a source seen for the first time gets an alias above every alias
/// handed out before it (aliases handed out so far are those below `b@.len()`).
pub proof fn lemma_alias_unique(b: ValueBuilder, s1: Source, s2: Source)
    requires
        b.wf(),
        s1@ != s2@,
    ensures
        ({
            let (after1, a1) = request(b@, s1@);
            let (after2, a2) = request(after1, s2@);
            &&& a1 != a2
            &&& find(b@, s1@) is None ==> a1 == b@.len()
            &&& find(after1, s2@) is None ==> (a2 == after1.len() && a1 < a2)
        }),
{
    let (after1, a1) = request(b@, s1@);
    lemma_request_records(b@, s1@);
    lemma_request_records(after1, s2@);
}

} // verus!
