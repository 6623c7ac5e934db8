use crate::tlua::functions_write::Function;
use crate::tlua::guard::PushGuard;
use crate::tlua::push::{push_gives, Push, PushOne, Pushed};
use crate::tlua::read::LuaRead;
use crate::tlua::rust_tables::{array_part, item_outcome, stored, table_of, PushIterError, TableMap};
use crate::tlua::state::{Lua, LuaState, LUAI_MAXCSTACK};
use crate::tlua::tuples::TuplePushError;
use crate::tlua::value::{LuaValue, TableValue, Value};
use crate::tlua::values::{False, Nil, True};
use vstd::prelude::*;

verus! {

/// Host types that cross without a table: a push makes no table and is the
/// same in every store, and a read looks at the values alone.
pub trait Flat: Push + LuaRead {
    /// A push makes no table, whatever the store holds.
    proof fn lemma_flat_push(&self, a: nat, b: nat)
        ensures
            self.outcome(a) == self.outcome(b),
            self.outcome(a) matches Ok(p) ==> p.tables.len() == 0,
    ;

    /// A read gives the same in every store.
    proof fn lemma_flat_read(t1: Seq<TableValue>, t2: Seq<TableValue>, vals: Seq<Value>, r: &Self)
        ensures
            Self::readable(t1, vals) == Self::readable(t2, vals),
            Self::decodes(t1, vals, *r) == Self::decodes(t2, vals, *r),
    ;
}

/// Host types whose values come back from the stack as they went onto it.
///
/// For a value that goes over without loss, the push succeeds and puts as
/// many values on the stack as a read of the type expects, those values
/// can be read as the type again, and whatever such a read returns is the
/// same as the value that was pushed.
pub trait RoundTrip: Push + LuaRead {
    /// Whether this value goes over without loss into a context whose
    /// store holds `base` tables.
    spec fn faithful(&self, base: nat) -> bool;

    /// Whether two host values are the same.
    spec fn same(&self, other: &Self) -> bool;

    /// A value comes back from the stack as it went onto it.
    proof fn lemma_round_trip(&self, tables: Seq<TableValue>, r: &Self)
        requires
            self.faithful(tables.len()),
        ensures
            self.outcome(tables.len()) matches Ok(p) && p.vals.len() == Self::n_values_spec()
                && Self::readable(tables + p.tables, p.vals) && (Self::decodes(
                tables + p.tables,
                p.vals,
                *r,
            ) ==> r.same(self)),
    ;
}

/// Pushes `v`, reads the topmost slots as the type of `v` with `Lua::read`,
/// and leaves the context as it was. A value that goes over without loss
/// is read back as it was.
pub fn push_and_read<T: RoundTrip>(lua: &mut Lua, v: &T) -> (r: Option<T>)
    requires
        old(lua).inv(),
        old(lua)@.height() + v.peak() <= LUAI_MAXCSTACK,
    ensures
        final(lua).inv(),
        final(lua)@ == old(lua)@,
        match v.outcome(old(lua)@.tables.len()) {
            Ok(p) => {
                let with = old(lua)@.appended(p.tables).pushed(p.vals);
                let vals = with.values_from(-T::n_values_spec());
                &&& r.is_some() == T::readable(with.tables, vals)
                &&& r matches Some(back) ==> T::decodes(with.tables, vals, back)
            },
            Err(_) => r.is_none(),
        },
        v.faithful(old(lua)@.tables.len()) ==> (r matches Some(back) && back.same(v)),
{
    let ghost before = lua@;
    let count = lua.table_count();
    match v.push_to_lua(lua) {
        Ok(guard) => {
            let size = guard.size();
            let ghost p = v.outcome(before.tables.len())->Ok_0;
            let ghost with = lua@;
            proof {
                if v.faithful(before.tables.len()) {
                    v.lemma_round_trip(before.tables, v);
                    assert(with.values_from(-T::n_values_spec()) =~= p.vals);
                }
            }
            let r = match lua.read::<T>(guard) {
                Ok(back) => {
                    proof {
                        if v.faithful(before.tables.len()) {
                            v.lemma_round_trip(before.tables, &back);
                        }
                    }
                    Some(back)
                },
                Err(guard) => {
                    guard.into_inner(lua);
                    None
                },
            };
            assert(lua@.stack =~= before.stack);
            assert(lua@.tables.take(count as int) =~= before.tables);
            lua.truncate_tables(count);
            r
        },
        Err(_) => {
            proof {
                if v.faithful(before.tables.len()) {
                    v.lemma_round_trip(before.tables, v);
                }
            }
            None
        },
    }
}

/// Stack balance. A push that succeeds leaves the stack higher by exactly
/// the size of the guard that it returns, with every slot below as it was;
/// a push that fails leaves the height, and the whole context, as it was.
pub proof fn lemma_stack_balance<E>(
    before: LuaState,
    after: LuaState,
    outcome: Result<Pushed, E>,
    r: Result<PushGuard, E>,
)
    requires
        push_gives(before, after, outcome, r),
    ensures
        match r {
            Ok(guard) => {
                &&& after.height() == before.height() + guard.spec_size()
                &&& after.stack.take(before.height()) == before.stack
                &&& after.tables.take(before.tables.len() as int) == before.tables
            },
            Err(_) => after.height() == before.height() && after == before,
        },
{
    match r {
        Ok(guard) => {
            let p = outcome->Ok_0;
            assert(after.stack.take(before.height()) =~= before.stack);
            assert(after.tables.take(before.tables.len() as int) =~= before.tables);
        },
        Err(_) => {},
    }
}

/// Atomic push of a sequence. Where an item of a sequence cannot be
/// pushed, the push of the sequence fails with the error of the first such
/// item, and the whole context is as it was before: the stack slot for
/// slot, and the store, with no table of the sequence left in it.
pub proof fn lemma_sequence_push_is_atomic<T: Push>(
    before: LuaState,
    after: LuaState,
    items: Vec<T>,
    k: int,
    r: Result<PushGuard, PushIterError<T::Err>>,
)
    requires
        push_gives(before, after, items.outcome(before.tables.len()), r),
        0 <= k < items@.len(),
        table_of(items@.take(k), before.tables.len()) is Ok,
        table_of(items@.take(k + 1), before.tables.len()) is Err,
    ensures
        r is Err,
        r->Err_0 == table_of(items@.take(k + 1), before.tables.len())->Err_0,
        after == before,
{
    crate::tlua::rust_tables::lemma_table_of_prefix(items@, k + 1, before.tables.len());
}

/// Round trip through a read of the topmost slots. After a push of a value
/// that goes over without loss onto a stack that holds its values, the
/// topmost slots, as many as the type expects values, can be read as the
/// type, and whatever such a read returns is the same as the value that was
/// pushed.
pub proof fn lemma_push_then_read<T: RoundTrip>(before: LuaState, v: T, r: T)
    requires
        before.wf(),
        v.faithful(before.tables.len()),
        v.outcome(before.tables.len()) matches Ok(p) ==> before.height() + p.vals.len()
            <= LUAI_MAXCSTACK,
    ensures
        v.outcome(before.tables.len()) matches Ok(p) && ({
            let after = before.appended(p.tables).pushed(p.vals);
            let vals = after.values_from(-T::n_values_spec());
            &&& T::readable(after.tables, vals)
            &&& T::decodes(after.tables, vals, r) ==> r.same(&v)
        }),
{
    v.lemma_round_trip(before.tables, &r);
    let p = v.outcome(before.tables.len())->Ok_0;
    let after = before.appended(p.tables).pushed(p.vals);
    if p.vals.len() > 0 {
        assert(after.values_from(-T::n_values_spec()) =~= p.vals);
    } else {
        assert(after.values_from(0) =~= p.vals);
    }
}

impl Flat for i8 {
    proof fn lemma_flat_push(&self, a: nat, b: nat) {
    }

    proof fn lemma_flat_read(t1: Seq<TableValue>, t2: Seq<TableValue>, vals: Seq<Value>, r: &i8) {
    }
}

impl RoundTrip for i8 {
    open spec fn faithful(&self, base: nat) -> bool {
        true
    }

    open spec fn same(&self, other: &i8) -> bool {
        *self == *other
    }

    proof fn lemma_round_trip(&self, tables: Seq<TableValue>, r: &i8) {
        assert(tables + Seq::<TableValue>::empty() =~= tables);
    }
}

impl Flat for i16 {
    proof fn lemma_flat_push(&self, a: nat, b: nat) {
    }

    proof fn lemma_flat_read(t1: Seq<TableValue>, t2: Seq<TableValue>, vals: Seq<Value>, r: &i16) {
    }
}

impl RoundTrip for i16 {
    open spec fn faithful(&self, base: nat) -> bool {
        true
    }

    open spec fn same(&self, other: &i16) -> bool {
        *self == *other
    }

    proof fn lemma_round_trip(&self, tables: Seq<TableValue>, r: &i16) {
        assert(tables + Seq::<TableValue>::empty() =~= tables);
    }
}

impl Flat for i32 {
    proof fn lemma_flat_push(&self, a: nat, b: nat) {
    }

    proof fn lemma_flat_read(t1: Seq<TableValue>, t2: Seq<TableValue>, vals: Seq<Value>, r: &i32) {
    }
}

impl RoundTrip for i32 {
    open spec fn faithful(&self, base: nat) -> bool {
        true
    }

    open spec fn same(&self, other: &i32) -> bool {
        *self == *other
    }

    proof fn lemma_round_trip(&self, tables: Seq<TableValue>, r: &i32) {
        assert(tables + Seq::<TableValue>::empty() =~= tables);
    }
}

impl Flat for i64 {
    proof fn lemma_flat_push(&self, a: nat, b: nat) {
    }

    proof fn lemma_flat_read(t1: Seq<TableValue>, t2: Seq<TableValue>, vals: Seq<Value>, r: &i64) {
    }
}

impl RoundTrip for i64 {
    open spec fn faithful(&self, base: nat) -> bool {
        true
    }

    open spec fn same(&self, other: &i64) -> bool {
        *self == *other
    }

    proof fn lemma_round_trip(&self, tables: Seq<TableValue>, r: &i64) {
        assert(tables + Seq::<TableValue>::empty() =~= tables);
    }
}

impl Flat for u8 {
    proof fn lemma_flat_push(&self, a: nat, b: nat) {
    }

    proof fn lemma_flat_read(t1: Seq<TableValue>, t2: Seq<TableValue>, vals: Seq<Value>, r: &u8) {
    }
}

impl RoundTrip for u8 {
    open spec fn faithful(&self, base: nat) -> bool {
        true
    }

    open spec fn same(&self, other: &u8) -> bool {
        *self == *other
    }

    proof fn lemma_round_trip(&self, tables: Seq<TableValue>, r: &u8) {
        assert(tables + Seq::<TableValue>::empty() =~= tables);
    }
}

impl Flat for u16 {
    proof fn lemma_flat_push(&self, a: nat, b: nat) {
    }

    proof fn lemma_flat_read(t1: Seq<TableValue>, t2: Seq<TableValue>, vals: Seq<Value>, r: &u16) {
    }
}

impl RoundTrip for u16 {
    open spec fn faithful(&self, base: nat) -> bool {
        true
    }

    open spec fn same(&self, other: &u16) -> bool {
        *self == *other
    }

    proof fn lemma_round_trip(&self, tables: Seq<TableValue>, r: &u16) {
        assert(tables + Seq::<TableValue>::empty() =~= tables);
    }
}

impl Flat for u32 {
    proof fn lemma_flat_push(&self, a: nat, b: nat) {
    }

    proof fn lemma_flat_read(t1: Seq<TableValue>, t2: Seq<TableValue>, vals: Seq<Value>, r: &u32) {
    }
}

impl RoundTrip for u32 {
    open spec fn faithful(&self, base: nat) -> bool {
        true
    }

    open spec fn same(&self, other: &u32) -> bool {
        *self == *other
    }

    proof fn lemma_round_trip(&self, tables: Seq<TableValue>, r: &u32) {
        assert(tables + Seq::<TableValue>::empty() =~= tables);
    }
}

impl Flat for bool {
    proof fn lemma_flat_push(&self, a: nat, b: nat) {
    }

    proof fn lemma_flat_read(t1: Seq<TableValue>, t2: Seq<TableValue>, vals: Seq<Value>, r: &bool) {
    }
}

impl RoundTrip for bool {
    open spec fn faithful(&self, base: nat) -> bool {
        true
    }

    open spec fn same(&self, other: &bool) -> bool {
        *self == *other
    }

    proof fn lemma_round_trip(&self, tables: Seq<TableValue>, r: &bool) {
        assert(tables + Seq::<TableValue>::empty() =~= tables);
    }
}

impl Flat for Nil {
    proof fn lemma_flat_push(&self, a: nat, b: nat) {
    }

    proof fn lemma_flat_read(t1: Seq<TableValue>, t2: Seq<TableValue>, vals: Seq<Value>, r: &Nil) {
    }
}

impl RoundTrip for Nil {
    open spec fn faithful(&self, base: nat) -> bool {
        true
    }

    open spec fn same(&self, other: &Nil) -> bool {
        *self == *other
    }

    proof fn lemma_round_trip(&self, tables: Seq<TableValue>, r: &Nil) {
        assert(tables + Seq::<TableValue>::empty() =~= tables);
    }
}

impl Flat for True {
    proof fn lemma_flat_push(&self, a: nat, b: nat) {
    }

    proof fn lemma_flat_read(t1: Seq<TableValue>, t2: Seq<TableValue>, vals: Seq<Value>, r: &True) {
    }
}

impl RoundTrip for True {
    open spec fn faithful(&self, base: nat) -> bool {
        true
    }

    open spec fn same(&self, other: &True) -> bool {
        *self == *other
    }

    proof fn lemma_round_trip(&self, tables: Seq<TableValue>, r: &True) {
        assert(tables + Seq::<TableValue>::empty() =~= tables);
    }
}

impl Flat for False {
    proof fn lemma_flat_push(&self, a: nat, b: nat) {
    }

    proof fn lemma_flat_read(t1: Seq<TableValue>, t2: Seq<TableValue>, vals: Seq<Value>, r: &False) {
    }
}

impl RoundTrip for False {
    open spec fn faithful(&self, base: nat) -> bool {
        true
    }

    open spec fn same(&self, other: &False) -> bool {
        *self == *other
    }

    proof fn lemma_round_trip(&self, tables: Seq<TableValue>, r: &False) {
        assert(tables + Seq::<TableValue>::empty() =~= tables);
    }
}

impl Flat for Function {
    proof fn lemma_flat_push(&self, a: nat, b: nat) {
    }

    proof fn lemma_flat_read(t1: Seq<TableValue>, t2: Seq<TableValue>, vals: Seq<Value>, r: &Function) {
    }
}

impl RoundTrip for Function {
    open spec fn faithful(&self, base: nat) -> bool {
        true
    }

    open spec fn same(&self, other: &Function) -> bool {
        *self == *other
    }

    proof fn lemma_round_trip(&self, tables: Seq<TableValue>, r: &Function) {
        assert(tables + Seq::<TableValue>::empty() =~= tables);
    }
}

impl Flat for String {
    proof fn lemma_flat_push(&self, a: nat, b: nat) {
    }

    proof fn lemma_flat_read(t1: Seq<TableValue>, t2: Seq<TableValue>, vals: Seq<Value>, r: &String) {
    }
}

impl RoundTrip for String {
    open spec fn faithful(&self, base: nat) -> bool {
        true
    }

    open spec fn same(&self, other: &String) -> bool {
        self@ == other@
    }

    proof fn lemma_round_trip(&self, tables: Seq<TableValue>, r: &String) {
        assert(tables + Seq::<TableValue>::empty() =~= tables);
    }
}

/// Any value comes back as it was, where the context holds the table that
/// it names.
impl RoundTrip for LuaValue {
    open spec fn faithful(&self, base: nat) -> bool {
        self.model().within(base)
    }

    open spec fn same(&self, other: &LuaValue) -> bool {
        self.model() == other.model()
    }

    proof fn lemma_round_trip(&self, tables: Seq<TableValue>, r: &LuaValue) {
        assert(tables + Seq::<TableValue>::empty() =~= tables);
    }
}

impl<T: Flat> Flat for Option<T> {
    proof fn lemma_flat_push(&self, a: nat, b: nat) {
        match self {
            Some(v) => v.lemma_flat_push(a, b),
            None => {},
        }
    }

    proof fn lemma_flat_read(
        t1: Seq<TableValue>,
        t2: Seq<TableValue>,
        vals: Seq<Value>,
        r: &Option<T>,
    ) {
        match r {
            Some(v) => T::lemma_flat_read(t1, t2, vals, v),
            None => {
                let any: T = arbitrary();
                T::lemma_flat_read(t1, t2, vals, &any);
            },
        }
    }
}

/// An absent value comes back absent where nil does not read as the type
/// of the present one, which else would claim it. A present value comes
/// back where the value itself does.
impl<T: RoundTrip + Flat> RoundTrip for Option<T> {
    open spec fn faithful(&self, base: nat) -> bool {
        match self {
            Some(v) => v.faithful(base),
            None => T::n_values_spec() == 1 && !T::readable(Seq::empty(), seq![Value::Nil]),
        }
    }

    open spec fn same(&self, other: &Option<T>) -> bool {
        match (self, other) {
            (Some(a), Some(b)) => a.same(b),
            (None, None) => true,
            _ => false,
        }
    }

    proof fn lemma_round_trip(&self, tables: Seq<TableValue>, r: &Option<T>) {
        match self {
            Some(v) => {
                match r {
                    Some(back) => {
                        v.lemma_round_trip(tables, back);
                    },
                    None => {
                        v.lemma_round_trip(tables, v);
                    },
                }
            },
            None => {
                assert(tables + Seq::<TableValue>::empty() =~= tables);
                let any: T = arbitrary();
                T::lemma_flat_read(tables, Seq::empty(), seq![Value::Nil], &any);
            },
        }
    }
}

/// The table that a sequence of single values makes: the value of the item
/// at each place, under the number of that place counted from 1.
pub open spec fn array_of(vals: Seq<Value>) -> TableValue {
    TableValue {
        entries: Seq::new(vals.len(), |i: int| (Value::Number(i + 1), vals[i])),
        metatable: None,
    }
}

/// The table `array_of(vals)` holds each of the values under its number.
pub proof fn lemma_array_of(vals: Seq<Value>, i: int)
    requires
        0 <= i < vals.len(),
    ensures
        array_of(vals).get(Value::Number(i + 1)) == vals[i],
        array_part(array_of(vals))[i] == vals[i],
{
    let t = array_of(vals);
    assert(t.entries[i].0 == Value::Number(i + 1));
    t.lemma_first(Value::Number(i + 1), i);
    let p = t.position(Value::Number(i + 1));
    assert(t.entries[p].0 == Value::Number(p + 1));
}

/// Whether each of the items goes over as one value that is not nil.
pub open spec fn single_values<T: Push>(items: Seq<T>) -> bool {
    forall|i: int|
        0 <= i < items.len() ==> ((#[trigger] items[i]).outcome(0) matches Ok(p) && p.vals.len()
            == 1 && p.vals[0] != Value::Nil)
}

/// The values that the items go over as, for items of one value each.
pub open spec fn values_of<T: Push>(items: Seq<T>) -> Seq<Value> {
    Seq::new(items.len(), |i: int| items[i].outcome(0)->Ok_0.vals[0])
}

/// Items that cross without a table and go over as one value each, none of
/// them nil, make one table: the one that holds those values under the
/// numbers of their places.
pub proof fn lemma_table_of_singles<T: Flat>(items: Seq<T>, base: nat)
    requires
        single_values(items),
    ensures
        table_of(items, base) == Ok::<Seq<TableValue>, PushIterError<T::Err>>(
            seq![array_of(values_of(items))],
        ),
    decreases items.len(),
{
    if items.len() == 0 {
        assert(array_of(values_of(items)).entries =~= TableValue::empty().entries);
    } else {
        let front = items.drop_last();
        assert forall|i: int| 0 <= i < front.len() implies ((#[trigger] front[i]).outcome(
            0,
        ) matches Ok(p) && p.vals.len() == 1 && p.vals[0] != Value::Nil) by {
            assert(front[i] == items[i]);
        }
        lemma_table_of_singles(front, base);
        let t = array_of(values_of(front));
        let n = items.len() as int;
        assert(items[n - 1] == items.last());
        items.last().lemma_flat_push(base + 1, 0);
        let p = items.last().outcome(0)->Ok_0;
        let v = p.vals[0];
        let key = Value::Number(n);
        assert(!t.has_key(key)) by {
            if t.has_key(key) {
                t.lemma_has_key(key);
                let q = t.position(key);
                assert(t.entries[q].0 == Value::Number(q + 1));
            }
        }
        assert(t.set(key, v).entries =~= array_of(values_of(items)).entries) by {
            assert forall|i: int| 0 <= i < n - 1 implies values_of(front)[i] == values_of(
                items,
            )[i] by {
                assert(front[i] == items[i]);
            }
        }
        assert(item_outcome(items.last(), base + 1) == Ok::<Pushed, PushIterError<T::Err>>(p));
        assert(stored(t, p.vals, n) == t.set(key, v));
        assert(seq![t].update(0, t.set(key, v)) + p.tables =~= seq![
            array_of(values_of(items)),
        ]);
    }
}

/// A sequence of items that cross without a table comes back as it was
/// where each of its items does and goes over as one value that is not
/// nil.
impl<T: RoundTrip + Flat + PushOne> RoundTrip for Vec<T> {
    open spec fn faithful(&self, base: nat) -> bool {
        &&& self@.len() < i64::MAX
        &&& single_values(self@)
        &&& forall|i: int| 0 <= i < self@.len() ==> (#[trigger] self@[i]).faithful(base + 1)
    }

    open spec fn same(&self, other: &Vec<T>) -> bool {
        &&& self@.len() == other@.len()
        &&& forall|i: int| 0 <= i < self@.len() ==> (#[trigger] self@[i]).same(&other@[i])
    }

    proof fn lemma_round_trip(&self, tables: Seq<TableValue>, r: &Vec<T>) {
        let base = tables.len();
        lemma_table_of_singles(self@, base);
        let vals = values_of(self@);
        let t = array_of(vals);
        let store = tables + seq![t];
        assert(store[base as int] == t);
        assert forall|i: int| 0 <= i < t.entries.len() implies T::readable(
            store,
            seq![#[trigger] array_part(t)[i]],
        ) by {
            lemma_array_of(vals, i);
            self@[i].lemma_flat_push(store.len(), 0);
            self@[i].lemma_round_trip(store, &self@[i]);
            let p = self@[i].outcome(0)->Ok_0;
            assert(store + p.tables =~= store);
            assert(p.vals =~= seq![vals[i]]);
        }
        if Self::decodes(store, seq![Value::Table(base)], *r) {
            assert forall|i: int| 0 <= i < r@.len() implies (#[trigger] r@[i]).same(&self@[i]) by {
                lemma_array_of(vals, i);
                self@[i].lemma_flat_push(store.len(), 0);
                self@[i].lemma_round_trip(store, &r@[i]);
                let p = self@[i].outcome(0)->Ok_0;
                assert(store + p.tables =~= store);
                assert(p.vals =~= seq![vals[i]]);
            }
        }
    }
}

/// The key that the pair at place `i` goes over as.
pub open spec fn key_of<K: Push, V: Push>(pairs: Seq<(K, V)>, i: int) -> Value {
    pairs[i].0.outcome(0)->Ok_0.vals[0]
}

/// The value that the pair at place `i` goes over as.
pub open spec fn value_of<K: Push, V: Push>(pairs: Seq<(K, V)>, i: int) -> Value {
    pairs[i].1.outcome(0)->Ok_0.vals[0]
}

/// Whether each key and each value of the pairs goes over as one value
/// that is not nil, and no two keys go over as the same value.
pub open spec fn distinct_pairs<K: Push, V: Push>(pairs: Seq<(K, V)>) -> bool {
    &&& forall|i: int|
        0 <= i < pairs.len() ==> {
            &&& (#[trigger] pairs[i]).0.outcome(0) matches Ok(k)
            &&& pairs[i].1.outcome(0) matches Ok(v)
            &&& k.vals.len() == 1
            &&& v.vals.len() == 1
            &&& k.vals[0] != Value::Nil
            &&& v.vals[0] != Value::Nil
        }
    &&& forall|i: int, j: int|
        0 <= i < j < pairs.len() ==> #[trigger] key_of(pairs, i) != #[trigger] key_of(pairs, j)
}

/// The table that holds the pairs as its entries, in their order.
pub open spec fn map_of<K: Push, V: Push>(pairs: Seq<(K, V)>) -> TableValue {
    TableValue {
        entries: Seq::new(pairs.len(), |i: int| (key_of(pairs, i), value_of(pairs, i))),
        metatable: None,
    }
}

/// Pairs that cross without a table and have distinct keys make one table:
/// the one that holds them as its entries, in their order.
pub proof fn lemma_table_of_pairs<K: Flat, V: Flat>(pairs: Seq<(K, V)>, base: nat)
    requires
        distinct_pairs(pairs),
    ensures
        table_of(pairs, base) == Ok::<
            Seq<TableValue>,
            PushIterError<TuplePushError<K::Err, V::Err>>,
        >(seq![map_of(pairs)]),
    decreases pairs.len(),
{
    if pairs.len() == 0 {
        assert(map_of(pairs).entries =~= TableValue::empty().entries);
    } else {
        let front = pairs.drop_last();
        let n = pairs.len() as int;
        assert forall|i: int| 0 <= i < front.len() implies {
            &&& (#[trigger] front[i]).0.outcome(0) matches Ok(k)
            &&& front[i].1.outcome(0) matches Ok(v)
            &&& k.vals.len() == 1
            &&& v.vals.len() == 1
            &&& k.vals[0] != Value::Nil
            &&& v.vals[0] != Value::Nil
        } by {
            assert(front[i] == pairs[i]);
        }
        assert forall|i: int, j: int| 0 <= i < j < front.len() implies #[trigger] key_of(front, i)
            != #[trigger] key_of(front, j) by {
            assert(front[i] == pairs[i]);
            assert(front[j] == pairs[j]);
            assert(key_of(pairs, i) != key_of(pairs, j));
        }
        lemma_table_of_pairs(front, base);
        let t = map_of(front);
        assert(pairs[n - 1] == pairs.last());
        let key = key_of(pairs, n - 1);
        let value = value_of(pairs, n - 1);
        pairs.last().0.lemma_flat_push(base + 1, 0);
        pairs.last().1.lemma_flat_push(base + 1, 0);
        assert(!t.has_key(key)) by {
            if t.has_key(key) {
                t.lemma_has_key(key);
                let p = t.position(key);
                assert(front[p] == pairs[p]);
                assert(key_of(pairs, p) != key_of(pairs, n - 1));
            }
        }
        assert(t.set(key, value).entries =~= map_of(pairs).entries) by {
            assert forall|i: int| 0 <= i < n - 1 implies (key_of(front, i), value_of(front, i))
                == (key_of(pairs, i), value_of(pairs, i)) by {
                assert(front[i] == pairs[i]);
            }
        }
        let both = pairs.last().outcome(base + 1)->Ok_0;
        assert(both.vals =~= seq![key, value]);
        assert(both.tables =~= Seq::<TableValue>::empty());
        assert(stored(t, both.vals, n) == t.set(key, value));
        assert(seq![t].update(0, t.set(key, value)) + both.tables =~= seq![map_of(pairs)]);
    }
}

/// A mapping of keys and values that cross without a table comes back as
/// it was where each of its keys and values does, each goes over as one
/// value that is not nil, and no two keys go over as the same value.
impl<K: RoundTrip + Flat + PushOne, V: RoundTrip + Flat + PushOne> RoundTrip for TableMap<K, V> {
    open spec fn faithful(&self, base: nat) -> bool {
        &&& distinct_pairs(self.pairs@)
        &&& forall|i: int|
            0 <= i < self.pairs@.len() ==> (#[trigger] self.pairs@[i]).0.faithful(base + 1)
                && self.pairs@[i].1.faithful(base + 1)
    }

    open spec fn same(&self, other: &TableMap<K, V>) -> bool {
        &&& self.pairs@.len() == other.pairs@.len()
        &&& forall|i: int|
            0 <= i < self.pairs@.len() ==> (#[trigger] self.pairs@[i]).0.same(&other.pairs@[i].0)
                && self.pairs@[i].1.same(&other.pairs@[i].1)
    }

    proof fn lemma_round_trip(&self, tables: Seq<TableValue>, r: &TableMap<K, V>) {
        let pairs = self.pairs@;
        let base = tables.len();
        lemma_table_of_pairs(pairs, base);
        let t = map_of(pairs);
        let store = tables + seq![t];
        assert(store[base as int] == t);
        assert forall|i: int| 0 <= i < t.entries.len() implies K::readable(
            store,
            seq![(#[trigger] t.entries[i]).0],
        ) && V::readable(store, seq![t.entries[i].1]) by {
            pairs[i].0.lemma_flat_push(store.len(), 0);
            pairs[i].1.lemma_flat_push(store.len(), 0);
            pairs[i].0.lemma_round_trip(store, &pairs[i].0);
            pairs[i].1.lemma_round_trip(store, &pairs[i].1);
            assert(store + pairs[i].0.outcome(0)->Ok_0.tables =~= store);
            assert(store + pairs[i].1.outcome(0)->Ok_0.tables =~= store);
            assert(pairs[i].0.outcome(0)->Ok_0.vals =~= seq![t.entries[i].0]);
            assert(pairs[i].1.outcome(0)->Ok_0.vals =~= seq![t.entries[i].1]);
        }
        if Self::decodes(store, seq![Value::Table(base)], *r) {
            assert forall|i: int| 0 <= i < r.pairs@.len() implies (#[trigger] r.pairs@[i]).0.same(
                &pairs[i].0,
            ) && r.pairs@[i].1.same(&pairs[i].1) by {
                pairs[i].0.lemma_flat_push(store.len(), 0);
                pairs[i].1.lemma_flat_push(store.len(), 0);
                pairs[i].0.lemma_round_trip(store, &r.pairs@[i].0);
                pairs[i].1.lemma_round_trip(store, &r.pairs@[i].1);
                assert(store + pairs[i].0.outcome(0)->Ok_0.tables =~= store);
                assert(store + pairs[i].1.outcome(0)->Ok_0.tables =~= store);
                assert(pairs[i].0.outcome(0)->Ok_0.vals =~= seq![t.entries[i].0]);
                assert(pairs[i].1.outcome(0)->Ok_0.vals =~= seq![t.entries[i].1]);
            }
        }
    }
}

} // verus!
