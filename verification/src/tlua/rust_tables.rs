use crate::tlua::guard::PushGuard;
use crate::tlua::push::{Push, PushOne, Pushed};
use crate::tlua::read::LuaRead;
use crate::tlua::state::{Lua, LUAI_MAXCSTACK};
use crate::tlua::tuples::TuplePushError;
use crate::tlua::value::{LuaValue, TableValue, Value};
use vstd::prelude::*;
use vstd::string::StringExecFns;

verus! {

/// What went wrong when a sequence of host values was to become a table.
#[derive(Debug)]
pub enum PushIterError<E> {
    /// An item put more than two values on the stack: so many.
    TooManyValues(i32),
    /// An item could not be pushed.
    ValuePushError(E),
}

/// What pushing one item of a sequence comes to in a context whose store
/// holds `base` tables: an item that cannot be pushed, or that has more
/// than two values, is an error.
pub open spec fn item_outcome<T: Push>(item: T, base: nat) -> Result<
    Pushed,
    PushIterError<T::Err>,
> {
    match item.outcome(base) {
        Err(e) => Err(PushIterError::ValuePushError(e)),
        Ok(p) => if p.vals.len() > 2 {
            Err(PushIterError::TooManyValues(p.vals.len() as i32))
        } else {
            Ok(p)
        },
    }
}

/// The table `t` after an item that went over as `vals` and stands at
/// `place` in its sequence, counted from 1, was stored in it: one value is
/// stored under its place, a key and a value are stored as that entry, and
/// no value stores nothing.
pub open spec fn stored(t: TableValue, vals: Seq<Value>, place: int) -> TableValue {
    if vals.len() == 1 {
        t.set(Value::Number(place), vals[0])
    } else if vals.len() == 2 {
        t.set(vals[0], vals[1])
    } else {
        t
    }
}

/// The tables that pushing the items as one table makes, in a context
/// whose store holds `base` tables: first the table of the items itself,
/// then the tables that the items made, in their order. The first item that
/// fails decides the error.
pub open spec fn table_of<T: Push>(items: Seq<T>, base: nat) -> Result<
    Seq<TableValue>,
    PushIterError<T::Err>,
>
    decreases items.len(),
{
    if items.len() == 0 {
        Ok(seq![TableValue::empty()])
    } else {
        match table_of(items.drop_last(), base) {
            Err(e) => Err(e),
            Ok(ts) => match item_outcome(items.last(), base + ts.len()) {
                Err(e) => Err(e),
                Ok(p) => Ok(
                    ts.update(0, stored(ts[0], p.vals, items.len() as int)) + p.tables,
                ),
            },
        }
    }
}

/// Stores `item`, which stands at `place` in its sequence, in the table on
/// top of the stack; leaves the context as it was where that fails.
fn store_item<T: Push>(lua: &mut Lua, item: &T, place: i64) -> (r: Result<
    (),
    PushIterError<T::Err>,
>)
    requires
        old(lua).inv(),
        old(lua)@.height() >= 1,
        old(lua)@.top() is Table,
        old(lua)@.height() + item.peak() <= LUAI_MAXCSTACK,
    ensures
        final(lua).inv(),
        match r {
            Ok(_) => item_outcome(*item, old(lua)@.tables.len()) matches Ok(p) && final(lua)@
                == old(lua)@.appended(p.tables).with_table(
                old(lua)@.top()->Table_0,
                stored(old(lua)@.table_at(-1), p.vals, place as int),
            ),
            Err(e) => item_outcome(*item, old(lua)@.tables.len()) == Err::<
                Pushed,
                PushIterError<T::Err>,
            >(e) && final(lua)@ == old(lua)@,
        },
{
    let ghost here = lua@;
    let ghost id = here.top()->Table_0;
    let count = lua.table_count();
    proof {
        here.lemma_slot_within(-1);
        assert(here.values_from(-1)[0] == here.top());
    }
    match item.push_to_lua(lua) {
        Err(e) => Err(PushIterError::ValuePushError(e)),
        Ok(guard) => {
            let size = guard.forget();
            let ghost p = item.outcome(here.tables.len())->Ok_0;
            let ghost t = here.tables[id as int];
            assert(lua@.stack =~= here.stack + p.vals);
            assert(lua@.tables[id as int] == t);
            if size == 0 {
                assert(lua@.stack =~= here.stack);
                assert(lua@.tables =~= here.appended(p.tables).with_table(id, t).tables);
                Ok(())
            } else if size == 1 {
                assert(lua@.values_from(-2)[0] == here.top());
                lua.rawseti(-2, place);
                assert(lua@.stack =~= here.stack);
                Ok(())
            } else if size == 2 {
                assert(lua@.values_from(-3)[0] == here.top());
                lua.settable(-3);
                assert(lua@.stack =~= here.stack);
                Ok(())
            } else {
                lua.pop(size);
                assert(lua@.stack =~= here.stack);
                assert(lua@.tables.take(count as int) =~= here.tables);
                lua.truncate_tables(count);
                Err(PushIterError::TooManyValues(size))
            }
        },
    }
}

/// The largest bound that an item has on the slots that its push uses.
pub open spec fn max_peak<T: Push>(items: Seq<T>) -> nat
    decreases items.len(),
{
    if items.len() == 0 {
        0
    } else {
        let rest = max_peak(items.drop_last());
        if items.last().peak() > rest {
            items.last().peak()
        } else {
            rest
        }
    }
}

/// No item needs more slots than the largest bound.
pub proof fn lemma_max_peak<T: Push>(items: Seq<T>, i: int)
    requires
        0 <= i < items.len(),
    ensures
        items[i].peak() <= max_peak(items),
    decreases items.len(),
{
    if i < items.len() - 1 {
        lemma_max_peak(items.drop_last(), i);
    }
}

/// A bound on what every item needs is a bound on what the neediest needs.
pub proof fn lemma_max_peak_bound<T: Push>(items: Seq<T>, bound: nat)
    requires
        forall|i: int| 0 <= i < items.len() ==> (#[trigger] items[i]).peak() <= bound,
    ensures
        max_peak(items) <= bound,
    decreases items.len(),
{
    if items.len() > 0 {
        let front = items.drop_last();
        assert forall|i: int| 0 <= i < front.len() implies (#[trigger] front[i]).peak()
            <= bound by {
            assert(front[i] == items[i]);
        }
        lemma_max_peak_bound(front, bound);
        assert(items.last() == items[items.len() - 1]);
    }
}

/// An error among the first items is the error of the whole sequence.
pub proof fn lemma_table_of_prefix<T: Push>(items: Seq<T>, k: int, base: nat)
    requires
        0 <= k <= items.len(),
        table_of(items.take(k), base) is Err,
    ensures
        table_of(items, base) == table_of(items.take(k), base),
    decreases items.len() - k,
{
    if k < items.len() {
        assert(items.take(k + 1).drop_last() =~= items.take(k));
        lemma_table_of_prefix(items, k + 1, base);
    } else {
        assert(items.take(k) =~= items);
    }
}

/// A sequence of host values goes over as one new table.
impl<T: Push> Push for Vec<T> {
    type Err = PushIterError<T::Err>;

    open spec fn outcome(&self, base: nat) -> Result<Pushed, PushIterError<T::Err>> {
        match table_of(self@, base) {
            Ok(ts) => Ok(Pushed { vals: seq![Value::Table(base)], tables: ts }),
            Err(e) => Err(e),
        }
    }

    /// The slot of the table and what the neediest item uses above it. A
    /// sequence of more items than a key can count has no bound that a
    /// stack could meet.
    open spec fn peak(&self) -> nat {
        if self@.len() < i64::MAX {
            1 + max_peak(self@)
        } else {
            (LUAI_MAXCSTACK + 1) as nat
        }
    }

    fn push_to_lua(&self, lua: &mut Lua) -> (r: Result<PushGuard, PushIterError<T::Err>>) {
        let ghost before = lua@;
        let ghost base = before.tables.len();
        let count = lua.table_count();
        let n = self.len();
        lua.newtable();
        let mut i: usize = 0;
        let mut failed: Option<PushIterError<T::Err>> = None;
        assert(self@.take(0) =~= Seq::<T>::empty());
        assert(lua@.tables =~= before.tables + seq![TableValue::empty()]);
        while i < n && failed.is_none()
            invariant
                lua.inv(),
                before.wf(),
                0 <= i <= n,
                n == self@.len(),
                n < i64::MAX,
                base == before.tables.len(),
                count == base,
                before.height() + 1 + max_peak(self@) <= LUAI_MAXCSTACK,
                failed is None ==> (table_of(self@.take(i as int), base) matches Ok(ts) && ts.len()
                    >= 1 && lua@ =~= before.appended(ts).pushed(seq![Value::Table(base)])),
                failed matches Some(e) ==> (table_of(self@, base) == Err::<
                    Seq<TableValue>,
                    PushIterError<T::Err>,
                >(e) && lua@ =~= before),
            decreases n - i + (if failed is None { 1int } else { 0int }),
        {
            let ghost ts = table_of(self@.take(i as int), base)->Ok_0;
            let ghost here = lua@;
            proof {
                lemma_max_peak(self@, i as int);
                assert(self@.take(i + 1).drop_last() =~= self@.take(i as int));
                assert(self@.take(i + 1).last() == self@[i as int]);
                assert(here.top() == Value::Table(base));
                assert(here.values_from(-1)[0] == here.top());
                assert(here.table_at(-1) == ts[0]);
            }
            match store_item(lua, &self[i], (i + 1) as i64) {
                Ok(_) => {
                    proof {
                        let p = item_outcome(self@[i as int], here.tables.len())->Ok_0;
                        let next = ts.update(0, stored(ts[0], p.vals, i + 1)) + p.tables;
                        assert(lua@.tables =~= before.tables + next);
                    }
                    i += 1;
                },
                Err(e) => {
                    lua.pop(1);
                    proof {
                        assert(lua@.stack =~= before.stack);
                        assert(lua@.tables.take(count as int) =~= before.tables);
                        lemma_table_of_prefix(self@, i + 1, base);
                    }
                    lua.truncate_tables(count);
                    failed = Some(e);
                },
            }
        }
        match failed {
            Some(e) => Err(e),
            None => {
                assert(self@.take(n as int) =~= self@);
                Ok(PushGuard::new(lua, 1))
            },
        }
    }
}

impl<T: Push> PushOne for Vec<T> {
    proof fn lemma_pushes_one(&self, base: nat) {
    }
}

/// The values that a table holds under the numbers from 1 to the number of
/// its entries.
pub open spec fn array_part(t: TableValue) -> Seq<Value> {
    Seq::new(t.entries.len(), |i: int| t.get(Value::Number(i + 1)))
}

/// A table reads as a sequence where each value under the numbers from 1
/// to the number of its entries reads as an item.
impl<T: LuaRead> LuaRead for Vec<T> {
    open spec fn expected_name_spec() -> Seq<char> {
        "Vec<"@ + T::expected_name_spec() + ">"@
    }

    open spec fn n_values_spec() -> int {
        1
    }

    open spec fn readable(tables: Seq<TableValue>, vals: Seq<Value>) -> bool {
        &&& vals.len() > 0
        &&& vals[0] matches Value::Table(id)
        &&& id < tables.len()
        &&& tables[id as int].entries.len() < i64::MAX
        &&& forall|i: int|
            0 <= i < tables[id as int].entries.len() ==> T::readable(
                tables,
                seq![#[trigger] array_part(tables[id as int])[i]],
            )
    }

    open spec fn decodes(tables: Seq<TableValue>, vals: Seq<Value>, r: Vec<T>) -> bool {
        &&& vals.len() > 0
        &&& vals[0] matches Value::Table(id)
        &&& id < tables.len()
        &&& r@.len() == tables[id as int].entries.len()
        &&& forall|i: int|
            0 <= i < r@.len() ==> T::decodes(
                tables,
                seq![array_part(tables[id as int])[i]],
                #[trigger] r@[i],
            )
    }

    fn expected_name() -> (s: String) {
        let mut s = String::from_str("Vec<");
        let inner = T::expected_name();
        s.append(inner.as_str());
        s.append(">");
        s
    }

    fn n_values_expected() -> (n: i32) {
        1
    }

    fn lua_read_at_position(lua: &Lua, index: i32) -> (r: Option<Vec<T>>) {
        let id = match lua.totable(index) {
            Some(id) => id,
            None => {
                return None;
            },
        };
        let table = lua.table_data(id);
        let ghost tables = lua@.tables;
        let ghost t = tables[id as int];
        assert(lua@.values_from(index as int)[0] == Value::Table(id as nat));
        let n = table.entries.len();
        if n as u64 >= i64::MAX as u64 {
            return None;
        }
        let mut scratch = lua.fork();
        let mut items: Vec<T> = Vec::new();
        let mut i: usize = 0;
        while i < n
            invariant
                lua@.values_from(index as int).len() > 0,
                lua@.values_from(index as int)[0] == Value::Table(id as nat),
                tables == lua@.tables,
                id < tables.len(),
                scratch.inv(),
                scratch@.tables == tables,
                scratch@.height() == 0,
                0 <= i <= n,
                n == t.entries.len(),
                n < i64::MAX,
                t == table.model(),
                t == tables[id as int],
                t.wf(tables.len()),
                items@.len() == i,
                forall|j: int|
                    0 <= j < i ==> T::readable(tables, seq![#[trigger] array_part(t)[j]]),
                forall|j: int|
                    0 <= j < i ==> T::decodes(tables, seq![array_part(t)[j]], #[trigger] items@[j]),
            decreases n - i,
        {
            let found = table.get(&LuaValue::Number((i + 1) as i64));
            proof {
                t.lemma_get_within(Value::Number(i + 1), tables.len());
                assert(array_part(t)[i as int] == found.model());
            }
            scratch.push_value(found);
            assert(scratch@.values_from(-1) =~= seq![array_part(t)[i as int]]);
            let item = T::lua_read_at_position(&scratch, -1);
            scratch.pop(1);
            match item {
                Some(item) => {
                    items.push(item);
                },
                None => {
                    assert(!T::readable(tables, seq![array_part(t)[i as int]]));
                    return None;
                },
            }
            i += 1;
        }
        Some(items)
    }
}

/// An associative mapping held by the host: its pairs of a key and a value,
/// in the order in which they are stored and walked.
#[derive(Debug)]
pub struct TableMap<K, V> {
    pub pairs: Vec<(K, V)>,
}

/// A mapping goes over as one new table, filled pair by pair.
impl<K: PushOne, V: PushOne> Push for TableMap<K, V> {
    type Err = PushIterError<TuplePushError<K::Err, V::Err>>;

    open spec fn outcome(&self, base: nat) -> Result<Pushed, Self::Err> {
        self.pairs.outcome(base)
    }

    open spec fn peak(&self) -> nat {
        self.pairs.peak()
    }

    fn push_to_lua(&self, lua: &mut Lua) -> (r: Result<PushGuard, Self::Err>) {
        self.pairs.push_to_lua(lua)
    }
}

impl<K: PushOne, V: PushOne> PushOne for TableMap<K, V> {
    proof fn lemma_pushes_one(&self, base: nat) {
    }
}

/// A table reads as a mapping where each of its keys reads as a key and
/// each of its values as a value.
impl<K: LuaRead, V: LuaRead> LuaRead for TableMap<K, V> {
    open spec fn expected_name_spec() -> Seq<char> {
        "TableMap<"@ + K::expected_name_spec() + ", "@ + V::expected_name_spec() + ">"@
    }

    open spec fn n_values_spec() -> int {
        1
    }

    open spec fn readable(tables: Seq<TableValue>, vals: Seq<Value>) -> bool {
        &&& vals.len() > 0
        &&& vals[0] matches Value::Table(id)
        &&& id < tables.len()
        &&& forall|i: int|
            0 <= i < tables[id as int].entries.len() ==> K::readable(
                tables,
                seq![(#[trigger] tables[id as int].entries[i]).0],
            ) && V::readable(tables, seq![tables[id as int].entries[i].1])
    }

    open spec fn decodes(tables: Seq<TableValue>, vals: Seq<Value>, r: TableMap<K, V>) -> bool {
        &&& vals.len() > 0
        &&& vals[0] matches Value::Table(id)
        &&& id < tables.len()
        &&& r.pairs@.len() == tables[id as int].entries.len()
        &&& forall|i: int|
            0 <= i < r.pairs@.len() ==> K::decodes(
                tables,
                seq![tables[id as int].entries[i].0],
                (#[trigger] r.pairs@[i]).0,
            ) && V::decodes(tables, seq![tables[id as int].entries[i].1], r.pairs@[i].1)
    }

    fn expected_name() -> (s: String) {
        let mut s = String::from_str("TableMap<");
        let key = K::expected_name();
        s.append(key.as_str());
        s.append(", ");
        let value = V::expected_name();
        s.append(value.as_str());
        s.append(">");
        s
    }

    fn n_values_expected() -> (n: i32) {
        1
    }

    fn lua_read_at_position(lua: &Lua, index: i32) -> (r: Option<TableMap<K, V>>) {
        let id = match lua.totable(index) {
            Some(id) => id,
            None => {
                return None;
            },
        };
        let table = lua.table_data(id);
        let ghost tables = lua@.tables;
        let ghost t = tables[id as int];
        assert(lua@.values_from(index as int)[0] == Value::Table(id as nat));
        let n = table.entries.len();
        let mut scratch = lua.fork();
        let mut pairs: Vec<(K, V)> = Vec::new();
        let mut i: usize = 0;
        while i < n
            invariant
                lua@.values_from(index as int).len() > 0,
                lua@.values_from(index as int)[0] == Value::Table(id as nat),
                tables == lua@.tables,
                id < tables.len(),
                scratch.inv(),
                scratch@.tables == tables,
                scratch@.height() == 0,
                0 <= i <= n,
                n == t.entries.len(),
                n == table.entries@.len(),
                t == table.model(),
                t == tables[id as int],
                t.wf(tables.len()),
                pairs@.len() == i,
                forall|j: int|
                    0 <= j < i ==> K::readable(tables, seq![(#[trigger] t.entries[j]).0])
                        && V::readable(tables, seq![t.entries[j].1]),
                forall|j: int|
                    0 <= j < i ==> K::decodes(tables, seq![t.entries[j].0], (#[trigger] pairs@[j]).0)
                        && V::decodes(tables, seq![t.entries[j].1], pairs@[j].1),
            decreases n - i,
        {
            let ghost entry = t.entries[i as int];
            assert(entry.0.within(tables.len()) && entry.1.within(tables.len()));
            assert(entry == (table.entries@[i as int].0.model(), table.entries@[i as int].1.model()));
            scratch.push_value(table.entries[i].0.duplicate());
            assert(scratch@.values_from(-1) =~= seq![entry.0]);
            let key = K::lua_read_at_position(&scratch, -1);
            scratch.pop(1);
            scratch.push_value(table.entries[i].1.duplicate());
            assert(scratch@.values_from(-1) =~= seq![entry.1]);
            let value = V::lua_read_at_position(&scratch, -1);
            scratch.pop(1);
            match (key, value) {
                (Some(k), Some(v)) => {
                    pairs.push((k, v));
                },
                _ => {
                    assert(!(K::readable(tables, seq![t.entries[i as int].0]) && V::readable(
                        tables,
                        seq![t.entries[i as int].1],
                    )));
                    return None;
                },
            }
            i += 1;
        }
        Some(TableMap { pairs })
    }
}

} // verus!
