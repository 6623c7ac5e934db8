use crate::tlua::error::LuaError;
use crate::tlua::guard::{AbsoluteIndex, PushGuard};
use crate::tlua::lua_functions::{finish_run, run_gives, LuaFunctionCallError, Run};
use crate::tlua::push::{Push, PushInto, PushOne, PushOneInto, Void};
use crate::tlua::read::LuaRead;
use crate::tlua::state::{Lua, LuaState, LUAI_MAXCSTACK, LUA_REGISTRYINDEX, REGISTRY};
use crate::tlua::value::{models, table_models, LuaValue, TableData, TableValue, Value};
use std::marker::PhantomData;
use vstd::prelude::*;
use vstd::std_specs::convert::FromSpecImpl;

verus! {

/// What went wrong when a key and a value were to be stored in a table.
#[derive(Debug)]
pub enum CheckedSetError<K, V> {
    /// The key could not be pushed.
    KeyPushError(K),
    /// The value could not be pushed.
    ValuePushError(V),
}

/// What went wrong with the call of a method of a table.
#[derive(Debug)]
pub enum MethodCallError<E> {
    /// The table holds no function under the name of the method.
    NoSuchMethod,
    /// The call itself failed.
    LuaError(LuaError),
    /// The arguments could not be pushed.
    PushError(E),
}

impl<E> From<LuaFunctionCallError<E>> for MethodCallError<E> {
    fn from(e: LuaFunctionCallError<E>) -> (r: MethodCallError<E>) {
        match e {
            LuaFunctionCallError::PushError(e) => MethodCallError::PushError(e),
            LuaFunctionCallError::LuaError(e) => MethodCallError::LuaError(e),
        }
    }
}

impl<E> FromSpecImpl<LuaFunctionCallError<E>> for MethodCallError<E> {
    open spec fn obeys_from_spec() -> bool {
        true
    }

    open spec fn from_spec(e: LuaFunctionCallError<E>) -> MethodCallError<E> {
        match e {
            LuaFunctionCallError::PushError(e) => MethodCallError::PushError(e),
            LuaFunctionCallError::LuaError(e) => MethodCallError::LuaError(e),
        }
    }
}

/// Whether `after` and `r` are what the call of a method gives whose
/// arguments were pushed and that ended as `run` reports: see `run_gives`.
pub open spec fn method_gives<R: LuaRead, E>(
    before: LuaState,
    run: Run,
    after: LuaState,
    r: Result<R, MethodCallError<E>>,
) -> bool {
    match r {
        Ok(v) => run_gives(before, run, after, Ok::<R, LuaError>(v)),
        Err(MethodCallError::LuaError(e)) => run_gives(before, run, after, Err::<R, LuaError>(e)),
        Err(_) => false,
    }
}

/// A table of a context: the resolved place of the table, and the guard of
/// the slots that keep it there.
///
/// A table that lies on the stack is held by a guard, which `into_inner`
/// hands back. The table of the globals and the registry lie on no slot:
/// their guard owns nothing.
#[derive(Debug)]
pub struct LuaTable {
    guard: PushGuard,
    index: AbsoluteIndex,
}

impl LuaTable {
    /// The resolved index of the table.
    pub closed spec fn index(&self) -> int {
        self.index.index() as int
    }

    /// The guard that the table holds.
    pub closed spec fn guard(&self) -> PushGuard {
        self.guard
    }

    /// The handle names a table of `lua`, and its guard owns slots that
    /// `lua` has.
    pub open spec fn valid(&self, lua: LuaState) -> bool {
        &&& lua.is_table(self.index())
        &&& !LuaState::is_relative(self.index())
        &&& self.guard().holds(lua)
    }

    /// The table as pure data.
    pub open spec fn contents(&self, lua: LuaState) -> TableValue {
        lua.table_at(self.index())
    }

    fn new(lua: &Lua, guard: PushGuard, index: i32) -> (t: LuaTable)
        requires
            lua.inv(),
            lua@.is_table(index as int),
            guard.holds(lua@),
        ensures
            t.valid(lua@),
            t.index() == lua@.absolute(index as int),
            t.guard() == guard,
    {
        LuaTable { index: AbsoluteIndex::new(index, lua), guard }
    }

    /// The handle of the table at `index`, which takes the guard; the guard
    /// alone, handed back, where `index` stands for no table.
    pub fn lua_read_at_position(lua: &Lua, guard: PushGuard, index: i32) -> (r: Result<
        LuaTable,
        PushGuard,
    >)
        requires
            lua.inv(),
            guard.holds(lua@),
        ensures
            match r {
                Ok(t) => lua@.is_table(index as int) && t.valid(lua@) && t.index()
                    == lua@.absolute(index as int) && t.guard() == guard,
                Err(g) => !lua@.is_table(index as int) && g == guard,
            },
    {
        if lua.istable(index) {
            Ok(LuaTable::new(lua, guard, index))
        } else {
            Err(guard)
        }
    }

    /// Gives up the handle and hands back the guard that it held.
    pub fn into_inner(self) -> (guard: PushGuard)
        ensures
            guard == self.guard(),
    {
        self.guard
    }

    /// The resolved index of the table.
    pub fn position(&self) -> (i: i32)
        ensures
            i == self.index(),
    {
        self.index.into()
    }

    /// The number of the table in the store.
    pub open spec fn id(&self, lua: LuaState) -> nat {
        lua.table_id(self.index())
    }

    /// The number of the table in the store.
    pub fn table_id(&self, lua: &Lua) -> (id: usize)
        requires
            lua.inv(),
            self.valid(lua@),
        ensures
            id == self.id(lua@),
            id < lua@.tables.len(),
    {
        lua.totable(self.index.into()).unwrap()
    }

    /// Puts the table on top of the stack: another slot that names the
    /// same table.
    pub fn push_to_lua(&self, lua: &mut Lua) -> (guard: PushGuard)
        requires
            old(lua).inv(),
            self.valid(old(lua)@),
            old(lua)@.height() < LUAI_MAXCSTACK,
        ensures
            final(lua).inv(),
            final(lua)@ == old(lua)@.pushed(seq![Value::Table(self.id(old(lua)@))]),
            guard.spec_size() == 1,
            guard.spec_top() == final(lua)@.height(),
    {
        lua.pushvalue(self.index.into());
        PushGuard::new(lua, 1)
    }

    /// Looks `index` up in the table at `this_index` and reads what the
    /// table holds under it.
    ///
    /// On success the stack is as before. Where the value cannot be read as
    /// `R`, the value stays on top of the stack, owned by the guard that is
    /// returned, so that it can be read as another type. The tables that
    /// the key made have joined the store.
    pub fn get_impl<R: LuaRead, I: PushOneInto>(lua: &mut Lua, this_index: i32, index: I) -> (r:
        Result<R, PushGuard>) where I::Err: Into<Void>
        requires
            old(lua).inv(),
            old(lua)@.is_table(this_index as int),
            !LuaState::is_relative(this_index as int),
            old(lua)@.height() + index.peak_into() <= LUAI_MAXCSTACK,
        ensures
            final(lua).inv(),
            index.outcome_into(old(lua)@.tables.len()) matches Ok(key) && key.vals.len() == 1 && {
                let found = old(lua)@.table_at(this_index as int).get(key.vals[0]);
                let with_key = old(lua)@.appended(key.tables);
                match r {
                    Ok(v) => {
                        &&& R::readable(with_key.tables, seq![found])
                        &&& R::decodes(with_key.tables, seq![found], v)
                        &&& final(lua)@ == with_key
                    },
                    Err(guard) => {
                        &&& !R::readable(with_key.tables, seq![found])
                        &&& final(lua)@ == with_key.pushed(seq![found])
                        &&& guard.spec_size() == 1
                        &&& guard.spec_top() == final(lua)@.height()
                    },
                }
            },
    {
        let ghost before = lua@;
        proof {
            index.lemma_pushes_one_into(before.tables.len());
            before.lemma_slot_within(this_index as int);
        }
        let pushed = index.push_into_no_err(lua);
        pushed.assert_one_and_forget();
        let ghost key = index.outcome_into(before.tables.len())->Ok_0;
        let ghost with_key = lua@;
        assert(with_key.top() == key.vals[0]);
        assert(with_key.slot(this_index as int) == before.slot(this_index as int));
        assert(with_key.table_at(this_index as int) == before.table_at(this_index as int));
        lua.gettable(this_index);
        let ghost found = before.table_at(this_index as int).get(key.vals[0]);
        assert(lua@.stack =~= before.pushed(seq![found]).stack);
        assert(lua@.values_from(-1) =~= seq![found]);
        let guard = PushGuard::new(lua, 1);
        match R::lua_read_at_position(lua, -1) {
            Some(v) => {
                guard.into_inner(lua);
                assert(lua@.stack =~= before.stack);
                Ok(v)
            },
            None => Err(guard),
        }
    }

    /// Reads what the table holds under `index`; nothing where that cannot
    /// be read as `R`. The stack is left as it was.
    pub fn get<R: LuaRead, I: PushOneInto>(&self, lua: &mut Lua, index: I) -> (r: Option<
        R,
    >) where I::Err: Into<Void>
        requires
            old(lua).inv(),
            self.valid(old(lua)@),
            old(lua)@.height() + index.peak_into() <= LUAI_MAXCSTACK,
        ensures
            final(lua).inv(),
            index.outcome_into(old(lua)@.tables.len()) matches Ok(key) && key.vals.len() == 1 && {
                let found = self.contents(old(lua)@).get(key.vals[0]);
                &&& final(lua)@ == old(lua)@.appended(key.tables)
                &&& r.is_some() == R::readable(final(lua)@.tables, seq![found])
                &&& r matches Some(v) ==> R::decodes(final(lua)@.tables, seq![found], v)
            },
    {
        let ghost before = lua@;
        match Self::get_impl::<R, I>(lua, self.index.into(), index) {
            Ok(v) => Some(v),
            Err(guard) => {
                guard.into_inner(lua);
                let ghost key = index.outcome_into(before.tables.len())->Ok_0;
                assert(lua@.stack =~= before.stack);
                None
            },
        }
    }

    /// Reads what the table holds under `index`, and gives up the table.
    ///
    /// On success the slots of the table's guard are released. Where the
    /// value cannot be read as `R`, it stays on top of the stack, owned by
    /// the guard that is returned beside the table.
    pub fn into_get<R: LuaRead, I: PushOneInto>(self, lua: &mut Lua, index: I) -> (r: Result<
        R,
        (PushGuard, LuaTable),
    >) where I::Err: Into<Void>
        requires
            old(lua).inv(),
            self.valid(old(lua)@),
            old(lua)@.height() + index.peak_into() <= LUAI_MAXCSTACK,
        ensures
            final(lua).inv(),
            index.outcome_into(old(lua)@.tables.len()) matches Ok(key) && key.vals.len() == 1 && {
                let found = self.contents(old(lua)@).get(key.vals[0]);
                let with_key = old(lua)@.appended(key.tables);
                match r {
                    Ok(v) => {
                        &&& R::readable(with_key.tables, seq![found])
                        &&& R::decodes(with_key.tables, seq![found], v)
                        &&& final(lua)@ == with_key.popped(self.guard().spec_size() as int)
                    },
                    Err((guard, table)) => {
                        &&& !R::readable(with_key.tables, seq![found])
                        &&& final(lua)@ == with_key.pushed(seq![found])
                        &&& guard.spec_size() == 1
                        &&& guard.spec_top() == final(lua)@.height()
                        &&& table == self
                    },
                }
            },
    {
        let this_index: i32 = self.index.into();
        match Self::get_impl::<R, I>(lua, this_index, index) {
            Ok(v) => {
                self.guard.into_inner(lua);
                Ok(v)
            },
            Err(guard) => Err((guard, self)),
        }
    }

    /// Stores `value` under `index`, or stores nothing at all.
    ///
    /// Where the key or the value cannot be pushed, the context is left as
    /// it was, and the error tells which of the two failed. A nil key
    /// stores nothing; a nil value removes the entry of the key. Every slot
    /// that names the table finds what was stored.
    pub fn checked_set<I: PushOneInto, V: PushOneInto>(
        &self,
        lua: &mut Lua,
        index: I,
        value: V,
    ) -> (r: Result<(), CheckedSetError<I::Err, V::Err>>)
        requires
            old(lua).inv(),
            self.valid(old(lua)@),
            old(lua)@.height() + index.peak_into() + value.peak_into() <= LUAI_MAXCSTACK,
        ensures
            final(lua).inv(),
            self.valid(final(lua)@),
            self.id(final(lua)@) == self.id(old(lua)@),
            ({
                let base = old(lua)@.tables.len();
                match r {
                    Ok(_) => {
                        &&& index.outcome_into(base) matches Ok(key)
                        &&& value.outcome_into(base + key.tables.len()) matches Ok(val)
                        &&& key.vals.len() == 1
                        &&& val.vals.len() == 1
                        &&& final(lua)@ == old(lua)@.appended(key.tables + val.tables).with_table(
                            self.id(old(lua)@),
                            self.contents(old(lua)@).set(key.vals[0], val.vals[0]),
                        )
                    },
                    Err(CheckedSetError::KeyPushError(e)) => {
                        &&& index.outcome_into(base) is Err
                        &&& index.outcome_into(base)->Err_0 == e
                        &&& final(lua)@ == old(lua)@
                    },
                    Err(CheckedSetError::ValuePushError(e)) => {
                        &&& index.outcome_into(base) matches Ok(key)
                        &&& value.outcome_into(base + key.tables.len()) is Err
                        &&& value.outcome_into(base + key.tables.len())->Err_0 == e
                        &&& final(lua)@ == old(lua)@
                    },
                }
            }),
    {
        let ghost before = lua@;
        let count = lua.table_count();
        proof {
            index.lemma_pushes_one_into(before.tables.len());
            before.lemma_slot_within(self.index());
        }
        let guard = match index.push_into_lua(lua) {
            Ok(guard) => guard,
            Err(err) => {
                return Err(CheckedSetError::KeyPushError(err));
            },
        };
        let ghost key = index.outcome_into(before.tables.len())->Ok_0;
        let ghost with_key = lua@;
        proof {
            value.lemma_pushes_one_into(with_key.tables.len());
        }
        match value.push_into_lua(lua) {
            Ok(pushed) => {
                pushed.forget();
            },
            Err(err) => {
                guard.into_inner(lua);
                assert(lua@.stack =~= before.stack);
                assert(lua@.tables.take(count as int) =~= before.tables);
                lua.truncate_tables(count);
                return Err(CheckedSetError::ValuePushError(err));
            },
        };
        guard.forget();
        let ghost val = value.outcome_into(with_key.tables.len())->Ok_0;
        let ghost both = lua@;
        assert(both.stack =~= before.stack + seq![key.vals[0], val.vals[0]]);
        assert(both.tables =~= before.tables + (key.tables + val.tables));
        assert(both.slot(self.index()) == before.slot(self.index()));
        assert(both.table_at(self.index()) == before.table_at(self.index()));
        lua.settable(self.index.into());
        assert(both.popped(2).stack =~= before.stack);
        assert(lua@.slot(self.index()) == before.slot(self.index()));
        Ok(())
    }

    /// Stores `value` under `index`, for a key and a value whose push
    /// cannot fail. A nil key stores nothing; a nil value removes the entry
    /// of the key. Every slot that names the table finds what was stored.
    pub fn set<I: PushOneInto, V: PushOneInto>(&self, lua: &mut Lua, index: I, value: V) where
        I::Err: Into<Void>,
        V::Err: Into<Void>,

        requires
            old(lua).inv(),
            self.valid(old(lua)@),
            old(lua)@.height() + index.peak_into() + value.peak_into() <= LUAI_MAXCSTACK,
        ensures
            final(lua).inv(),
            self.valid(final(lua)@),
            self.id(final(lua)@) == self.id(old(lua)@),
            ({
                let base = old(lua)@.tables.len();
                &&& index.outcome_into(base) matches Ok(key)
                &&& value.outcome_into(base + key.tables.len()) matches Ok(val)
                &&& key.vals.len() == 1
                &&& val.vals.len() == 1
                &&& final(lua)@ == old(lua)@.appended(key.tables + val.tables).with_table(
                    self.id(old(lua)@),
                    self.contents(old(lua)@).set(key.vals[0], val.vals[0]),
                )
            }),
    {
        match self.checked_set(lua, index, value) {
            Ok(_) => (),
            Err(CheckedSetError::KeyPushError(e)) => {
                let never: Void = e.into();
                proof {
                    use_type_invariant(&never);
                }
            },
            Err(CheckedSetError::ValuePushError(e)) => {
                let never: Void = e.into();
                proof {
                    use_type_invariant(&never);
                }
            },
        }
    }

    /// Calls the function that the table holds under `name`, with the table
    /// itself as the first argument and the values of `args` as the others,
    /// and reads what it returns as `R`.
    ///
    /// `engine` stands for the interpreter, as in
    /// `LuaFunction::call_with_args`: what the method stores in the table
    /// is in the store that the engine reports, and is found in the table
    /// after the call. The stack is left as it was.
    pub fn call_method<
        R: LuaRead,
        A: Push,
        E: FnOnce(u32, Vec<LuaValue>, Vec<TableData>) -> Run,
    >(&self, lua: &mut Lua, name: &str, args: A, engine: E) -> (r: Result<
        R,
        MethodCallError<A::Err>,
    >)
        requires
            old(lua).inv(),
            self.valid(old(lua)@),
            old(lua)@.height() + 2 + args.peak() <= LUAI_MAXCSTACK,
            forall|f: u32, a: Vec<LuaValue>, t: Vec<TableData>| call_requires(engine, (f, a, t)),
        ensures
            final(lua).inv(),
            match self.contents(old(lua)@).get(Value::Text(name@)) {
                Value::Function(id) => match args.outcome(old(lua)@.tables.len()) {
                    Err(e) => r matches Err(MethodCallError::PushError(e2)) && e2 == e && final(lua)@
                        == old(lua)@,
                    Ok(p) => exists|a: Vec<LuaValue>, t: Vec<TableData>, run: Run|
                        {
                            &&& models(a@) == seq![Value::Table(self.id(old(lua)@))] + p.vals
                            &&& table_models(t@) == old(lua)@.tables + p.tables
                            &&& call_ensures(engine, (id as u32, a, t), run)
                            &&& method_gives(old(lua)@.appended(p.tables), run, final(lua)@, r)
                        },
                },
                _ => r is Err && r->Err_0 is NoSuchMethod && final(lua)@ == old(lua)@,
            },
    {
        let ghost before = lua@;
        let ghost t = self.contents(before);
        let this_index: i32 = self.index.into();
        proof {
            before.lemma_slot_within(self.index());
        }
        lua.pushstring(name);
        assert(lua@.slot(self.index()) == before.slot(self.index()));
        lua.gettable(this_index);
        assert(lua@.stack =~= before.stack + seq![t.get(Value::Text(name@))]);
        let id = match lua.tofunction(-1) {
            Some(id) => id,
            None => {
                lua.pop(1);
                assert(lua@.stack =~= before.stack);
                return Err(MethodCallError::NoSuchMethod);
            },
        };
        assert(lua@.slot(self.index()) == before.slot(self.index()));
        lua.pushvalue(this_index);
        let count = match args.push_to_lua(lua) {
            Ok(guard) => guard.forget(),
            Err(e) => {
                lua.pop(2);
                assert(lua@.stack =~= before.stack);
                return Err(MethodCallError::PushError(e));
            },
        };
        let ghost p = args.outcome(before.tables.len())->Ok_0;
        let taken = lua.take(count + 1);
        assert(models(taken@) =~= seq![Value::Table(self.id(before))] + p.vals);
        lua.pop(1);
        assert(lua@.stack =~= before.stack);
        assert(lua@ == before.appended(p.tables));
        let tables = lua.tables_copy();
        let ghost handed = tables;
        let ghost mid = lua@;
        let run = engine(id, taken, tables);
        let ghost told = run;
        let r = match finish_run::<R>(lua, run) {
            Ok(v) => Ok(v),
            Err(e) => Err(MethodCallError::LuaError(e)),
        };
        assert(models(taken@) == seq![Value::Table(self.id(before))] + p.vals && table_models(
            handed@,
        ) == before.tables + p.tables && call_ensures(engine, (id, taken, handed), told)
            && method_gives(mid, told, lua@, r));
        r
    }

    /// The registry of `lua`.
    pub fn registry(lua: &Lua) -> (t: LuaTable)
        requires
            lua.inv(),
        ensures
            t.valid(lua@),
            t.index() == LUA_REGISTRYINDEX,
            t.guard().spec_size() == 0,
            t.id(lua@) == REGISTRY,
    {
        LuaTable::new(lua, PushGuard::new(lua, 0), LUA_REGISTRYINDEX)
    }

    /// Starts a walk over the entries of the table: puts nil, the key
    /// before the first entry, on top of the stack.
    pub fn iter<K, V>(&self, lua: &mut Lua) -> (it: LuaTableIterator<K, V>)
        requires
            old(lua).inv(),
            self.valid(old(lua)@),
            old(lua)@.height() + 2 <= LUAI_MAXCSTACK,
        ensures
            final(lua).inv(),
            final(lua)@ == old(lua)@.pushed(seq![Value::Nil]),
            it.valid(final(lua)@),
            it.table_index() == self.index(),
            !it.is_finished(),
            it.last_top() == final(lua)@.height(),
    {
        lua.pushnil();
        LuaTableIterator {
            table: self.index,
            finished: false,
            last_top: lua.gettop(),
            marker: PhantomData,
        }
    }

    /// Walks the whole table and returns, for each entry in the order of
    /// the walk, the key and the value as `K` and `V`, or nothing for an
    /// entry that cannot be read so. A table of N entries gives N items;
    /// the context is left as it was, so that another walk gives them
    /// again.
    pub fn entries<K: LuaRead, V: LuaRead>(&self, lua: &mut Lua) -> (items: Vec<Option<(K, V)>>)
        requires
            old(lua).inv(),
            self.valid(old(lua)@),
            old(lua)@.height() + 2 <= LUAI_MAXCSTACK,
        ensures
            final(lua).inv(),
            final(lua)@ == old(lua)@,
            items@.len() == self.contents(old(lua)@).entries.len(),
            forall|i: int|
                0 <= i < items@.len() ==> reads_entry(
                    old(lua)@.tables,
                    self.contents(old(lua)@).entries[i],
                    #[trigger] items@[i],
                ),
    {
        let ghost before = lua@;
        let ghost t = self.contents(before);
        let ghost n = t.entries.len() as int;
        proof {
            before.lemma_slot_within(self.index());
        }
        let mut it = self.iter::<K, V>(lua);
        let mut items: Vec<Option<(K, V)>> = Vec::new();
        let mut done = false;
        while !done
            invariant
                lua.inv(),
                it.valid(lua@),
                it.table_index() == self.index(),
                it.last_top() == before.height() + 1,
                t == before.table_at(self.index()),
                t.keys_once(),
                n == t.entries.len(),
                !LuaState::is_relative(self.index()),
                before.is_table(self.index()),
                self.index() <= before.height(),
                0 <= items@.len() <= n,
                done == it.is_finished(),
                !done ==> lua@ == before.pushed(
                    seq![
                        if items@.len() == 0 {
                            Value::Nil
                        } else {
                            t.entries[items@.len() - 1].0
                        },
                    ],
                ),
                done ==> lua@ == before && items@.len() == n,
                forall|i: int|
                    0 <= i < items@.len() ==> reads_entry(
                        before.tables,
                        t.entries[i],
                        #[trigger] items@[i],
                    ),
            decreases n - items@.len() + (if done { 0int } else { 1int }),
        {
            let ghost i = items@.len() as int;
            let ghost here = lua@;
            proof {
                t.lemma_walk(i);
                assert(here.top() == (if i == 0 {
                    Value::Nil
                } else {
                    t.entries[i - 1].0
                }));
                assert(here.table_at(self.index()) == t);
                assert(here.popped(1).stack =~= before.stack);
            }
            match it.next(lua) {
                Some(item) => {
                    items.push(item);
                    assert(lua@.stack =~= before.pushed(seq![t.entries[i].0]).stack);
                },
                None => {
                    done = true;
                },
            }
        }
        items
    }

    /// Makes a new, empty table, stores it under `index`, which is not nil,
    /// and puts it on top of the stack; the handle that is returned holds
    /// the guard of that slot and names the table that was stored.
    pub fn empty_array<I: PushOne>(&self, lua: &mut Lua, index: I) -> (r: LuaTable) where
        I::Err: Into<Void>,

        requires
            old(lua).inv(),
            self.valid(old(lua)@),
            old(lua)@.height() + index.peak() + 2 <= LUAI_MAXCSTACK,
            index.outcome(old(lua)@.tables.len() + 1) matches Ok(key) ==> key.vals[0] != Value::Nil,
        ensures
            final(lua).inv(),
            ({
                let base = old(lua)@.tables.len();
                &&& index.outcome(base + 1) matches Ok(key)
                &&& key.vals.len() == 1
                &&& final(lua)@ == old(lua)@.appended(
                    seq![TableValue::empty()] + key.tables,
                ).with_table(
                    self.id(old(lua)@),
                    self.contents(old(lua)@).set(key.vals[0], Value::Table(base)),
                ).pushed(seq![Value::Table(base)])
                &&& r.id(final(lua)@) == base
            }),
            r.valid(final(lua)@),
            r.index() == final(lua)@.height(),
            r.guard().spec_size() == 1,
            r.guard().spec_top() == final(lua)@.height(),
    {
        let ghost before = lua@;
        let ghost t = self.contents(before);
        let ghost base = before.tables.len();
        let this_index: i32 = self.index.into();
        proof {
            index.lemma_pushes_one(base + 1);
            before.lemma_slot_within(self.index());
        }
        lua.newtable();
        let ghost made = lua@;
        assert(made.slot(self.index()) == before.slot(self.index()));
        index.push_no_err(lua).assert_one_and_forget();
        let ghost key = index.outcome(base + 1)->Ok_0;
        lua.pushvalue(-2);
        assert(lua@.stack =~= before.stack + seq![Value::Table(base), key.vals[0], Value::Table(base)]);
        assert(lua@.tables =~= before.tables + (seq![TableValue::empty()] + key.tables));
        assert(lua@.slot(self.index()) == before.slot(self.index()));
        assert(lua@.table_at(self.index()) == t);
        lua.settable(this_index);
        assert(lua@.stack =~= before.stack + seq![Value::Table(base)]);
        assert(lua@.values_from(-1)[0] == Value::Table(base));
        let guard = PushGuard::new(lua, 1);
        LuaTable::new(lua, guard, -1)
    }

    /// Puts the metatable of the table on top of the stack, after giving
    /// the table a new, empty metatable where it had none. Asking again
    /// finds the same metatable: the handle names the metatable itself,
    /// and what is stored through it is found by every later call.
    ///
    /// The handle that is returned holds the slot of the metatable together
    /// with the slots that this handle held, which are the topmost of the
    /// stack where there are any.
    pub fn get_or_create_metatable(self, lua: &mut Lua) -> (r: LuaTable)
        requires
            old(lua).inv(),
            self.valid(old(lua)@),
            old(lua)@.height() < LUAI_MAXCSTACK,
            self.guard().spec_size() == 0 || self.guard().spec_top() == old(lua)@.height(),
        ensures
            final(lua).inv(),
            match self.contents(old(lua)@).metatable {
                Some(m) => final(lua)@ == old(lua)@.pushed(seq![Value::Table(m)]) && r.id(
                    final(lua)@,
                ) == m,
                None => {
                    let m = old(lua)@.tables.len();
                    &&& final(lua)@ == old(lua)@.appended(seq![TableValue::empty()]).with_table(
                        self.id(old(lua)@),
                        TableValue { metatable: Some(m), ..self.contents(old(lua)@) },
                    ).pushed(seq![Value::Table(m)])
                    &&& r.id(final(lua)@) == m
                },
            },
            r.valid(final(lua)@),
            r.index() == final(lua)@.height(),
            r.guard().spec_size() == self.guard().spec_size() + 1,
            r.guard().spec_top() == final(lua)@.height(),
    {
        let ghost before = lua@;
        let ghost t = self.contents(before);
        let this_index: i32 = self.index.into();
        proof {
            before.lemma_slot_within(self.index());
        }
        if !lua.getmetatable(this_index) {
            lua.newtable();
            assert(lua@.slot(self.index()) == before.slot(self.index()));
            assert(lua@.table_at(self.index()) == t);
            lua.setmetatable(this_index);
            assert(lua@.stack =~= before.stack);
            assert(lua@.slot(self.index()) == before.slot(self.index()));
            let found = lua.getmetatable(this_index);
            assert(found);
        }
        assert(lua@.values_from(-1)[0] == lua@.top());
        let size = self.guard.forget();
        let guard = PushGuard::new(lua, size + 1);
        LuaTable::new(lua, guard, -1)
    }
}

/// Whether `item` is what an entry reads as in a context with the store
/// `tables`: the key as `K` and the value as `V` where both can be read so,
/// and nothing else.
pub open spec fn reads_entry<K: LuaRead, V: LuaRead>(
    tables: Seq<TableValue>,
    entry: (Value, Value),
    item: Option<(K, V)>,
) -> bool {
    match item {
        Some((k, v)) => {
            &&& K::readable(tables, seq![entry.0])
            &&& V::readable(tables, seq![entry.1])
            &&& K::decodes(tables, seq![entry.0], k)
            &&& V::decodes(tables, seq![entry.1], v)
        },
        None => !(K::readable(tables, seq![entry.0]) && V::readable(tables, seq![entry.1])),
    }
}

/// A walk over the entries of a table.
///
/// Between two steps the key of the entry that the walk reached lies on
/// top of the stack, at the height that the walk recorded, until the walk
/// is finished. `drop` ends a walk early.
#[derive(Debug)]
pub struct LuaTableIterator<K, V> {
    table: AbsoluteIndex,
    finished: bool,
    last_top: i32,
    marker: PhantomData<(K, V)>,
}

impl<K, V> LuaTableIterator<K, V> {
    /// The resolved index of the table that is walked.
    pub closed spec fn table_index(&self) -> int {
        self.table.index() as int
    }

    /// Whether the walk is over, and its key is off the stack.
    pub closed spec fn is_finished(&self) -> bool {
        self.finished
    }

    /// The height that the stack has between two steps.
    pub closed spec fn last_top(&self) -> int {
        self.last_top as int
    }

    /// The walk and `lua` fit together: the table is where it was, below
    /// the key, and as long as the walk is not finished the stack has the
    /// height that the walk recorded.
    pub open spec fn valid(&self, lua: LuaState) -> bool {
        &&& lua.is_table(self.table_index())
        &&& !LuaState::is_relative(self.table_index())
        &&& self.table_index() < self.last_top()
        &&& 1 <= self.last_top() < LUAI_MAXCSTACK
        &&& !self.is_finished() ==> lua.height() == self.last_top()
        &&& self.is_finished() ==> lua.height() >= self.last_top() - 1
    }

    /// Whether the walk is over.
    pub fn finished(&self) -> (b: bool)
        ensures
            b == self.is_finished(),
    {
        self.finished
    }

    /// Ends the walk: takes its key off the stack, if it is still there.
    pub fn drop(self, lua: &mut Lua)
        requires
            old(lua).inv(),
            self.valid(old(lua)@),
        ensures
            final(lua).inv(),
            final(lua)@ == (if self.is_finished() {
                old(lua)@
            } else {
                old(lua)@.popped(1)
            }),
    {
        if !self.finished {
            lua.pop(1);
        }
    }
}

impl<K: LuaRead, V: LuaRead> LuaTableIterator<K, V> {
    /// Takes one step: replaces the key on top of the stack by the key of
    /// the next entry and returns that entry, read as `K` and `V`, or the
    /// inner nothing where it cannot be read so. After the last entry it
    /// takes the key off, returns the outer nothing, and the walk is
    /// finished for good.
    pub fn next(&mut self, lua: &mut Lua) -> (r: Option<Option<(K, V)>>)
        requires
            old(lua).inv(),
            old(self).valid(old(lua)@),
        ensures
            final(lua).inv(),
            final(self).valid(final(lua)@),
            final(self).table_index() == old(self).table_index(),
            final(self).last_top() == old(self).last_top(),
            old(self).is_finished() ==> r.is_none() && final(self).is_finished() && final(lua)@
                == old(lua)@,
            !old(self).is_finished() ==> (match old(lua)@.table_at(old(self).table_index()).next(
                old(lua)@.top(),
            ) {
                Some(entry) => {
                    &&& r matches Some(item)
                    &&& reads_entry(old(lua)@.tables, entry, item)
                    &&& !final(self).is_finished()
                    &&& final(lua)@ == old(lua)@.popped(1).pushed(seq![entry.0])
                },
                None => {
                    &&& r.is_none()
                    &&& final(self).is_finished()
                    &&& final(lua)@ == old(lua)@.popped(1)
                },
            }),
    {
        if self.finished {
            return None;
        }
        let ghost before = lua@;
        let ghost t = before.table_at(self.table_index());
        let ghost entry = t.next(before.top());
        if !lua.next(self.table.into()) {
            self.finished = true;
            assert(lua@.slot(self.table_index()) == before.slot(self.table_index()));
            return None;
        }
        let ghost e = entry->Some_0;
        assert(lua@.values_from(-1) =~= seq![e.1]);
        let value = V::lua_read_at_position(lua, -1);
        lua.pop(1);
        assert(lua@.stack =~= before.popped(1).pushed(seq![e.0]).stack);
        assert(lua@.values_from(-1) =~= seq![e.0]);
        assert(lua@.slot(self.table_index()) == before.slot(self.table_index()));
        let key = K::lua_read_at_position(lua, -1);
        match (key, value) {
            (Some(k), Some(v)) => Some(Some((k, v))),
            _ => Some(None),
        }
    }
}

} // verus!
