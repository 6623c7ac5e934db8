use crate::tlua::value::{
    all_within, models, store_valid, store_wf, table_models, LuaType, LuaValue, TableData,
    TableValue, Value,
};
use vstd::prelude::*;
use vstd::string::StringExecFns;

verus! {

/// The most slots that the stack of a context can hold.
pub const LUAI_MAXCSTACK: i32 = 8000;

/// The index that stands for the registry: a table that every host function
/// reaches and no script does.
pub const LUA_REGISTRYINDEX: i32 = -10000;

/// The index that stands for the table of the global variables.
pub const LUA_GLOBALSINDEX: i32 = -10002;

/// The number of the table of the global variables in the store of tables.
pub const GLOBALS: usize = 0;

/// The number of the registry in the store of tables.
pub const REGISTRY: usize = 1;

/// A context as pure data: its stack, the lowest slot first, and its store
/// of tables, each known by its place in the store. The table of the
/// global variables is the first of the store and the registry the second.
#[verifier::ext_equal]
pub struct LuaState {
    pub stack: Seq<Value>,
    pub tables: Seq<TableValue>,
}

impl LuaState {
    /// The number of slots on the stack.
    pub open spec fn height(self) -> int {
        self.stack.len() as int
    }

    /// The table of the global variables.
    pub open spec fn globals(self) -> TableValue {
        self.tables[GLOBALS as int]
    }

    /// The registry.
    pub open spec fn registry(self) -> TableValue {
        self.tables[REGISTRY as int]
    }

    /// The stack is within its limit, the store is a store, and no slot
    /// names a table that the store does not hold.
    pub open spec fn wf(self) -> bool {
        &&& self.stack.len() <= LUAI_MAXCSTACK
        &&& store_wf(self.tables)
        &&& all_within(self.stack, self.tables.len())
    }

    /// Whether `index` counts from the top of the stack.
    pub open spec fn is_relative(index: int) -> bool {
        LUA_REGISTRYINDEX < index < 0
    }

    /// The place that `index` stands for now, counted from 1 at the lowest
    /// slot. An index that counts from the top is resolved against the
    /// height that the stack has now; any other index stands for itself.
    pub open spec fn absolute(self, index: int) -> int {
        if Self::is_relative(index) {
            self.height() + index + 1
        } else {
            index
        }
    }

    /// Whether `index` stands for a slot of the stack.
    pub open spec fn on_stack(self, index: int) -> bool {
        1 <= self.absolute(index) <= self.height()
    }

    /// The values from `index` upward: the slot and all above it; the one
    /// table for the index of the globals or of the registry; nothing for
    /// any other index.
    pub open spec fn values_from(self, index: int) -> Seq<Value> {
        if index == LUA_GLOBALSINDEX {
            seq![Value::Table(GLOBALS as nat)]
        } else if index == LUA_REGISTRYINDEX {
            seq![Value::Table(REGISTRY as nat)]
        } else if self.on_stack(index) {
            self.stack.skip(self.absolute(index) - 1)
        } else {
            Seq::empty()
        }
    }

    /// The value that `index` stands for: a slot of the stack, the table of
    /// the globals or the registry. `None` for any other index.
    pub open spec fn slot(self, index: int) -> Option<Value> {
        if self.values_from(index).len() > 0 {
            Some(self.values_from(index)[0])
        } else {
            None
        }
    }

    /// The kinds of the values at the `count` places from `start` upward.
    pub open spec fn types_from(self, start: int, count: nat) -> Seq<LuaType> {
        Seq::new(count, |i: int| self.type_at(start + i))
    }

    /// The kind of the value that `index` stands for.
    pub open spec fn type_at(self, index: int) -> LuaType {
        match self.slot(index) {
            Some(v) => v.type_of(),
            None => LuaType::NoValue,
        }
    }

    /// Whether `index` stands for a table.
    pub open spec fn is_table(self, index: int) -> bool {
        self.slot(index) matches Some(Value::Table(_))
    }

    /// The number of the table that `index` stands for.
    pub open spec fn table_id(self, index: int) -> nat
        recommends
            self.is_table(index),
    {
        match self.slot(index) {
            Some(Value::Table(id)) => id,
            _ => 0,
        }
    }

    /// What the table that `index` stands for holds.
    pub open spec fn table_at(self, index: int) -> TableValue
        recommends
            self.is_table(index),
    {
        self.tables[self.table_id(index) as int]
    }

    /// The context with `t` as what the table of the number `id` holds.
    /// Every value that names the table finds the change.
    pub open spec fn with_table(self, id: nat, t: TableValue) -> LuaState {
        LuaState { tables: self.tables.update(id as int, t), ..self }
    }

    /// The context with the tables `new` at the end of the store.
    pub open spec fn appended(self, new: Seq<TableValue>) -> LuaState {
        LuaState { tables: self.tables + new, ..self }
    }

    /// The context with `n` slots fewer.
    pub open spec fn popped(self, n: int) -> LuaState
        recommends
            0 <= n <= self.height(),
    {
        LuaState { stack: self.stack.take(self.height() - n), ..self }
    }

    /// The context with `vals` on top of the stack.
    pub open spec fn pushed(self, vals: Seq<Value>) -> LuaState {
        LuaState { stack: self.stack + vals, ..self }
    }

    /// The top slot.
    pub open spec fn top(self) -> Value
        recommends
            self.height() >= 1,
    {
        self.stack[self.height() - 1]
    }

    /// A value that an index stands for in a well-formed context names no
    /// table that the store does not hold.
    pub proof fn lemma_slot_within(self, index: int)
        requires
            self.wf(),
        ensures
            self.slot(index) matches Some(v) ==> v.within(self.tables.len()),
            self.is_table(index) ==> self.table_id(index) < self.tables.len() && self.table_at(
                index,
            ).wf(self.tables.len()),
    {
        if index != LUA_GLOBALSINDEX && index != LUA_REGISTRYINDEX && self.on_stack(index) {
            assert(self.stack[self.absolute(index) - 1].within(self.tables.len()));
        }
        if self.is_table(index) {
            assert(self.tables[self.table_id(index) as int].wf(self.tables.len()));
        }
    }
}

/// The values that follow the first `j` of `vals`: nothing where `vals` has
/// fewer.
pub open spec fn rest(vals: Seq<Value>, j: int) -> Seq<Value> {
    if 0 <= j <= vals.len() {
        vals.skip(j)
    } else {
        Seq::empty()
    }
}

/// A context of the interpreter: its value stack and its store of tables.
///
/// Every value that crosses between the host and the interpreter occupies
/// slots of the stack. A slot is named by an index: a positive index counts
/// from 1 at the lowest slot, a negative one from -1 at the top, and
/// `LUA_GLOBALSINDEX` and `LUA_REGISTRYINDEX` name the two tables of the
/// context. A table value on the stack names a table of the store: a copy
/// of the value names the same table, and a store through one is found
/// through the other.
#[derive(Debug)]
pub struct Lua {
    stack: Vec<LuaValue>,
    tables: Vec<TableData>,
}

impl View for Lua {
    type V = LuaState;

    closed spec fn view(&self) -> LuaState {
        LuaState { stack: models(self.stack@), tables: table_models(self.tables@) }
    }
}

impl Lua {
    /// What holds of every context between two calls of the library.
    pub open spec fn inv(&self) -> bool {
        self@.wf()
    }

    /// A context with an empty stack, no global variable and an empty
    /// registry.
    pub fn new() -> (lua: Lua)
        ensures
            lua.inv(),
            lua@.stack == Seq::<Value>::empty(),
            lua@.tables == seq![TableValue::empty(), TableValue::empty()],
    {
        let mut tables: Vec<TableData> = Vec::new();
        tables.push(TableData::new());
        tables.push(TableData::new());
        let lua = Lua { stack: Vec::new(), tables };
        assert(lua@.stack =~= Seq::<Value>::empty());
        assert(lua@.tables =~= seq![TableValue::empty(), TableValue::empty()]);
        lua
    }

    /// A context with an empty stack and the store `tables`; the tables
    /// handed back where they are no store.
    pub fn from_tables(tables: Vec<TableData>) -> (r: Result<Lua, Vec<TableData>>)
        ensures
            match r {
                Ok(lua) => store_wf(table_models(tables@)) && lua.inv() && lua@.stack == Seq::<
                    Value,
                >::empty() && lua@.tables == table_models(tables@),
                Err(back) => !store_wf(table_models(tables@)) && back == tables,
            },
    {
        if store_valid(&tables) {
            let lua = Lua { stack: Vec::new(), tables };
            assert(lua@.stack =~= Seq::<Value>::empty());
            Ok(lua)
        } else {
            Err(tables)
        }
    }

    /// Gives up the context and hands out its store of tables.
    pub fn into_tables(self) -> (tables: Vec<TableData>)
        requires
            self.inv(),
        ensures
            table_models(tables@) == self@.tables,
            store_wf(table_models(tables@)),
    {
        self.tables
    }

    /// A copy of the store of tables.
    pub fn tables_copy(&self) -> (tables: Vec<TableData>)
        requires
            self.inv(),
        ensures
            table_models(tables@) == self@.tables,
    {
        let n = self.tables.len();
        let mut copy: Vec<TableData> = Vec::new();
        let mut i: usize = 0;
        while i < n
            invariant
                0 <= i <= n,
                n == self.tables@.len(),
                copy@.len() == i,
                forall|j: int| 0 <= j < i ==> (#[trigger] copy@[j]).model() == self.tables@[j].model(),
            decreases n - i,
        {
            copy.push(self.tables[i].duplicate());
            i += 1;
        }
        assert(table_models(copy@) =~= self@.tables);
        copy
    }

    /// A context with a copy of the store of this one and an empty stack.
    pub fn fork(&self) -> (lua: Lua)
        requires
            self.inv(),
        ensures
            lua.inv(),
            lua@.stack == Seq::<Value>::empty(),
            lua@.tables == self@.tables,
    {
        let lua = Lua { stack: Vec::new(), tables: self.tables_copy() };
        assert(lua@.stack =~= Seq::<Value>::empty());
        lua
    }

    /// Puts `tables` in the place of the store, where they are a store
    /// that holds at least as many tables as the old one; tells whether it
    /// did.
    pub fn replace_tables(&mut self, tables: Vec<TableData>) -> (done: bool)
        requires
            old(self).inv(),
        ensures
            final(self).inv(),
            done == (store_wf(table_models(tables@)) && tables@.len() >= old(self)@.tables.len()),
            final(self)@ == (if done {
                LuaState { tables: table_models(tables@), ..old(self)@ }
            } else {
                old(self)@
            }),
    {
        if tables.len() >= self.tables.len() && store_valid(&tables) {
            self.tables = tables;
            true
        } else {
            false
        }
    }

    /// Takes the tables from the place `n` on out of the store, where no
    /// value of what stays names one of them.
    pub(crate) fn truncate_tables(&mut self, n: usize)
        requires
            old(self).inv(),
            n <= old(self)@.tables.len(),
            (LuaState { tables: old(self)@.tables.take(n as int), ..old(self)@ }).wf(),
        ensures
            final(self).inv(),
            final(self)@ == (LuaState { tables: old(self)@.tables.take(n as int), ..old(self)@ }),
    {
        self.tables.truncate(n);
        assert(self@.tables =~= old(self)@.tables.take(n as int));
    }

    /// The height of the stack.
    pub fn gettop(&self) -> (top: i32)
        requires
            self.inv(),
        ensures
            top == self@.height(),
            0 <= top <= LUAI_MAXCSTACK,
    {
        self.stack.len() as i32
    }

    /// The number of tables in the store.
    pub fn table_count(&self) -> (n: usize)
        requires
            self.inv(),
        ensures
            n == self@.tables.len(),
            n >= 2,
    {
        self.tables.len()
    }

    /// Whether `index` counts from the top of the stack.
    pub fn is_relative_index(index: i32) -> (b: bool)
        ensures
            b == LuaState::is_relative(index as int),
    {
        index < 0 && index > LUA_REGISTRYINDEX
    }

    /// The place in the stack vector of the slot that `index` stands for, if
    /// it stands for a slot of the stack.
    fn place(&self, index: i32) -> (r: Option<usize>)
        requires
            self.inv(),
        ensures
            r.is_some() == self@.on_stack(index as int),
            r matches Some(p) ==> p == self@.absolute(index as int) - 1 && p < self.stack@.len(),
    {
        let top = self.stack.len() as i32;
        let a: i32 = if Self::is_relative_index(index) {
            top + index + 1
        } else {
            index
        };
        if 1 <= a && a <= top {
            Some((a - 1) as usize)
        } else {
            None
        }
    }

    /// The number of the table that `index` stands for, if it stands for a
    /// table.
    pub fn totable(&self, index: i32) -> (r: Option<usize>)
        requires
            self.inv(),
        ensures
            r.is_some() == self@.is_table(index as int),
            r matches Some(id) ==> id == self@.table_id(index as int) && id < self@.tables.len(),
    {
        proof {
            self@.lemma_slot_within(index as int);
        }
        if index == LUA_GLOBALSINDEX {
            Some(GLOBALS)
        } else if index == LUA_REGISTRYINDEX {
            Some(REGISTRY)
        } else {
            match self.place(index) {
                Some(p) => match &self.stack[p] {
                    LuaValue::Table(id) => Some(*id),
                    _ => None,
                },
                None => None,
            }
        }
    }

    /// Takes `n` slots off the stack.
    pub fn pop(&mut self, n: i32)
        requires
            old(self).inv(),
            0 <= n <= old(self)@.height(),
        ensures
            final(self).inv(),
            final(self)@ == old(self)@.popped(n as int),
    {
        let len = self.stack.len();
        self.stack.truncate(len - n as usize);
        assert(self@.stack =~= old(self)@.stack.take(old(self)@.height() - n));
    }

    /// Puts `value` on top of the stack.
    pub(crate) fn push_value(&mut self, value: LuaValue)
        requires
            old(self).inv(),
            old(self)@.height() < LUAI_MAXCSTACK,
            value.model().within(old(self)@.tables.len()),
        ensures
            final(self).inv(),
            final(self)@ == old(self)@.pushed(seq![value.model()]),
    {
        self.stack.push(value);
        assert(self@.stack =~= old(self)@.stack + seq![value.model()]);
    }

    /// Puts nil on top of the stack.
    pub fn pushnil(&mut self)
        requires
            old(self).inv(),
            old(self)@.height() < LUAI_MAXCSTACK,
        ensures
            final(self).inv(),
            final(self)@ == old(self)@.pushed(seq![Value::Nil]),
    {
        self.push_value(LuaValue::Nil);
    }

    /// Puts the truth value `b` on top of the stack.
    pub fn pushboolean(&mut self, b: bool)
        requires
            old(self).inv(),
            old(self)@.height() < LUAI_MAXCSTACK,
        ensures
            final(self).inv(),
            final(self)@ == old(self)@.pushed(seq![Value::Boolean(b)]),
    {
        self.push_value(LuaValue::Boolean(b));
    }

    /// Puts the number `n` on top of the stack.
    pub fn pushinteger(&mut self, n: i64)
        requires
            old(self).inv(),
            old(self)@.height() < LUAI_MAXCSTACK,
        ensures
            final(self).inv(),
            final(self)@ == old(self)@.pushed(seq![Value::Number(n as int)]),
    {
        self.push_value(LuaValue::Number(n));
    }

    /// Puts a copy of the text `s` on top of the stack.
    pub fn pushstring(&mut self, s: &str)
        requires
            old(self).inv(),
            old(self)@.height() < LUAI_MAXCSTACK,
        ensures
            final(self).inv(),
            final(self)@ == old(self)@.pushed(seq![Value::Text(s@)]),
    {
        self.push_value(LuaValue::String(String::from_str(s)));
    }

    /// Puts the function that the host pinned under `id` on top of the
    /// stack.
    pub fn pushfunction(&mut self, id: u32)
        requires
            old(self).inv(),
            old(self)@.height() < LUAI_MAXCSTACK,
        ensures
            final(self).inv(),
            final(self)@ == old(self)@.pushed(seq![Value::Function(id as nat)]),
    {
        self.push_value(LuaValue::Function(id));
    }

    /// Makes a new table, without entries and without a metatable, the
    /// last of the store, and puts it on top of the stack.
    pub fn newtable(&mut self)
        requires
            old(self).inv(),
            old(self)@.height() < LUAI_MAXCSTACK,
        ensures
            final(self).inv(),
            final(self)@ == old(self)@.appended(seq![TableValue::empty()]).pushed(
                seq![Value::Table(old(self)@.tables.len())],
            ),
    {
        let ghost before = self@;
        let id = self.tables.len();
        self.tables.push(TableData::new());
        assert(self@.tables =~= before.tables + seq![TableValue::empty()]);
        proof {
            assert forall|i: int| 0 <= i < self@.tables.len() implies (#[trigger] self@.tables[i]).wf(
                self@.tables.len(),
            ) by {
                if i < before.tables.len() {
                    assert(self@.tables[i] == before.tables[i]);
                    before.tables[i].lemma_wf_grows(before.tables.len(), self@.tables.len());
                }
            }
            assert forall|i: int| 0 <= i < self@.stack.len() implies (#[trigger] self@.stack[i]).within(
                self@.tables.len(),
            ) by {
                assert(before.stack[i].within(before.tables.len()));
            }
        }
        self.stack.push(LuaValue::Table(id));
        assert(self@.stack =~= before.stack + seq![Value::Table(before.tables.len())]);
    }

    /// The kind of the value that `index` stands for.
    pub fn type_at(&self, index: i32) -> (t: LuaType)
        requires
            self.inv(),
        ensures
            t == self@.type_at(index as int),
    {
        if index == LUA_GLOBALSINDEX || index == LUA_REGISTRYINDEX {
            LuaType::Table
        } else {
            match self.place(index) {
                Some(p) => self.stack[p].type_of(),
                None => LuaType::NoValue,
            }
        }
    }

    /// Whether `index` stands for a table.
    pub fn istable(&self, index: i32) -> (b: bool)
        requires
            self.inv(),
        ensures
            b == self@.is_table(index as int),
    {
        match self.type_at(index) {
            LuaType::Table => true,
            _ => false,
        }
    }

    /// A copy of the value that `index` stands for, if it stands for one.
    pub fn value_at(&self, index: i32) -> (r: Option<LuaValue>)
        requires
            self.inv(),
        ensures
            match r {
                Some(v) => self@.slot(index as int) == Some(v.model()) && v.model().within(
                    self@.tables.len(),
                ),
                None => self@.slot(index as int).is_none(),
            },
    {
        proof {
            self@.lemma_slot_within(index as int);
        }
        if index == LUA_GLOBALSINDEX {
            Some(LuaValue::Table(GLOBALS))
        } else if index == LUA_REGISTRYINDEX {
            Some(LuaValue::Table(REGISTRY))
        } else {
            match self.place(index) {
                Some(p) => Some(self.stack[p].duplicate()),
                None => None,
            }
        }
    }

    /// Puts a copy of the value that `index` stands for on top of the
    /// stack. The copy of a table value names the same table.
    pub fn pushvalue(&mut self, index: i32)
        requires
            old(self).inv(),
            old(self)@.height() < LUAI_MAXCSTACK,
            old(self)@.slot(index as int).is_some(),
        ensures
            final(self).inv(),
            final(self)@ == old(self)@.pushed(seq![old(self)@.slot(index as int).unwrap()]),
    {
        match self.value_at(index) {
            Some(v) => {
                self.push_value(v);
            },
            None => {},
        }
    }

    /// A copy of what the table of the number `id` holds.
    pub fn table_data(&self, id: usize) -> (t: TableData)
        requires
            self.inv(),
            id < self@.tables.len(),
        ensures
            t.model() == self@.tables[id as int],
            t.model().wf(self@.tables.len()),
    {
        assert(self@.tables[id as int].wf(self@.tables.len()));
        self.tables[id].duplicate()
    }

    /// Replaces the top slot, a key, by what the table at `index` holds
    /// under that key, without regard to metatables.
    pub fn gettable(&mut self, index: i32)
        requires
            old(self).inv(),
            old(self)@.height() >= 1,
            old(self)@.is_table(index as int),
        ensures
            final(self).inv(),
            final(self)@ == old(self)@.popped(1).pushed(
                seq![old(self)@.table_at(index as int).get(old(self)@.top())],
            ),
    {
        let ghost before = self@;
        let ghost t = before.table_at(index as int);
        let id = self.totable(index).unwrap();
        let n = self.stack.len();
        assert(before.stack[n - 1] == self.stack@[n - 1].model());
        let found = self.tables[id].get(&self.stack[n - 1]);
        proof {
            assert(before.tables[id as int].wf(before.tables.len()));
            t.lemma_get_within(before.top(), before.tables.len());
        }
        self.stack.set(n - 1, found);
        assert(self@.stack =~= before.popped(1).pushed(seq![t.get(before.top())]).stack);
    }

    /// Stores `value` under `key` in the table of the number `id`.
    fn store(&mut self, id: usize, key: LuaValue, value: LuaValue)
        requires
            old(self).inv(),
            id < old(self)@.tables.len(),
            key.model().within(old(self)@.tables.len()),
            value.model().within(old(self)@.tables.len()),
        ensures
            final(self).inv(),
            final(self)@ == old(self)@.with_table(
                id as nat,
                old(self)@.tables[id as int].set(key.model(), value.model()),
            ),
    {
        let ghost before = self@;
        let ghost t = before.tables[id as int];
        proof {
            assert(t.wf(before.tables.len()));
            t.lemma_set_wf(key.model(), value.model(), before.tables.len());
        }
        let mut table = TableData::new();
        std::mem::swap(&mut table, &mut self.tables[id]);
        table.set(key, value);
        self.tables.set(id, table);
        assert(self@.tables =~= before.tables.update(
            id as int,
            t.set(key.model(), value.model()),
        ));
        assert(self@.stack == before.stack);
        assert forall|i: int| 0 <= i < self@.tables.len() implies (#[trigger] self@.tables[i]).wf(
            self@.tables.len(),
        ) by {
            if i != id {
                assert(self@.tables[i] == before.tables[i]);
            }
        }
    }

    /// Stores the top slot, a value, under the slot below it, a key, in the
    /// table at `index`, and takes both off the stack. A nil key stores
    /// nothing; a nil value removes the entry of the key.
    pub fn settable(&mut self, index: i32)
        requires
            old(self).inv(),
            old(self)@.height() >= 2,
            old(self)@.is_table(index as int),
        ensures
            final(self).inv(),
            final(self)@ == old(self)@.popped(2).with_table(
                old(self)@.table_id(index as int),
                old(self)@.table_at(index as int).set(
                    old(self)@.stack[old(self)@.height() - 2],
                    old(self)@.top(),
                ),
            ),
    {
        let ghost before = self@;
        let id = self.totable(index).unwrap();
        let n = self.stack.len();
        assert(before.stack[n - 1] == self.stack@[n - 1].model());
        assert(before.stack[n - 2] == self.stack@[n - 2].model());
        assert(before.stack[n - 1].within(before.tables.len()));
        assert(before.stack[n - 2].within(before.tables.len()));
        let value = self.stack.pop().unwrap();
        let key = self.stack.pop().unwrap();
        assert(self@.stack =~= before.popped(2).stack);
        assert(self@ == before.popped(2));
        self.store(id, key, value);
    }

    /// Stores the top slot, a value, under the number `n` in the table at
    /// `index`, and takes it off the stack. A nil value removes the entry
    /// of `n`.
    pub fn rawseti(&mut self, index: i32, n: i64)
        requires
            old(self).inv(),
            old(self)@.height() >= 1,
            old(self)@.is_table(index as int),
        ensures
            final(self).inv(),
            final(self)@ == old(self)@.popped(1).with_table(
                old(self)@.table_id(index as int),
                old(self)@.table_at(index as int).set(Value::Number(n as int), old(self)@.top()),
            ),
    {
        let ghost before = self@;
        let id = self.totable(index).unwrap();
        let len = self.stack.len();
        assert(before.stack[len - 1] == self.stack@[len - 1].model());
        assert(before.stack[len - 1].within(before.tables.len()));
        let value = self.stack.pop().unwrap();
        assert(self@.stack =~= before.popped(1).stack);
        assert(self@ == before.popped(1));
        self.store(id, LuaValue::Number(n), value);
    }

    /// Replaces the top slot, a key, by the key and the value of the entry
    /// that follows it in a walk of the table at `index`, and tells that it
    /// did. After the last entry, or for a key without an entry, it takes
    /// the key off and puts nothing back. A nil key starts the walk.
    pub fn next(&mut self, index: i32) -> (more: bool)
        requires
            old(self).inv(),
            1 <= old(self)@.height() < LUAI_MAXCSTACK,
            old(self)@.is_table(index as int),
        ensures
            final(self).inv(),
            match old(self)@.table_at(index as int).next(old(self)@.top()) {
                Some((k, v)) => more && final(self)@ == old(self)@.popped(1).pushed(seq![k, v]),
                None => !more && final(self)@ == old(self)@.popped(1),
            },
    {
        let ghost before = self@;
        let ghost t = before.table_at(index as int);
        let id = self.totable(index).unwrap();
        let n = self.stack.len();
        assert(before.stack[n - 1] == self.stack@[n - 1].model());
        let entry = self.tables[id].next(&self.stack[n - 1]);
        proof {
            assert(before.tables[id as int].wf(before.tables.len()));
            t.lemma_next_within(before.top(), before.tables.len());
        }
        self.stack.pop();
        assert(self@.stack =~= before.popped(1).stack);
        match entry {
            Some((k, v)) => {
                self.push_value(k);
                self.push_value(v);
                assert(self@.stack =~= before.popped(1).pushed(seq![k.model(), v.model()]).stack);
                true
            },
            None => false,
        }
    }

    /// Puts the metatable of the table at `index` on top of the stack and
    /// tells that it did; puts nothing where the table has no metatable.
    pub fn getmetatable(&mut self, index: i32) -> (found: bool)
        requires
            old(self).inv(),
            old(self)@.height() < LUAI_MAXCSTACK,
            old(self)@.is_table(index as int),
        ensures
            final(self).inv(),
            match old(self)@.table_at(index as int).metatable {
                Some(m) => found && final(self)@ == old(self)@.pushed(seq![Value::Table(m)]),
                None => !found && final(self)@ == old(self)@,
            },
    {
        let id = self.totable(index).unwrap();
        assert(self@.tables[id as int].wf(self@.tables.len()));
        match self.tables[id].metatable {
            Some(m) => {
                self.push_value(LuaValue::Table(m));
                true
            },
            None => false,
        }
    }

    /// Takes the top slot, a table or nil, off the stack and makes it the
    /// metatable of the table at `index`; nil leaves that table without
    /// one.
    pub fn setmetatable(&mut self, index: i32)
        requires
            old(self).inv(),
            old(self)@.height() >= 1,
            old(self)@.top() is Table || old(self)@.top() is Nil,
            old(self)@.is_table(index as int),
        ensures
            final(self).inv(),
            final(self)@ == old(self)@.popped(1).with_table(
                old(self)@.table_id(index as int),
                TableValue {
                    metatable: match old(self)@.top() {
                        Value::Table(m) => Some(m),
                        _ => None,
                    },
                    ..old(self)@.table_at(index as int)
                },
            ),
    {
        let ghost before = self@;
        let ghost t = before.table_at(index as int);
        let id = self.totable(index).unwrap();
        let n = self.stack.len();
        assert(before.stack[n - 1] == self.stack@[n - 1].model());
        assert(before.stack[n - 1].within(before.tables.len()));
        assert(before.tables[id as int].wf(before.tables.len()));
        let top = self.stack.pop().unwrap();
        let metatable = match top {
            LuaValue::Table(m) => Some(m),
            _ => None,
        };
        assert(self@.stack =~= before.popped(1).stack);
        let ghost t2 = TableValue {
            metatable: match before.top() {
                Value::Table(m) => Some(m),
                _ => None,
            },
            ..t
        };
        let mut table = TableData::new();
        std::mem::swap(&mut table, &mut self.tables[id]);
        table.metatable = metatable;
        assert(table.model().entries =~= t.entries);
        self.tables.set(id, table);
        assert(self@.tables =~= before.tables.update(id as int, t2));
        assert forall|i: int| 0 <= i < self@.tables.len() implies (#[trigger] self@.tables[i]).wf(
            self@.tables.len(),
        ) by {
            if i != id {
                assert(self@.tables[i] == before.tables[i]);
            }
        }
    }

    /// The truth value that `index` stands for, if it stands for one.
    pub fn toboolean(&self, index: i32) -> (r: Option<bool>)
        requires
            self.inv(),
        ensures
            match r {
                Some(b) => self@.slot(index as int) == Some(Value::Boolean(b)),
                None => !(self@.slot(index as int) matches Some(Value::Boolean(_))),
            },
    {
        if index == LUA_GLOBALSINDEX || index == LUA_REGISTRYINDEX {
            None
        } else {
            match self.place(index) {
                Some(p) => match &self.stack[p] {
                    LuaValue::Boolean(b) => Some(*b),
                    _ => None,
                },
                None => None,
            }
        }
    }

    /// The number that `index` stands for, if it stands for one.
    pub fn tointeger(&self, index: i32) -> (r: Option<i64>)
        requires
            self.inv(),
        ensures
            match r {
                Some(n) => self@.slot(index as int) == Some(Value::Number(n as int)),
                None => !(self@.slot(index as int) matches Some(Value::Number(_))),
            },
    {
        if index == LUA_GLOBALSINDEX || index == LUA_REGISTRYINDEX {
            None
        } else {
            match self.place(index) {
                Some(p) => match &self.stack[p] {
                    LuaValue::Number(n) => Some(*n),
                    _ => None,
                },
                None => None,
            }
        }
    }

    /// A copy of the text that `index` stands for, if it stands for one.
    pub fn tostring(&self, index: i32) -> (r: Option<String>)
        requires
            self.inv(),
        ensures
            match r {
                Some(s) => self@.slot(index as int) == Some(Value::Text(s@)),
                None => !(self@.slot(index as int) matches Some(Value::Text(_))),
            },
    {
        if index == LUA_GLOBALSINDEX || index == LUA_REGISTRYINDEX {
            None
        } else {
            match self.place(index) {
                Some(p) => match &self.stack[p] {
                    LuaValue::String(s) => Some(s.clone()),
                    _ => None,
                },
                None => None,
            }
        }
    }

    /// The number under which the host pinned the function that `index`
    /// stands for, if it stands for a function.
    pub fn tofunction(&self, index: i32) -> (r: Option<u32>)
        requires
            self.inv(),
        ensures
            match r {
                Some(f) => self@.slot(index as int) == Some(Value::Function(f as nat)),
                None => !(self@.slot(index as int) matches Some(Value::Function(_))),
            },
    {
        if index == LUA_GLOBALSINDEX || index == LUA_REGISTRYINDEX {
            None
        } else {
            match self.place(index) {
                Some(p) => match &self.stack[p] {
                    LuaValue::Function(f) => Some(*f),
                    _ => None,
                },
                None => None,
            }
        }
    }

    /// The number of entries of the table at `index`.
    pub fn objlen(&self, index: i32) -> (n: usize)
        requires
            self.inv(),
            self@.is_table(index as int),
        ensures
            n == self@.table_at(index as int).entries.len(),
    {
        let id = self.totable(index).unwrap();
        self.tables[id].entries.len()
    }

    /// An index for the place `j` above the one that `index` stands for.
    /// The index that is returned stands for nothing where that place is
    /// above the top of the stack, or where `index` stands for no slot of
    /// the stack and `j` is not zero.
    pub fn field_index(&self, index: i32, j: i32) -> (r: i32)
        requires
            self.inv(),
            0 <= j <= LUAI_MAXCSTACK,
        ensures
            self@.values_from(r as int) == rest(self@.values_from(index as int), j as int),
    {
        if index == LUA_GLOBALSINDEX || index == LUA_REGISTRYINDEX {
            if j == 0 {
                assert(self@.values_from(index as int).skip(0) =~= self@.values_from(index as int));
                index
            } else {
                assert(self@.values_from(0) =~= rest(self@.values_from(index as int), j as int));
                0
            }
        } else {
            match self.place(index) {
                Some(p) => {
                    let a = p as i32 + 1;
                    if a + j <= self.stack.len() as i32 {
                        assert(self@.values_from(a + j) =~= self@.values_from(index as int).skip(
                            j as int,
                        ));
                        a + j
                    } else {
                        assert(self@.values_from(0) =~= rest(
                            self@.values_from(index as int),
                            j as int,
                        ));
                        0
                    }
                },
                None => {
                    assert(self@.values_from(0) =~= rest(self@.values_from(index as int), j as int));
                    0
                },
            }
        }
    }

    /// Takes the `n` topmost slots off the stack and returns their values,
    /// the lowest first.
    pub fn take(&mut self, n: i32) -> (vals: Vec<LuaValue>)
        requires
            old(self).inv(),
            0 <= n <= old(self)@.height(),
        ensures
            final(self).inv(),
            final(self)@ == old(self)@.popped(n as int),
            models(vals@) == old(self)@.stack.skip(old(self)@.height() - n),
            all_within(models(vals@), old(self)@.tables.len()),
    {
        let len = self.stack.len();
        let vals = self.stack.split_off(len - n as usize);
        assert(self@.stack =~= old(self)@.stack.take(old(self)@.height() - n));
        assert(models(vals@) =~= old(self)@.stack.skip(old(self)@.height() - n));
        vals
    }

    /// Puts the values `vals` on top of the stack, the first lowest.
    pub(crate) fn push_all(&mut self, vals: Vec<LuaValue>)
        requires
            old(self).inv(),
            old(self)@.height() + vals@.len() <= LUAI_MAXCSTACK,
            all_within(models(vals@), old(self)@.tables.len()),
        ensures
            final(self).inv(),
            final(self)@ == old(self)@.pushed(models(vals@)),
    {
        let mut vals = vals;
        let ghost before = self@;
        let ghost pushed = models(vals@);
        self.stack.append(&mut vals);
        assert(self@.stack =~= before.stack + pushed);
        assert forall|i: int| 0 <= i < self@.stack.len() implies (#[trigger] self@.stack[i]).within(
            self@.tables.len(),
        ) by {
            if i >= before.stack.len() {
                assert(self@.stack[i] == pushed[i - before.stack.len()]);
            } else {
                assert(self@.stack[i] == before.stack[i]);
            }
        }
    }

    /// Makes the stack `top` slots high: takes the slots above off, or puts
    /// nil on the slots that are missing.
    pub fn settop(&mut self, top: i32)
        requires
            old(self).inv(),
            0 <= top <= LUAI_MAXCSTACK,
        ensures
            final(self).inv(),
            final(self)@.height() == top,
            final(self)@.tables == old(self)@.tables,
            forall|i: int|
                0 <= i < top ==> final(self)@.stack[i] == (if i < old(self)@.height() {
                    old(self)@.stack[i]
                } else {
                    Value::Nil
                }),
    {
        let ghost before = self@;
        let len = self.stack.len();
        if top as usize <= len {
            self.pop((len - top as usize) as i32);
        } else {
            let mut i = len;
            while i < top as usize
                invariant
                    self.inv(),
                    len <= i <= top,
                    top <= LUAI_MAXCSTACK,
                    self@.height() == i,
                    len == before.height(),
                    self@.tables == before.tables,
                    forall|j: int|
                        0 <= j < i ==> self@.stack[j] == (if j < len {
                            before.stack[j]
                        } else {
                            Value::Nil
                        }),
                decreases top - i,
            {
                self.pushnil();
                i += 1;
            }
        }
    }
}

} // verus!
