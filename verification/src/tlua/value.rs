use vstd::prelude::*;

verus! {

/// A value of the interpreter, as pure data.
///
/// Numbers are whole numbers. A function is known by the number under which
/// the host pinned it. A table is known by its number in the store of
/// tables of its context: two values with the same number are the same
/// table, and what is stored through one is found through the other.
pub enum Value {
    Nil,
    Boolean(bool),
    Number(int),
    Text(Seq<char>),
    Table(nat),
    Function(nat),
}

/// What a table holds, as pure data: its entries in the order in which they
/// are walked, and the number of its metatable.
pub struct TableValue {
    pub entries: Seq<(Value, Value)>,
    pub metatable: Option<nat>,
}

/// A value of the interpreter, held by the host.
#[derive(Debug, PartialEq)]
pub enum LuaValue {
    Nil,
    Boolean(bool),
    Number(i64),
    String(String),
    Table(usize),
    Function(u32),
}

/// What a table holds, held by the host.
#[derive(Debug, PartialEq)]
pub struct TableData {
    pub entries: Vec<(LuaValue, LuaValue)>,
    pub metatable: Option<usize>,
}

impl LuaValue {
    /// The pure value that this value stands for.
    pub open spec fn model(&self) -> Value {
        match self {
            LuaValue::Nil => Value::Nil,
            LuaValue::Boolean(b) => Value::Boolean(*b),
            LuaValue::Number(n) => Value::Number(*n as int),
            LuaValue::String(s) => Value::Text(s@),
            LuaValue::Table(t) => Value::Table(*t as nat),
            LuaValue::Function(f) => Value::Function(*f as nat),
        }
    }
}

impl TableData {
    /// The pure table that these contents stand for.
    pub open spec fn model(&self) -> TableValue {
        TableValue {
            entries: Seq::new(
                self.entries@.len(),
                |i: int| (self.entries@[i].0.model(), self.entries@[i].1.model()),
            ),
            metatable: match self.metatable {
                None => None,
                Some(m) => Some(m as nat),
            },
        }
    }
}

impl Value {
    /// Whether the value names no table beyond the first `n` of a store.
    pub open spec fn within(self, n: nat) -> bool {
        self matches Value::Table(id) ==> id < n
    }
}

impl TableValue {
    /// Every key is there once, and no key and no value is nil.
    pub open spec fn keys_once(self) -> bool {
        &&& forall|i: int|
            0 <= i < self.entries.len() ==> (#[trigger] self.entries[i]).0 != Value::Nil
                && self.entries[i].1 != Value::Nil
        &&& forall|i: int, j: int|
            0 <= i < j < self.entries.len() ==> (#[trigger] self.entries[i]).0 != (
            #[trigger] self.entries[j]).0
    }

    /// The table is well formed in a store of `n` tables: every key is
    /// there once, no key and no value is nil, and every table that it
    /// names, its metatable too, is one of the `n`.
    pub open spec fn wf(self, n: nat) -> bool {
        &&& self.keys_once()
        &&& forall|i: int|
            0 <= i < self.entries.len() ==> (#[trigger] self.entries[i]).0.within(n)
                && self.entries[i].1.within(n)
        &&& self.metatable matches Some(m) ==> m < n
    }
}

impl LuaValue {
    /// Whether two values stand for the same pure value.
    pub fn same(&self, other: &LuaValue) -> (b: bool)
        ensures
            b == (self.model() == other.model()),
    {
        match (self, other) {
            (LuaValue::Nil, LuaValue::Nil) => true,
            (LuaValue::Boolean(a), LuaValue::Boolean(b)) => *a == *b,
            (LuaValue::Number(a), LuaValue::Number(b)) => *a == *b,
            (LuaValue::String(a), LuaValue::String(b)) => *a == *b,
            (LuaValue::Table(a), LuaValue::Table(b)) => *a == *b,
            (LuaValue::Function(a), LuaValue::Function(b)) => *a == *b,
            _ => false,
        }
    }
}

/// The kind of a value, as the interpreter tells it. `NoValue` is the kind
/// of a position that holds no value.
#[derive(Debug, Clone, Copy, PartialEq, Eq, Structural)]
pub enum LuaType {
    NoValue,
    Nil,
    Boolean,
    Number,
    String,
    Table,
    Function,
}

impl LuaType {
    /// The name of this kind.
    pub open spec fn name_spec(self) -> Seq<char> {
        match self {
            LuaType::NoValue => "no value"@,
            LuaType::Nil => "nil"@,
            LuaType::Boolean => "boolean"@,
            LuaType::Number => "number"@,
            LuaType::String => "string"@,
            LuaType::Table => "table"@,
            LuaType::Function => "function"@,
        }
    }

    /// The name of this kind, as the interpreter spells it.
    pub fn name(&self) -> (s: &'static str)
        ensures
            s@ == self.name_spec(),
    {
        match self {
            LuaType::NoValue => "no value",
            LuaType::Nil => "nil",
            LuaType::Boolean => "boolean",
            LuaType::Number => "number",
            LuaType::String => "string",
            LuaType::Table => "table",
            LuaType::Function => "function",
        }
    }
}

impl Value {
    /// The kind of this value.
    pub open spec fn type_of(self) -> LuaType {
        match self {
            Value::Nil => LuaType::Nil,
            Value::Boolean(_) => LuaType::Boolean,
            Value::Number(_) => LuaType::Number,
            Value::Text(_) => LuaType::String,
            Value::Table(_) => LuaType::Table,
            Value::Function(_) => LuaType::Function,
        }
    }
}

/// The kind of the first of `vals`, `NoValue` where there is none.
pub open spec fn type_of_first(vals: Seq<Value>) -> LuaType {
    if vals.len() == 0 {
        LuaType::NoValue
    } else {
        vals[0].type_of()
    }
}

impl TableValue {
    /// The table without entries and without a metatable.
    pub open spec fn empty() -> TableValue {
        TableValue { entries: Seq::empty(), metatable: None }
    }

    /// Whether an entry has the key `key`.
    pub open spec fn has_key(self, key: Value) -> bool {
        exists|i: int| 0 <= i < self.entries.len() && (#[trigger] self.entries[i]).0 == key
    }

    /// The place of the first entry with the key `key`.
    pub open spec fn position(self, key: Value) -> int {
        choose|i: int|
            0 <= i < self.entries.len() && (#[trigger] self.entries[i]).0 == key && forall|j: int|
                0 <= j < i ==> (#[trigger] self.entries[j]).0 != key
    }

    /// What the table holds under `key`: nil where no entry has that key.
    pub open spec fn get(self, key: Value) -> Value {
        if self.has_key(key) {
            self.entries[self.position(key)].1
        } else {
            Value::Nil
        }
    }

    /// The table after `value` was stored under `key`. A nil key stores
    /// nothing. A nil value removes the entry of the key. Another value
    /// replaces the value of the key where it has an entry, and else becomes
    /// the last entry.
    pub open spec fn set(self, key: Value, value: Value) -> TableValue {
        if key == Value::Nil {
            self
        } else if self.has_key(key) {
            if value == Value::Nil {
                TableValue { entries: self.entries.remove(self.position(key)), ..self }
            } else {
                TableValue {
                    entries: self.entries.update(self.position(key), (key, value)),
                    ..self
                }
            }
        } else if value == Value::Nil {
            self
        } else {
            TableValue { entries: self.entries.push((key, value)), ..self }
        }
    }

    /// The entry that follows the entry of `key` in a walk: the first entry
    /// for a nil key, nothing after the last entry or for a key that has no
    /// entry.
    pub open spec fn next(self, key: Value) -> Option<(Value, Value)> {
        if key == Value::Nil {
            if self.entries.len() > 0 {
                Some(self.entries[0])
            } else {
                None
            }
        } else if self.has_key(key) && self.position(key) + 1 < self.entries.len() {
            Some(self.entries[self.position(key) + 1])
        } else {
            None
        }
    }

    /// A store into a well-formed table leaves it well formed.
    pub proof fn lemma_set_wf(self, key: Value, value: Value, n: nat)
        requires
            self.wf(n),
            key.within(n),
            value.within(n),
        ensures
            self.set(key, value).wf(n),
            self.set(key, value).metatable == self.metatable,
    {
        let t = self.set(key, value);
        if key != Value::Nil && self.has_key(key) {
            self.lemma_has_key(key);
            let p = self.position(key);
            if value == Value::Nil {
                assert forall|i: int| 0 <= i < t.entries.len() implies {
                    &&& (#[trigger] t.entries[i]).0 != Value::Nil
                    &&& t.entries[i].1 != Value::Nil
                    &&& t.entries[i].0.within(n)
                    &&& t.entries[i].1.within(n)
                } by {
                    if i < p {
                        assert(t.entries[i] == self.entries[i]);
                    } else {
                        assert(t.entries[i] == self.entries[i + 1]);
                    }
                }
                assert forall|i: int, j: int| 0 <= i < j < t.entries.len() implies (
                #[trigger] t.entries[i]).0 != (#[trigger] t.entries[j]).0 by {
                    let a = if i < p {
                        i
                    } else {
                        i + 1
                    };
                    let b = if j < p {
                        j
                    } else {
                        j + 1
                    };
                    assert(t.entries[i] == self.entries[a]);
                    assert(t.entries[j] == self.entries[b]);
                }
            } else {
                assert forall|i: int| 0 <= i < t.entries.len() implies {
                    &&& (#[trigger] t.entries[i]).0 != Value::Nil
                    &&& t.entries[i].1 != Value::Nil
                    &&& t.entries[i].0.within(n)
                    &&& t.entries[i].1.within(n)
                } by {
                    if i != p {
                        assert(t.entries[i] == self.entries[i]);
                    }
                }
                assert forall|i: int, j: int| 0 <= i < j < t.entries.len() implies (
                #[trigger] t.entries[i]).0 != (#[trigger] t.entries[j]).0 by {
                    assert(t.entries[i].0 == self.entries[i].0);
                    assert(t.entries[j].0 == self.entries[j].0);
                }
            }
        } else if key != Value::Nil && value != Value::Nil {
            let len = self.entries.len() as int;
            assert forall|i: int| 0 <= i < t.entries.len() implies {
                &&& (#[trigger] t.entries[i]).0 != Value::Nil
                &&& t.entries[i].1 != Value::Nil
                &&& t.entries[i].0.within(n)
                &&& t.entries[i].1.within(n)
            } by {
                if i < len {
                    assert(t.entries[i] == self.entries[i]);
                }
            }
            assert forall|i: int, j: int| 0 <= i < j < t.entries.len() implies (
            #[trigger] t.entries[i]).0 != (#[trigger] t.entries[j]).0 by {
                assert(t.entries[i] == self.entries[i]);
                if j < len {
                    assert(t.entries[j] == self.entries[j]);
                }
            }
        }
    }

    /// A table of a store is a table of every larger store.
    pub proof fn lemma_wf_grows(self, n: nat, m: nat)
        requires
            self.wf(n),
            n <= m,
        ensures
            self.wf(m),
    {
    }

    /// What a well-formed table holds is not beyond its store.
    pub proof fn lemma_get_within(self, key: Value, n: nat)
        requires
            self.wf(n),
        ensures
            self.get(key).within(n),
    {
        if self.has_key(key) {
            self.lemma_has_key(key);
        }
    }

    /// The entries of a well-formed table are not nil and not beyond its
    /// store.
    pub proof fn lemma_next_within(self, key: Value, n: nat)
        requires
            self.wf(n),
        ensures
            self.next(key) matches Some(e) ==> e.0.within(n) && e.1.within(n) && e.0 != Value::Nil
                && e.1 != Value::Nil,
    {
        match self.next(key) {
            Some(e) => {
                if key == Value::Nil {
                    assert(e == self.entries[0]);
                } else {
                    self.lemma_has_key(key);
                    assert(e == self.entries[self.position(key) + 1]);
                }
            },
            None => {},
        }
    }

    /// Where an entry has the key, one entry is the first to have it.
    pub proof fn lemma_first(self, key: Value, i: int)
        requires
            0 <= i < self.entries.len(),
            self.entries[i].0 == key,
        ensures
            self.has_key(key),
            0 <= self.position(key) <= i,
            self.entries[self.position(key)].0 == key,
            forall|j: int| 0 <= j < self.position(key) ==> (#[trigger] self.entries[j]).0 != key,
        decreases i,
    {
        if exists|j: int| 0 <= j < i && (#[trigger] self.entries[j]).0 == key {
            let j = choose|j: int| 0 <= j < i && (#[trigger] self.entries[j]).0 == key;
            self.lemma_first(key, j);
        } else {
            assert(forall|j: int| 0 <= j < i ==> (#[trigger] self.entries[j]).0 != key);
            let p = self.position(key);
            if p > i {
                assert(self.entries[i].0 != key);
            }
        }
    }

    /// The place of a key that has an entry is the place of the first entry
    /// with that key.
    pub proof fn lemma_has_key(self, key: Value)
        requires
            self.has_key(key),
        ensures
            0 <= self.position(key) < self.entries.len(),
            self.entries[self.position(key)].0 == key,
            forall|j: int| 0 <= j < self.position(key) ==> (#[trigger] self.entries[j]).0 != key,
    {
        let i = choose|i: int| 0 <= i < self.entries.len() && (#[trigger] self.entries[i]).0 == key;
        self.lemma_first(key, i);
    }

    /// What was stored under a key is what is found under it.
    pub proof fn lemma_get_set_same(self, key: Value, value: Value)
        requires
            key != Value::Nil,
        ensures
            self.keys_once() ==> self.set(key, value).get(key) == value,
            value != Value::Nil ==> self.set(key, value).get(key) == value,
    {
        let t = self.set(key, value);
        if self.has_key(key) {
            self.lemma_has_key(key);
            let p = self.position(key);
            if value == Value::Nil {
                if self.keys_once() {
                    if t.has_key(key) {
                        t.lemma_has_key(key);
                        let q = t.position(key);
                        let q0 = if q < p {
                            q
                        } else {
                            q + 1
                        };
                        assert(t.entries[q] == self.entries[q0]);
                        if q0 < p {
                            assert(self.entries[q0].0 != self.entries[p].0);
                        } else {
                            assert(self.entries[p].0 != self.entries[q0].0);
                        }
                    }
                }
            } else {
                assert(t.entries[p] == (key, value));
                assert forall|j: int| 0 <= j < p implies (#[trigger] t.entries[j]).0 != key by {
                    assert(t.entries[j] == self.entries[j]);
                }
                t.lemma_first(key, p);
                let q = t.position(key);
                if q < p {
                    assert(t.entries[q].0 != key);
                } else if p < q {
                    assert(t.entries[p].0 == key);
                }
            }
        } else {
            if value != Value::Nil {
                let n = self.entries.len() as int;
                assert(t.entries[n] == (key, value));
                assert forall|j: int| 0 <= j < n implies (#[trigger] t.entries[j]).0 != key by {
                    assert(t.entries[j] == self.entries[j]);
                }
                t.lemma_first(key, n);
                let q = t.position(key);
                if q < n {
                    assert(t.entries[q].0 != key);
                }
            } else {
                assert(t == self);
            }
        }
    }

    /// A store under one key changes nothing under another.
    pub proof fn lemma_get_set_other(self, key: Value, value: Value, other: Value)
        requires
            other != key,
        ensures
            self.set(key, value).get(other) == self.get(other),
    {
        let t = self.set(key, value);
        if t != self {
            if self.has_key(key) {
                self.lemma_has_key(key);
            }
            let p = self.position(key);
            let removed = self.has_key(key) && value == Value::Nil;
            if self.has_key(other) {
                self.lemma_has_key(other);
                let q = self.position(other);
                let q1 = if removed && q > p {
                    q - 1
                } else {
                    q
                };
                assert(t.entries[q1] == self.entries[q]);
                t.lemma_first(other, q1);
                let r = t.position(other);
                if r < q1 {
                    let r0 = if removed && r >= p {
                        r + 1
                    } else {
                        r
                    };
                    assert(t.entries[r].0 == self.entries[r0].0);
                    assert(self.entries[r0].0 != other);
                }
            } else if t.has_key(other) {
                t.lemma_has_key(other);
                let r = t.position(other);
                let r0 = if removed && r >= p {
                    r + 1
                } else {
                    r
                };
                if r0 < self.entries.len() {
                    assert(t.entries[r].0 == self.entries[r0].0);
                    assert(self.entries[r0].0 == other);
                }
            }
        }
    }

    /// A walk that starts from nil and goes on from each key that it
    /// reached visits the entries in their order, each once, and ends after
    /// the last: the step from the key of the entry before place `i` (from
    /// nil for the first place) reaches the entry at place `i`, and nothing
    /// beyond the last place.
    pub proof fn lemma_walk(self, i: int)
        requires
            self.keys_once(),
            0 <= i <= self.entries.len(),
        ensures
            self.next(
                if i == 0 {
                    Value::Nil
                } else {
                    self.entries[i - 1].0
                },
            ) == (if i < self.entries.len() {
                Some(self.entries[i])
            } else {
                None
            }),
    {
        if i > 0 {
            let key = self.entries[i - 1].0;
            assert(key != Value::Nil);
            self.lemma_position(key, i - 1);
        }
    }

    /// In a well-formed table a key stands at one place only.
    pub proof fn lemma_position(self, key: Value, i: int)
        requires
            self.keys_once(),
            0 <= i < self.entries.len(),
            self.entries[i].0 == key,
        ensures
            self.has_key(key),
            self.position(key) == i,
            self.get(key) == self.entries[i].1,
    {
        self.lemma_first(key, i);
        let p = self.position(key);
        if p < i {
            assert(self.entries[p].0 != self.entries[i].0);
        }
    }
}

impl LuaValue {
    /// The kind of this value.
    pub fn type_of(&self) -> (t: LuaType)
        ensures
            t == self.model().type_of(),
    {
        match self {
            LuaValue::Nil => LuaType::Nil,
            LuaValue::Boolean(_) => LuaType::Boolean,
            LuaValue::Number(_) => LuaType::Number,
            LuaValue::String(_) => LuaType::String,
            LuaValue::Table(_) => LuaType::Table,
            LuaValue::Function(_) => LuaType::Function,
        }
    }

    /// Whether this value is nil.
    pub fn is_nil(&self) -> (b: bool)
        ensures
            b == (self.model() == Value::Nil),
    {
        match self {
            LuaValue::Nil => true,
            _ => false,
        }
    }

    /// A copy of this value. The copy of a table value names the same
    /// table.
    pub fn duplicate(&self) -> (r: LuaValue)
        ensures
            r.model() == self.model(),
    {
        match self {
            LuaValue::Nil => LuaValue::Nil,
            LuaValue::Boolean(b) => LuaValue::Boolean(*b),
            LuaValue::Number(n) => LuaValue::Number(*n),
            LuaValue::String(s) => LuaValue::String(s.clone()),
            LuaValue::Table(t) => LuaValue::Table(*t),
            LuaValue::Function(f) => LuaValue::Function(*f),
        }
    }

    /// Whether the value names no table beyond the first `n` of a store.
    pub fn is_valid(&self, n: usize) -> (b: bool)
        ensures
            b == self.model().within(n as nat),
    {
        match self {
            LuaValue::Table(t) => *t < n,
            _ => true,
        }
    }
}

impl TableData {
    /// A table without entries and without a metatable.
    pub fn new() -> (t: TableData)
        ensures
            t.model() == TableValue::empty(),
    {
        let t = TableData { entries: Vec::new(), metatable: None };
        assert(t.model().entries =~= Seq::empty());
        t
    }

    /// A copy of what this table holds.
    pub fn duplicate(&self) -> (r: TableData)
        ensures
            r.model() == self.model(),
    {
        let n = self.entries.len();
        let mut entries: Vec<(LuaValue, LuaValue)> = Vec::new();
        let mut i: usize = 0;
        while i < n
            invariant
                0 <= i <= n,
                n == self.entries@.len(),
                entries@.len() == i,
                forall|j: int|
                    0 <= j < i ==> {
                        &&& (#[trigger] entries@[j]).0.model() == self.entries@[j].0.model()
                        &&& entries@[j].1.model() == self.entries@[j].1.model()
                    },
            decreases n - i,
        {
            let key = self.entries[i].0.duplicate();
            let value = self.entries[i].1.duplicate();
            entries.push((key, value));
            i += 1;
        }
        let metatable = match &self.metatable {
            None => None,
            Some(m) => Some(*m),
        };
        let r = TableData { entries, metatable };
        assert(r.model().entries =~= self.model().entries);
        r
    }

    /// Whether this table is well formed in a store of `n` tables.
    pub fn is_valid(&self, n: usize) -> (b: bool)
        ensures
            b == self.model().wf(n as nat),
    {
        let len = self.entries.len();
        let ghost m = self.model();
        let mut i: usize = 0;
        while i < len
            invariant
                0 <= i <= len,
                len == self.entries@.len(),
                m == self.model(),
                forall|k: int|
                    0 <= k < i ==> {
                        &&& (#[trigger] m.entries[k]).0 != Value::Nil
                        &&& m.entries[k].1 != Value::Nil
                        &&& m.entries[k].0.within(n as nat)
                        &&& m.entries[k].1.within(n as nat)
                    },
                forall|k: int, l: int|
                    0 <= k < l < i ==> (#[trigger] m.entries[k]).0 != (#[trigger] m.entries[l]).0,
            decreases len - i,
        {
            let key = &self.entries[i].0;
            let value = &self.entries[i].1;
            assert(m.entries[i as int] == (key.model(), value.model()));
            if key.is_nil() || value.is_nil() || !key.is_valid(n) || !value.is_valid(n) {
                return false;
            }
            let mut j: usize = 0;
            while j < i
                invariant
                    0 <= j <= i < len,
                    len == self.entries@.len(),
                    m == self.model(),
                    key.model() == m.entries[i as int].0,
                    forall|k: int| 0 <= k < j ==> (#[trigger] m.entries[k]).0 != key.model(),
                decreases i - j,
            {
                if self.entries[j].0.same(key) {
                    assert(m.entries[j as int].0 == m.entries[i as int].0);
                    return false;
                }
                j += 1;
            }
            i += 1;
        }
        match &self.metatable {
            None => true,
            Some(t) => *t < n,
        }
    }

    /// The place of the first entry with the key `key`, if there is one.
    pub fn find(&self, key: &LuaValue) -> (r: Option<usize>)
        ensures
            r.is_some() == self.model().has_key(key.model()),
            r matches Some(i) ==> i < self.entries@.len() && i == self.model().position(key.model()),
    {
        let n = self.entries.len();
        let ghost m = self.model();
        let mut i: usize = 0;
        while i < n
            invariant
                0 <= i <= n,
                n == self.entries@.len(),
                m == self.model(),
                forall|k: int| 0 <= k < i ==> (#[trigger] m.entries[k]).0 != key.model(),
            decreases n - i,
        {
            if self.entries[i].0.same(key) {
                assert(m.entries[i as int].0 == key.model());
                let ghost p = m.position(key.model());
                assert(p == i) by {
                    if p < i {
                        assert(m.entries[p].0 != key.model());
                    } else if i < p {
                        assert(m.entries[i as int].0 == key.model());
                    }
                }
                return Some(i);
            }
            i += 1;
        }
        None
    }

    /// A copy of what the table holds under `key`: nil where no entry has
    /// that key.
    pub fn get(&self, key: &LuaValue) -> (v: LuaValue)
        ensures
            v.model() == self.model().get(key.model()),
    {
        match self.find(key) {
            Some(i) => self.entries[i].1.duplicate(),
            None => LuaValue::Nil,
        }
    }

    /// Stores `value` under `key`. A nil key stores nothing, a nil value
    /// removes the entry of the key.
    pub fn set(&mut self, key: LuaValue, value: LuaValue)
        ensures
            final(self).model() == old(self).model().set(key.model(), value.model()),
    {
        if key.is_nil() {
            return ;
        }
        let ghost m = self.model();
        match self.find(&key) {
            Some(i) => {
                if value.is_nil() {
                    self.entries.remove(i);
                    assert(self.model().entries =~= m.entries.remove(i as int));
                } else {
                    self.entries.set(i, (key, value));
                    assert(self.model().entries =~= m.entries.update(
                        i as int,
                        (key.model(), value.model()),
                    ));
                }
            },
            None => {
                if !value.is_nil() {
                    self.entries.push((key, value));
                    assert(self.model().entries =~= m.entries.push((key.model(), value.model())));
                }
            },
        }
    }

    /// Copies of the key and the value of the entry that follows the entry
    /// of `key` in a walk: of the first entry for a nil key, nothing after
    /// the last entry or for a key that has no entry.
    pub fn next(&self, key: &LuaValue) -> (r: Option<(LuaValue, LuaValue)>)
        ensures
            match r {
                Some((k, v)) => self.model().next(key.model()) == Some((k.model(), v.model())),
                None => self.model().next(key.model()).is_none(),
            },
    {
        let n = self.entries.len();
        let at: usize = if key.is_nil() {
            0
        } else {
            match self.find(key) {
                Some(i) => i + 1,
                None => {
                    return None;
                },
            }
        };
        if at < n {
            let k = self.entries[at].0.duplicate();
            let v = self.entries[at].1.duplicate();
            Some((k, v))
        } else {
            None
        }
    }
}

/// The pure values that the values `vals` stand for.
pub open spec fn models(vals: Seq<LuaValue>) -> Seq<Value> {
    Seq::new(vals.len(), |i: int| vals[i].model())
}

/// The pure tables that the tables `tables` stand for.
pub open spec fn table_models(tables: Seq<TableData>) -> Seq<TableValue> {
    Seq::new(tables.len(), |i: int| tables[i].model())
}

/// Whether none of `vals` names a table beyond the first `n` of a store.
pub open spec fn all_within(vals: Seq<Value>, n: nat) -> bool {
    forall|i: int| 0 <= i < vals.len() ==> (#[trigger] vals[i]).within(n)
}

/// Whether `tables` is a store: it holds the table of the globals and the
/// registry, and each of its tables is well formed in it.
pub open spec fn store_wf(tables: Seq<TableValue>) -> bool {
    &&& tables.len() >= 2
    &&& forall|i: int| 0 <= i < tables.len() ==> (#[trigger] tables[i]).wf(tables.len())
}

/// Whether none of `vals` names a table beyond the first `n` of a store.
pub fn all_valid(vals: &Vec<LuaValue>, n: usize) -> (b: bool)
    ensures
        b == all_within(models(vals@), n as nat),
{
    let len = vals.len();
    let mut i: usize = 0;
    while i < len
        invariant
            0 <= i <= len,
            len == vals@.len(),
            forall|j: int| 0 <= j < i ==> (#[trigger] models(vals@)[j]).within(n as nat),
        decreases len - i,
    {
        if !vals[i].is_valid(n) {
            assert(!models(vals@)[i as int].within(n as nat));
            return false;
        }
        i += 1;
    }
    true
}

/// Whether `tables` is a store.
pub fn store_valid(tables: &Vec<TableData>) -> (b: bool)
    ensures
        b == store_wf(table_models(tables@)),
{
    let n = tables.len();
    if n < 2 {
        return false;
    }
    let mut i: usize = 0;
    while i < n
        invariant
            0 <= i <= n,
            n == tables@.len(),
            forall|j: int| 0 <= j < i ==> (#[trigger] table_models(tables@)[j]).wf(n as nat),
        decreases n - i,
    {
        if !tables[i].is_valid(n) {
            assert(!table_models(tables@)[i as int].wf(n as nat));
            return false;
        }
        i += 1;
    }
    true
}

} // verus!
