use crate::tlua::error::LuaError;
use crate::tlua::guard::PushGuard;
use crate::tlua::lua_functions::{finish_run, run_gives, Run};
use crate::tlua::lua_tables::{CheckedSetError, LuaTable};
use crate::tlua::push::{push_gives, Push, PushInto, PushOneInto, Void};
use crate::tlua::read::LuaRead;
use crate::tlua::rust_tables::PushIterError;
use crate::tlua::state::{Lua, LuaState, GLOBALS, LUAI_MAXCSTACK, LUA_GLOBALSINDEX};
use crate::tlua::value::{table_models, TableData, TableValue, Value};
use vstd::prelude::*;

verus! {

impl Lua {
    /// Tries to push `v`: the guard of the slots that it was pushed on, or
    /// the error, with the context as it was. See `push_gives`.
    pub fn try_push<T: PushInto>(&mut self, v: T) -> (r: Result<PushGuard, T::Err>)
        requires
            old(self).inv(),
            old(self)@.height() + v.peak_into() <= LUAI_MAXCSTACK,
        ensures
            final(self).inv(),
            push_gives(old(self)@, final(self)@, v.outcome_into(old(self)@.tables.len()), r),
    {
        v.push_into_lua(self)
    }

    /// Pushes `v`, whose push cannot fail, and returns the guard of the
    /// slots that it was pushed on. See `push_gives`.
    pub fn push<T: PushInto>(&mut self, v: T) -> (guard: PushGuard) where T::Err: Into<Void>
        requires
            old(self).inv(),
            old(self)@.height() + v.peak_into() <= LUAI_MAXCSTACK,
        ensures
            final(self).inv(),
            push_gives(
                old(self)@,
                final(self)@,
                v.outcome_into(old(self)@.tables.len()),
                Ok::<PushGuard, T::Err>(guard),
            ),
    {
        v.push_into_no_err(self)
    }

    /// Tries to push `v`, which takes one slot.
    pub fn try_push_one<T: PushOneInto>(&mut self, v: T) -> (r: Result<PushGuard, T::Err>)
        requires
            old(self).inv(),
            old(self)@.height() + v.peak_into() <= LUAI_MAXCSTACK,
        ensures
            final(self).inv(),
            push_gives(old(self)@, final(self)@, v.outcome_into(old(self)@.tables.len()), r),
            r matches Ok(guard) ==> guard.spec_size() == 1,
    {
        proof {
            v.lemma_pushes_one_into(self@.tables.len());
        }
        v.push_into_lua(self)
    }

    /// Pushes `v`, which takes one slot and whose push cannot fail.
    pub fn push_one<T: PushOneInto>(&mut self, v: T) -> (guard: PushGuard) where T::Err: Into<Void>
        requires
            old(self).inv(),
            old(self)@.height() + v.peak_into() <= LUAI_MAXCSTACK,
        ensures
            final(self).inv(),
            push_gives(
                old(self)@,
                final(self)@,
                v.outcome_into(old(self)@.tables.len()),
                Ok::<PushGuard, T::Err>(guard),
            ),
            guard.spec_size() == 1,
    {
        proof {
            v.lemma_pushes_one_into(self@.tables.len());
        }
        v.push_into_no_err(self)
    }

    /// Tries to push the items as one new table: see `table_of` for the
    /// tables that they make. Where an item fails, the whole context is as
    /// it was.
    pub fn try_push_iter<T: Push>(&mut self, items: Vec<T>) -> (r: Result<
        PushGuard,
        PushIterError<T::Err>,
    >)
        requires
            old(self).inv(),
            old(self)@.height() + items.peak() <= LUAI_MAXCSTACK,
        ensures
            final(self).inv(),
            push_gives(old(self)@, final(self)@, items.outcome(old(self)@.tables.len()), r),
            r matches Ok(guard) ==> guard.spec_size() == 1,
    {
        items.push_to_lua(self)
    }

    /// Pushes the items, each of which can be pushed without fail, as one
    /// new table; nothing, with the context as it was, where an item has
    /// more than two values.
    pub fn push_iter<T: Push>(&mut self, items: Vec<T>) -> (r: Option<PushGuard>) where
        T::Err: Into<Void>,

        requires
            old(self).inv(),
            old(self)@.height() + items.peak() <= LUAI_MAXCSTACK,
        ensures
            final(self).inv(),
            match r {
                Some(guard) => push_gives(
                    old(self)@,
                    final(self)@,
                    items.outcome(old(self)@.tables.len()),
                    Ok::<PushGuard, PushIterError<T::Err>>(guard),
                ) && guard.spec_size() == 1,
                None => items.outcome(old(self)@.tables.len()) is Err && final(self)@ == old(self)@,
            },
    {
        match items.push_to_lua(self) {
            Ok(guard) => Some(guard),
            Err(_) => None,
        }
    }

    /// Reads the value that the topmost slots hold and releases the guard;
    /// hands the guard back, with the stack as it was, where the slots
    /// cannot be read as `T`.
    pub fn read<T: LuaRead>(&mut self, guard: PushGuard) -> (r: Result<T, PushGuard>)
        requires
            old(self).inv(),
            0 <= guard.spec_size() <= old(self)@.height(),
        ensures
            final(self).inv(),
            ({
                let vals = old(self)@.values_from(-T::n_values_spec());
                match r {
                    Ok(v) => {
                        &&& T::readable(old(self)@.tables, vals)
                        &&& T::decodes(old(self)@.tables, vals, v)
                        &&& final(self)@ == old(self)@.popped(guard.spec_size() as int)
                    },
                    Err(g) => {
                        &&& !T::readable(old(self)@.tables, vals)
                        &&& g == guard
                        &&& final(self)@ == old(self)@
                    },
                }
            }),
    {
        match T::lua_read(self) {
            Some(v) => {
                guard.into_inner(self);
                Ok(v)
            },
            None => Err(guard),
        }
    }

    /// Reads the value at `index` and releases the guard; hands the guard
    /// back, with the stack as it was, where the value cannot be read as
    /// `T` or `index` is zero.
    pub fn read_at<T: LuaRead>(&mut self, guard: PushGuard, index: i32) -> (r: Result<
        T,
        PushGuard,
    >)
        requires
            old(self).inv(),
            0 <= guard.spec_size() <= old(self)@.height(),
        ensures
            final(self).inv(),
            ({
                let vals = old(self)@.values_from(index as int);
                match r {
                    Ok(v) => {
                        &&& index != 0
                        &&& T::readable(old(self)@.tables, vals)
                        &&& T::decodes(old(self)@.tables, vals, v)
                        &&& final(self)@ == old(self)@.popped(guard.spec_size() as int)
                    },
                    Err(g) => {
                        &&& index == 0 || !T::readable(old(self)@.tables, vals)
                        &&& g == guard
                        &&& final(self)@ == old(self)@
                    },
                }
            }),
    {
        match T::lua_read_at_maybe_zero_position(self, index) {
            Some(v) => {
                guard.into_inner(self);
                Ok(v)
            },
            None => Err(guard),
        }
    }

    /// Reads the value at `index`, which is not zero, and releases the
    /// guard; hands the guard back, with the stack as it was, where the
    /// value cannot be read as `T`.
    pub fn read_at_nz<T: LuaRead>(&mut self, guard: PushGuard, index: i32) -> (r: Result<
        T,
        PushGuard,
    >)
        requires
            old(self).inv(),
            index != 0,
            0 <= guard.spec_size() <= old(self)@.height(),
        ensures
            final(self).inv(),
            ({
                let vals = old(self)@.values_from(index as int);
                match r {
                    Ok(v) => {
                        &&& T::readable(old(self)@.tables, vals)
                        &&& T::decodes(old(self)@.tables, vals, v)
                        &&& final(self)@ == old(self)@.popped(guard.spec_size() as int)
                    },
                    Err(g) => {
                        &&& !T::readable(old(self)@.tables, vals)
                        &&& g == guard
                        &&& final(self)@ == old(self)@
                    },
                }
            }),
    {
        match T::lua_read_at_position(self, index) {
            Some(v) => {
                guard.into_inner(self);
                Ok(v)
            },
            None => Err(guard),
        }
    }

    /// The table of the global variables.
    pub fn globals_table(&self) -> (t: LuaTable)
        requires
            self.inv(),
        ensures
            t.valid(self@),
            t.index() == LUA_GLOBALSINDEX,
            t.guard().spec_size() == 0,
            t.id(self@) == GLOBALS,
    {
        match LuaTable::lua_read_at_position(self, PushGuard::new(self, 0), LUA_GLOBALSINDEX) {
            Ok(t) => t,
            Err(_) => {
                proof {
                    assert(false);
                }
                LuaTable::registry(self)
            },
        }
    }

    /// Reads the global variable `index`; nothing where there is none of
    /// that name or its value cannot be read as `V`. The context is left as
    /// it was.
    pub fn get<V: LuaRead>(&mut self, index: &str) -> (r: Option<V>)
        requires
            old(self).inv(),
            old(self)@.height() < LUAI_MAXCSTACK,
        ensures
            final(self).inv(),
            final(self)@ == old(self)@,
            ({
                let found = old(self)@.globals().get(Value::Text(index@));
                &&& r.is_some() == V::readable(old(self)@.tables, seq![found])
                &&& r matches Some(v) ==> V::decodes(old(self)@.tables, seq![found], v)
            }),
    {
        let globals = self.globals_table();
        globals.get::<V, &str>(self, index)
    }

    /// Reads the global variable `index`. Where its value cannot be read as
    /// `V`, the value stays on top of the stack, owned by the guard that is
    /// returned.
    pub fn into_get<V: LuaRead>(&mut self, index: &str) -> (r: Result<V, PushGuard>)
        requires
            old(self).inv(),
            old(self)@.height() < LUAI_MAXCSTACK,
        ensures
            final(self).inv(),
            ({
                let found = old(self)@.globals().get(Value::Text(index@));
                match r {
                    Ok(v) => {
                        &&& V::readable(old(self)@.tables, seq![found])
                        &&& V::decodes(old(self)@.tables, seq![found], v)
                        &&& final(self)@ == old(self)@
                    },
                    Err(guard) => {
                        &&& !V::readable(old(self)@.tables, seq![found])
                        &&& final(self)@ == old(self)@.pushed(seq![found])
                        &&& guard.spec_size() == 1
                        &&& guard.spec_top() == final(self)@.height()
                    },
                }
            }),
    {
        LuaTable::get_impl::<V, &str>(self, LUA_GLOBALSINDEX, index)
    }

    /// Gives the global variable `index` the value `value`, or changes
    /// nothing where the value cannot be pushed. A nil value removes the
    /// variable.
    pub fn checked_set<V: PushOneInto>(&mut self, index: &str, value: V) -> (r: Result<
        (),
        V::Err,
    >)
        requires
            old(self).inv(),
            old(self)@.height() + 1 + value.peak_into() <= LUAI_MAXCSTACK,
        ensures
            final(self).inv(),
            match r {
                Ok(_) => value.outcome_into(old(self)@.tables.len()) matches Ok(val)
                    && val.vals.len() == 1 && final(self)@ == old(self)@.appended(
                    val.tables,
                ).with_table(
                    GLOBALS as nat,
                    old(self)@.globals().set(Value::Text(index@), val.vals[0]),
                ),
                Err(e) => value.outcome_into(old(self)@.tables.len()) is Err && value.outcome_into(
                    old(self)@.tables.len(),
                )->Err_0 == e && final(self)@ == old(self)@,
            },
    {
        let globals = self.globals_table();
        match globals.checked_set::<&str, V>(self, index, value) {
            Ok(_) => Ok(()),
            Err(CheckedSetError::ValuePushError(e)) => Err(e),
            Err(CheckedSetError::KeyPushError(e)) => {
                proof {
                    use_type_invariant(&e);
                }
                Ok(())
            },
        }
    }

    /// Gives the global variable `index` the value `value`, whose push
    /// cannot fail. A nil value removes the variable.
    pub fn set<V: PushOneInto>(&mut self, index: &str, value: V) where V::Err: Into<Void>
        requires
            old(self).inv(),
            old(self)@.height() + 1 + value.peak_into() <= LUAI_MAXCSTACK,
        ensures
            final(self).inv(),
            value.outcome_into(old(self)@.tables.len()) matches Ok(val) && val.vals.len() == 1
                && final(self)@ == old(self)@.appended(val.tables).with_table(
                GLOBALS as nat,
                old(self)@.globals().set(Value::Text(index@), val.vals[0]),
            ),
    {
        match self.checked_set(index, value) {
            Ok(_) => (),
            Err(e) => {
                let never: Void = e.into();
                proof {
                    use_type_invariant(&never);
                }
            },
        }
    }

    /// Makes a new, empty table the value of the global variable `index`
    /// and puts it on top of the stack; the handle that is returned holds
    /// the guard of that slot and names the table of the variable: what is
    /// stored through the handle is found in the variable.
    pub fn empty_array(&mut self, index: &str) -> (r: LuaTable)
        requires
            old(self).inv(),
            old(self)@.height() + 3 <= LUAI_MAXCSTACK,
        ensures
            final(self).inv(),
            ({
                let made = old(self)@.tables.len();
                &&& final(self)@ == old(self)@.appended(seq![TableValue::empty()]).with_table(
                    GLOBALS as nat,
                    old(self)@.globals().set(Value::Text(index@), Value::Table(made)),
                ).pushed(seq![Value::Table(made)])
                &&& r.id(final(self)@) == made
            }),
            r.valid(final(self)@),
            r.index() == final(self)@.height(),
            r.guard().spec_size() == 1,
            r.guard().spec_top() == final(self)@.height(),
    {
        let globals = self.globals_table();
        globals.empty_array::<&str>(self, index)
    }

    /// Runs the source text `code` and reads what it returns as `T`.
    ///
    /// `engine` stands for the interpreter: it is handed the text and the
    /// store of tables, and tells either that the text is no program, with
    /// the reason, or what it reports of the run: the store as the run left
    /// it and how the run ended. The stack is left as it was; the global
    /// variables and the tables are as the run left them. See `run_gives`.
    pub fn eval<T: LuaRead, E: FnOnce(String, Vec<TableData>) -> Result<Run, String>>(
        &mut self,
        code: &str,
        engine: E,
    ) -> (r: Result<T, LuaError>)
        requires
            old(self).inv(),
            forall|text: String, t: Vec<TableData>| call_requires(engine, (text, t)),
        ensures
            final(self).inv(),
            exists|text: String, t: Vec<TableData>, told: Result<Run, String>|
                {
                    &&& text@ == code@
                    &&& table_models(t@) == old(self)@.tables
                    &&& call_ensures(engine, (text, t), told)
                    &&& eval_gives(old(self)@, told, final(self)@, r)
                },
    {
        let ghost before = self@;
        let text = code.to_owned();
        let tables = self.tables_copy();
        let ghost handed = text;
        let ghost store = tables;
        let o = engine(text, tables);
        let ghost told = o;
        let r = match o {
            Err(reason) => Err(LuaError::SyntaxError(reason)),
            Ok(run) => finish_run::<T>(self, run),
        };
        assert(handed@ == code@ && table_models(store@) == before.tables && call_ensures(
            engine,
            (handed, store),
            told,
        ) && eval_gives(before, told, self@, r));
        r
    }

    /// Runs the source text `code` for what it does, and drops what it
    /// returns: what the run stored in a global variable or a table is
    /// there after the call. See `eval`.
    pub fn exec<E: FnOnce(String, Vec<TableData>) -> Result<Run, String>>(
        &mut self,
        code: &str,
        engine: E,
    ) -> (r: Result<(), LuaError>)
        requires
            old(self).inv(),
            forall|text: String, t: Vec<TableData>| call_requires(engine, (text, t)),
        ensures
            final(self).inv(),
            exists|text: String, t: Vec<TableData>, told: Result<Run, String>|
                {
                    &&& text@ == code@
                    &&& table_models(t@) == old(self)@.tables
                    &&& call_ensures(engine, (text, t), told)
                    &&& eval_gives(old(self)@, told, final(self)@, r)
                },
    {
        self.eval::<(), E>(code, engine)
    }

    /// Runs the source text that was read from some source, or reports the
    /// failure to read it. See `eval`.
    pub fn eval_from<T: LuaRead, E: FnOnce(String, Vec<TableData>) -> Result<Run, String>>(
        &mut self,
        code: Result<String, std::io::Error>,
        engine: E,
    ) -> (r: Result<T, LuaError>)
        requires
            old(self).inv(),
            forall|text: String, t: Vec<TableData>| call_requires(engine, (text, t)),
        ensures
            final(self).inv(),
            match code {
                Err(failure) => r matches Err(LuaError::ReadError(e)) && e == failure && final(self)@
                    == old(self)@,
                Ok(source) => exists|text: String, t: Vec<TableData>, told: Result<Run, String>|
                    {
                        &&& text@ == source@
                        &&& table_models(t@) == old(self)@.tables
                        &&& call_ensures(engine, (text, t), told)
                        &&& eval_gives(old(self)@, told, final(self)@, r)
                    },
            },
    {
        match code {
            Err(failure) => Err(LuaError::ReadError(failure)),
            Ok(source) => self.eval::<T, E>(source.as_str(), engine),
        }
    }

    /// Runs the source text that was read from some source for what it
    /// does, or reports the failure to read it. See `eval`.
    pub fn exec_from<E: FnOnce(String, Vec<TableData>) -> Result<Run, String>>(
        &mut self,
        code: Result<String, std::io::Error>,
        engine: E,
    ) -> (r: Result<(), LuaError>)
        requires
            old(self).inv(),
            forall|text: String, t: Vec<TableData>| call_requires(engine, (text, t)),
        ensures
            final(self).inv(),
            match code {
                Err(failure) => r matches Err(LuaError::ReadError(e)) && e == failure && final(self)@
                    == old(self)@,
                Ok(source) => exists|text: String, t: Vec<TableData>, told: Result<Run, String>|
                    {
                        &&& text@ == source@
                        &&& table_models(t@) == old(self)@.tables
                        &&& call_ensures(engine, (text, t), told)
                        &&& eval_gives(old(self)@, told, final(self)@, r)
                    },
            },
    {
        self.eval_from::<(), E>(code, engine)
    }
}

/// Whether `after` and `r` are what running a source text makes of the
/// context `before`, where the interpreter told `told` of it: a text that
/// is no program changes nothing and gives a syntax error with the reason
/// that was told; for a program that ran, see `run_gives`.
pub open spec fn eval_gives<T: LuaRead>(
    before: LuaState,
    told: Result<Run, String>,
    after: LuaState,
    r: Result<T, LuaError>,
) -> bool {
    match told {
        Err(reason) => {
            &&& after == before
            &&& r matches Err(LuaError::SyntaxError(text))
            &&& text@ == reason@
        },
        Ok(run) => run_gives(before, run, after, r),
    }
}

} // verus!
