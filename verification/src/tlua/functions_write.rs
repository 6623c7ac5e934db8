use crate::tlua::error::{typenames, typenames_spec};
use crate::tlua::guard::{AbsoluteIndex, PushGuard};
use crate::tlua::lua_functions::{types_of, CallOutcome, Run};
use crate::tlua::push::{plain, Push, PushOne, Pushed, Void};
use crate::tlua::read::LuaRead;
use crate::tlua::state::{Lua, LUAI_MAXCSTACK};
use crate::tlua::value::{
    all_valid, all_within, models, store_wf, table_models, LuaValue, TableData, TableValue, Value,
};
use vstd::prelude::*;
use vstd::string::StringExecFns;

verus! {

/// A host function as a value of the interpreter: the number under which
/// the host pinned it. The interpreter hands the number back when it calls
/// the function, and `call_host` runs the host function on the arguments.
#[derive(Debug, Clone, Copy, PartialEq, Eq, Structural)]
pub struct Function {
    pub pin: u32,
}

/// A host function goes over as one function value.
impl Push for Function {
    type Err = Void;

    open spec fn outcome(&self, base: nat) -> Result<Pushed, Void> {
        Ok(plain(seq![Value::Function(self.pin as nat)]))
    }

    open spec fn peak(&self) -> nat {
        1
    }

    fn push_to_lua(&self, lua: &mut Lua) -> (r: Result<PushGuard, Void>) {
        lua.pushfunction(self.pin);
        Ok(PushGuard::new(lua, 1))
    }
}

impl PushOne for Function {
    proof fn lemma_pushes_one(&self, base: nat) {
    }
}

/// A function value reads as the host function that is pinned under its
/// number.
impl LuaRead for Function {
    open spec fn expected_name_spec() -> Seq<char> {
        "function"@
    }

    open spec fn n_values_spec() -> int {
        1
    }

    open spec fn readable(tables: Seq<TableValue>, vals: Seq<Value>) -> bool {
        vals.len() > 0 && vals[0] is Function
    }

    open spec fn decodes(tables: Seq<TableValue>, vals: Seq<Value>, r: Function) -> bool {
        vals.len() > 0 && vals[0] == Value::Function(r.pin as nat)
    }

    fn expected_name() -> (s: String) {
        String::from_str("function")
    }

    fn n_values_expected() -> (n: i32) {
        1
    }

    fn lua_read_at_position(lua: &Lua, index: i32) -> (r: Option<Function>) {
        match lua.tofunction(index) {
            Some(pin) => Some(Function { pin }),
            None => None,
        }
    }
}

/// The text of the error that a host function raises where its arguments
/// cannot be read as the type `A` that it takes: it names `A` and the kinds
/// of the arguments.
pub open spec fn bad_arguments<A: LuaRead>(args: Seq<Value>) -> Seq<char> {
    "bad arguments: "@ + A::expected_name_spec() + " expected, got "@ + typenames_spec(
        types_of(args),
    )
}

/// Whether `run` reports a call that raised the text `text` and left the
/// store `tables` as it was.
pub open spec fn raised_with(run: Run, tables: Seq<TableValue>, text: Seq<char>) -> bool {
    &&& table_models(run.tables@) == tables
    &&& run.outcome matches CallOutcome::Raised(v)
    &&& v.model() == Value::Text(text)
}

/// Whether `run` is what the call of the host function `f` reports on the
/// arguments `args` and the store `tables`.
///
/// The arguments are read as `A` from the first of them on. Where the store
/// is no store, or the arguments name tables that it does not hold, are too
/// many for a stack or cannot be read as `A`, the call raises an error and
/// `f` does not run. Else `f` runs on what was read, and what it returns
/// goes over as the values that the call returns, with the tables that it
/// made at the end of the store; where that cannot be pushed, the call
/// raises an error.
pub open spec fn host_call_gives<A: LuaRead, R: Push, F: FnOnce(A) -> R>(
    f: F,
    args: Seq<LuaValue>,
    tables: Seq<TableData>,
    run: Run,
) -> bool {
    let store = table_models(tables);
    if !store_wf(store) {
        raised_with(run, store, "malformed tables"@)
    } else if !all_within(models(args), store.len()) || args.len() > LUAI_MAXCSTACK {
        raised_with(run, store, "malformed arguments"@)
    } else if !A::readable(store, models(args)) {
        raised_with(run, store, bad_arguments::<A>(models(args)))
    } else {
        exists|a: A, r: R|
            {
                &&& A::decodes(store, models(args), a)
                &&& call_ensures(f, (a,), r)
                &&& match r.outcome(store.len()) {
                    Ok(p) => {
                        &&& table_models(run.tables@) == store + p.tables
                        &&& run.outcome matches CallOutcome::Returned(returned)
                        &&& models(returned@) == p.vals
                    },
                    Err(_) => raised_with(run, store, "host function failed"@),
                }
            }
    }
}

fn raise(tables: Vec<TableData>, text: &str) -> (run: Run)
    ensures
        raised_with(run, table_models(tables@), text@),
{
    Run { tables, outcome: CallOutcome::Raised(LuaValue::String(String::from_str(text))) }
}

/// Calls the host function `f` as the interpreter would: reads the
/// arguments of the call as the value that `f` takes, runs `f`, and hands
/// what it returns back as the values of the call, or raises an error. The
/// call works on a stack of its own.
pub fn call_host<A: LuaRead, R: Push, F: FnOnce(A) -> R>(
    f: F,
    args: Vec<LuaValue>,
    tables: Vec<TableData>,
) -> (run: Run)
    requires
        forall|a: A| call_requires(f, (a,)),
        forall|a: A, r: R| call_ensures(f, (a,), r) ==> r.peak() <= LUAI_MAXCSTACK,
    ensures
        host_call_gives::<A, R, F>(f, args@, tables@, run),
{
    let ghost store = table_models(tables@);
    let mut lua = match Lua::from_tables(tables) {
        Ok(lua) => lua,
        Err(back) => {
            return raise(back, "malformed tables");
        },
    };
    let count = args.len();
    if !all_valid(&args, lua.table_count()) || count > LUAI_MAXCSTACK as usize {
        return raise(lua.into_tables(), "malformed arguments");
    }
    let ghost given = models(args@);
    lua.push_all(args);
    assert(lua@.stack =~= given);
    let first: i32 = if count == 0 {
        0
    } else {
        1
    };
    proof {
        if count == 0 {
            assert(lua@.values_from(0) =~= given);
        } else {
            assert(lua@.values_from(1) =~= given);
        }
    }
    let a = match A::lua_read_at_position(&lua, first) {
        Some(a) => a,
        None => {
            let mut text = String::from_str("bad arguments: ");
            let expected = A::expected_name();
            text.append(expected.as_str());
            text.append(" expected, got ");
            proof {
                assert(lua@.types_from(1, count as nat) =~= types_of(given)) by {
                    assert forall|i: int| 0 <= i < count implies lua@.type_at(1 + i)
                        == given[i].type_of() by {
                        assert(lua@.values_from(1 + i)[0] == given[i]);
                    }
                }
            }
            let actual = typenames(&lua, AbsoluteIndex::new_unchecked(1), count as u32);
            text.append(actual.as_str());
            return raise(lua.into_tables(), text.as_str());
        },
    };
    let ghost taken = a;
    lua.pop(count as i32);
    let r = f(a);
    let ghost result = r;
    let run = match r.push_to_lua(&mut lua) {
        Ok(guard) => {
            let n = guard.forget();
            let returned = lua.take(n);
            assert(models(returned@) =~= result.outcome(store.len())->Ok_0.vals);
            Run { tables: lua.into_tables(), outcome: CallOutcome::Returned(returned) }
        },
        Err(_) => raise(lua.into_tables(), "host function failed"),
    };
    assert(A::decodes(store, given, taken) && call_ensures(f, (taken,), result));
    run
}

} // verus!
