use crate::tlua::error::{typenames_spec, LuaError};
use crate::tlua::guard::{AbsoluteIndex, PushGuard};
use crate::tlua::push::{Push, Void};
use crate::tlua::read::LuaRead;
use crate::tlua::state::{Lua, LuaState, LUAI_MAXCSTACK};
use crate::tlua::value::{
    all_valid, all_within, models, store_wf, table_models, LuaType, LuaValue, TableData, Value,
};
use vstd::prelude::*;
use vstd::std_specs::convert::FromSpecImpl;
use vstd::string::StringExecFns;

verus! {

/// The character of the digit `d`.
pub open spec fn digit(d: int) -> char {
    if d == 0 {
        '0'
    } else if d == 1 {
        '1'
    } else if d == 2 {
        '2'
    } else if d == 3 {
        '3'
    } else if d == 4 {
        '4'
    } else if d == 5 {
        '5'
    } else if d == 6 {
        '6'
    } else if d == 7 {
        '7'
    } else if d == 8 {
        '8'
    } else {
        '9'
    }
}

/// The digits of `m` in base ten, the highest first.
pub open spec fn digits(m: nat) -> Seq<char>
    decreases m,
{
    if m < 10 {
        seq![digit(m as int)]
    } else {
        digits(m / 10).push(digit((m % 10) as int))
    }
}

/// The number `n` in base ten, with a minus sign before a negative one.
pub open spec fn decimal(n: int) -> Seq<char> {
    if n < 0 {
        seq!['-'] + digits((-n) as nat)
    } else {
        digits(n as nat)
    }
}

/// The text that a value gives where a string is wanted of it: a text is
/// itself, a number is written in base ten, and every other value gives a
/// word for what it is.
pub open spec fn display_spec(v: Value) -> Seq<char> {
    match v {
        Value::Nil => "nil"@,
        Value::Boolean(b) => if b {
            "true"@
        } else {
            "false"@
        },
        Value::Number(n) => decimal(n),
        Value::Text(s) => s,
        Value::Table(_) => "table"@,
        Value::Function(_) => "function"@,
    }
}

fn digit_str(d: u64) -> (s: &'static str)
    requires
        d < 10,
    ensures
        s@ == seq![digit(d as int)],
{
    proof {
        reveal_strlit("0");
        reveal_strlit("1");
        reveal_strlit("2");
        reveal_strlit("3");
        reveal_strlit("4");
        reveal_strlit("5");
        reveal_strlit("6");
        reveal_strlit("7");
        reveal_strlit("8");
        reveal_strlit("9");
    }
    let s = if d == 0 {
        "0"
    } else if d == 1 {
        "1"
    } else if d == 2 {
        "2"
    } else if d == 3 {
        "3"
    } else if d == 4 {
        "4"
    } else if d == 5 {
        "5"
    } else if d == 6 {
        "6"
    } else if d == 7 {
        "7"
    } else if d == 8 {
        "8"
    } else {
        "9"
    };
    assert(s@ =~= seq![digit(d as int)]);
    s
}

fn digits_string(m: u64) -> (s: String)
    ensures
        s@ == digits(m as nat),
    decreases m,
{
    if m < 10 {
        String::from_str(digit_str(m))
    } else {
        let mut s = digits_string(m / 10);
        s.append(digit_str(m % 10));
        assert(s@ =~= digits((m / 10) as nat).push(digit((m % 10) as int)));
        s
    }
}

/// The number `n` in base ten.
pub fn number_text(n: i64) -> (s: String)
    ensures
        s@ == decimal(n as int),
{
    if n < 0 {
        let magnitude: u64 = (-(n + 1)) as u64 + 1;
        let mut s = String::from_str("-");
        let tail = digits_string(magnitude);
        s.append(tail.as_str());
        proof {
            reveal_strlit("-");
            assert(s@ =~= seq!['-'] + digits((-n) as nat));
        }
        s
    } else {
        digits_string(n as u64)
    }
}

/// The text that `v` gives where a string is wanted of it.
pub fn display(v: &LuaValue) -> (s: String)
    ensures
        s@ == display_spec(v.model()),
{
    match v {
        LuaValue::Nil => String::from_str("nil"),
        LuaValue::Boolean(b) => if *b {
            String::from_str("true")
        } else {
            String::from_str("false")
        },
        LuaValue::Number(n) => number_text(*n),
        LuaValue::String(s) => s.clone(),
        LuaValue::Table(_) => String::from_str("table"),
        LuaValue::Function(_) => String::from_str("function"),
    }
}

/// How a protected call ended: with the values that the function returned,
/// or with the value that it raised.
#[derive(Debug)]
pub enum CallOutcome {
    Returned(Vec<LuaValue>),
    Raised(LuaValue),
}

/// What the interpreter reports of a run: the store of tables as the run
/// left it, the table of the globals first and the registry second, and how
/// the run ended. A table keeps its number over the run, and tables that
/// the run made follow the ones that were there.
#[derive(Debug)]
pub struct Run {
    pub tables: Vec<TableData>,
    pub outcome: CallOutcome,
}

/// What went wrong with a call: its arguments could not be pushed, or the
/// call itself failed.
#[derive(Debug)]
pub enum LuaFunctionCallError<E> {
    LuaError(LuaError),
    PushError(E),
}

/// A call whose arguments cannot fail to be pushed fails as the call itself
/// failed.
impl<E: Into<Void>> From<LuaFunctionCallError<E>> for LuaError {
    fn from(e: LuaFunctionCallError<E>) -> (r: LuaError) {
        match e {
            LuaFunctionCallError::LuaError(e) => e,
            LuaFunctionCallError::PushError(e) => {
                let never: Void = e.into();
                proof {
                    use_type_invariant(&never);
                }
                LuaError::ExecutionError(String::new())
            },
        }
    }
}

impl<E: Into<Void>> FromSpecImpl<LuaFunctionCallError<E>> for LuaError {
    open spec fn obeys_from_spec() -> bool {
        true
    }

    open spec fn from_spec(e: LuaFunctionCallError<E>) -> LuaError {
        match e {
            LuaFunctionCallError::LuaError(e) => e,
            LuaFunctionCallError::PushError(_) => arbitrary(),
        }
    }
}

/// Whether the context takes the store that a run reports: the tables are
/// a store, and none of the tables that were there is missing.
pub open spec fn accepted(before: LuaState, run: Run) -> bool {
    store_wf(table_models(run.tables@)) && run.tables@.len() >= before.tables.len()
}

/// The context after a run: the stack as it was, and the store as the run
/// reports it, where the context takes that store.
pub open spec fn after_run(before: LuaState, run: Run) -> LuaState {
    if accepted(before, run) {
        LuaState { stack: before.stack, tables: table_models(run.tables@) }
    } else {
        before
    }
}

/// What a call that ended with `outcome` leaves on the stack of `lua`: the
/// values that were returned, or the one value that tells what went wrong.
/// Values that name a table which the store does not hold, and more values
/// than the stack has room for, count as a failure of the call.
pub open spec fn settled(lua: LuaState, outcome: CallOutcome) -> Result<Seq<Value>, Value> {
    match outcome {
        CallOutcome::Returned(vals) => if !all_within(models(vals@), lua.tables.len()) {
            Err(Value::Text("malformed result"@))
        } else if lua.height() + vals@.len() > LUAI_MAXCSTACK {
            Err(Value::Text("stack overflow"@))
        } else {
            Ok(models(vals@))
        },
        CallOutcome::Raised(v) => if v.model().within(lua.tables.len()) {
            Err(v.model())
        } else {
            Err(Value::Text("malformed error value"@))
        },
    }
}

/// The kinds of the values `vals`.
pub open spec fn types_of(vals: Seq<Value>) -> Seq<LuaType> {
    Seq::new(vals.len(), |i: int| vals[i].type_of())
}

/// Whether `r` is what a call gives that ended with `outcome` in the
/// context `lua`, where the host asked for a result of the type `R`.
///
/// Returned values are read as `R` from the first of them on; where they
/// cannot be read so, the error names `R` and the kinds of all the values
/// that were returned. A raised value becomes an execution error with the
/// text that the value gives.
pub open spec fn call_gives<R: LuaRead>(
    lua: LuaState,
    outcome: CallOutcome,
    r: Result<R, LuaError>,
) -> bool {
    match settled(lua, outcome) {
        Ok(vals) => match r {
            Ok(v) => R::readable(lua.tables, vals) && R::decodes(lua.tables, vals, v),
            Err(e) => {
                &&& !R::readable(lua.tables, vals)
                &&& e matches LuaError::WrongType { rust_expected, lua_actual }
                &&& rust_expected@ == R::expected_name_spec()
                &&& lua_actual@ == typenames_spec(types_of(vals))
            },
        },
        Err(diagnostic) => r matches Err(LuaError::ExecutionError(msg)) && msg@ == display_spec(
            diagnostic,
        ),
    }
}

/// Whether `after` and `r` are what the run `run` makes of the context
/// `before`, where the host asked for a result of the type `R`.
///
/// The stack is as it was. The store is the one that the run reports: what
/// the run stored in a table or a global variable is there, and the result
/// is read in that store, as `call_gives` says. A report that is no store,
/// or that lacks a table that was there, changes nothing and is an
/// execution error.
pub open spec fn run_gives<R: LuaRead>(
    before: LuaState,
    run: Run,
    after: LuaState,
    r: Result<R, LuaError>,
) -> bool {
    &&& after == after_run(before, run)
    &&& if accepted(before, run) {
        call_gives(after, run.outcome, r)
    } else {
        r matches Err(LuaError::ExecutionError(msg)) && msg@ == "malformed tables"@
    }
}

/// Puts what a call left on the stack, reads it as `R`, and takes it off
/// again: the context is left as it was.
pub fn read_results<R: LuaRead>(lua: &mut Lua, outcome: CallOutcome) -> (r: Result<R, LuaError>)
    requires
        old(lua).inv(),
    ensures
        final(lua).inv(),
        final(lua)@ == old(lua)@,
        call_gives(old(lua)@, outcome, r),
{
    let ghost before = lua@;
    let count = lua.table_count();
    match outcome {
        CallOutcome::Raised(v) => {
            if v.is_valid(count) {
                Err(LuaError::ExecutionError(display(&v)))
            } else {
                Err(LuaError::ExecutionError(String::from_str("malformed error value")))
            }
        },
        CallOutcome::Returned(vals) => {
            if !all_valid(&vals, count) {
                return Err(LuaError::ExecutionError(String::from_str("malformed result")));
            }
            let top = lua.gettop();
            let len = vals.len();
            if len > (LUAI_MAXCSTACK - top) as usize {
                return Err(LuaError::ExecutionError(String::from_str("stack overflow")));
            }
            let ghost returned = models(vals@);
            let n = len as i32;
            lua.push_all(vals);
            proof {
                if n == 0 {
                    assert(lua@.values_from(0) =~= returned);
                } else {
                    assert(lua@.values_from(-n as int) =~= returned);
                }
                assert(lua@.types_from(lua@.height() - n + 1, n as nat) =~= types_of(returned)) by {
                    assert forall|i: int| 0 <= i < n implies lua@.type_at(lua@.height() - n + 1 + i)
                        == returned[i].type_of() by {
                        let a = lua@.height() - n + 1 + i;
                        assert(lua@.values_from(a)[0] == returned[i]);
                    }
                }
            }
            let r = match R::lua_read_at_position(lua, -n) {
                Some(v) => Ok(v),
                None => Err(LuaError::wrong_type::<R>(lua, n)),
            };
            lua.pop(n);
            assert(lua@.stack =~= before.stack);
            r
        },
    }
}

/// Takes what the interpreter reports of a run into the context and reads
/// what the run returned as `R`.
pub fn finish_run<R: LuaRead>(lua: &mut Lua, run: Run) -> (r: Result<R, LuaError>)
    requires
        old(lua).inv(),
    ensures
        final(lua).inv(),
        run_gives(old(lua)@, run, final(lua)@, r),
{
    let Run { tables, outcome } = run;
    if lua.replace_tables(tables) {
        read_results::<R>(lua, outcome)
    } else {
        Err(LuaError::ExecutionError(String::from_str("malformed tables")))
    }
}

/// Whether `after` and `r` are what a call gives whose arguments were
/// pushed and that ended as `run` reports: see `run_gives`.
pub open spec fn run_gives_after_push<R: LuaRead, E>(
    before: LuaState,
    run: Run,
    after: LuaState,
    r: Result<R, LuaFunctionCallError<E>>,
) -> bool {
    match r {
        Ok(v) => run_gives(before, run, after, Ok::<R, LuaError>(v)),
        Err(LuaFunctionCallError::LuaError(e)) => run_gives(before, run, after, Err::<R, LuaError>(e)),
        Err(LuaFunctionCallError::PushError(_)) => false,
    }
}

/// A function of a context: the resolved place of the function value, and
/// the guard of the slots that keep it there.
#[derive(Debug)]
pub struct LuaFunction {
    guard: PushGuard,
    index: AbsoluteIndex,
}

impl LuaFunction {
    /// The resolved index of the function.
    pub closed spec fn index(&self) -> int {
        self.index.index() as int
    }

    /// The guard that the handle holds.
    pub closed spec fn guard(&self) -> PushGuard {
        self.guard
    }

    /// The handle names a function of `lua`, and its guard owns slots that
    /// `lua` has.
    pub open spec fn valid(&self, lua: LuaState) -> bool {
        &&& lua.slot(self.index()) matches Some(Value::Function(_))
        &&& !LuaState::is_relative(self.index())
        &&& self.guard().holds(lua)
    }

    /// The number under which the host pinned the function.
    pub open spec fn id(&self, lua: LuaState) -> nat {
        lua.slot(self.index())->Some_0->Function_0
    }

    /// The handle of the function at `index`, which takes the guard; the
    /// guard alone, handed back, where `index` stands for no function.
    pub fn lua_read_at_position(lua: &Lua, guard: PushGuard, index: i32) -> (r: Result<
        LuaFunction,
        PushGuard,
    >)
        requires
            lua.inv(),
            guard.holds(lua@),
        ensures
            match r {
                Ok(f) => f.valid(lua@) && f.index() == lua@.absolute(index as int) && f.guard()
                    == guard,
                Err(g) => !(lua@.slot(index as int) matches Some(Value::Function(_))) && g
                    == guard,
            },
    {
        match lua.tofunction(index) {
            Some(_) => Ok(LuaFunction { index: AbsoluteIndex::new(index, lua), guard }),
            None => Err(guard),
        }
    }

    /// Gives up the handle and hands back the guard that it held.
    pub fn into_inner(self) -> (guard: PushGuard)
        ensures
            guard == self.guard(),
    {
        self.guard
    }

    /// Calls the function without arguments. See `call_with_args`.
    pub fn call<R: LuaRead, E: FnOnce(u32, Vec<LuaValue>, Vec<TableData>) -> Run>(
        &self,
        lua: &mut Lua,
        engine: E,
    ) -> (r: Result<R, LuaError>)
        requires
            old(lua).inv(),
            self.valid(old(lua)@),
            old(lua)@.height() < LUAI_MAXCSTACK,
            forall|f: u32, a: Vec<LuaValue>, t: Vec<TableData>| call_requires(engine, (f, a, t)),
        ensures
            final(lua).inv(),
            exists|a: Vec<LuaValue>, t: Vec<TableData>, run: Run|
                {
                    &&& a@.len() == 0
                    &&& table_models(t@) == old(lua)@.tables
                    &&& call_ensures(engine, (self.id(old(lua)@) as u32, a, t), run)
                    &&& run_gives(old(lua)@, run, final(lua)@, r)
                },
    {
        let ghost before = lua@;
        lua.pushvalue(self.index.into());
        let id = match lua.tofunction(-1) {
            Some(id) => id,
            None => 0,
        };
        lua.pop(1);
        assert(lua@.stack =~= before.stack);
        let args: Vec<LuaValue> = Vec::new();
        let tables = lua.tables_copy();
        let ghost none = args;
        let ghost handed = tables;
        let run = engine(id, args, tables);
        let ghost told = run;
        let r = finish_run::<R>(lua, run);
        assert(none@.len() == 0 && table_models(handed@) == before.tables && call_ensures(
            engine,
            (self.id(before) as u32, none, handed),
            told,
        ) && run_gives(before, told, lua@, r));
        r
    }

    /// Calls the function with the values of `args` as its arguments, and
    /// reads what it returns as `R`.
    ///
    /// A copy of the function and the arguments go on the stack; `engine`,
    /// which stands for the interpreter, is handed the number under which
    /// the host pinned the function, the arguments and the store of tables,
    /// runs the function, and reports the store as the run left it and how
    /// the call ended. The stack is left as it was, and the store is the
    /// one that was reported: see `run_gives`. Where the arguments cannot
    /// be pushed, the function is not called and the context is as it was.
    pub fn call_with_args<
        R: LuaRead,
        A: Push,
        E: FnOnce(u32, Vec<LuaValue>, Vec<TableData>) -> Run,
    >(&self, lua: &mut Lua, args: A, engine: E) -> (r: Result<R, LuaFunctionCallError<A::Err>>)
        requires
            old(lua).inv(),
            self.valid(old(lua)@),
            old(lua)@.height() + 1 + args.peak() <= LUAI_MAXCSTACK,
            forall|f: u32, a: Vec<LuaValue>, t: Vec<TableData>| call_requires(engine, (f, a, t)),
        ensures
            final(lua).inv(),
            match args.outcome(old(lua)@.tables.len()) {
                Err(e) => r matches Err(LuaFunctionCallError::PushError(e2)) && e2 == e && final(lua)@
                    == old(lua)@,
                Ok(p) => exists|a: Vec<LuaValue>, t: Vec<TableData>, run: Run|
                    {
                        &&& models(a@) == p.vals
                        &&& table_models(t@) == old(lua)@.tables + p.tables
                        &&& call_ensures(engine, (self.id(old(lua)@) as u32, a, t), run)
                        &&& run_gives_after_push(
                            old(lua)@.appended(p.tables),
                            run,
                            final(lua)@,
                            r,
                        )
                    },
            },
    {
        let ghost before = lua@;
        lua.pushvalue(self.index.into());
        let id = match lua.tofunction(-1) {
            Some(id) => id,
            None => 0,
        };
        let count = match args.push_to_lua(lua) {
            Ok(guard) => guard.forget(),
            Err(e) => {
                lua.pop(1);
                assert(lua@.stack =~= before.stack);
                return Err(LuaFunctionCallError::PushError(e));
            },
        };
        let ghost p = args.outcome(before.tables.len())->Ok_0;
        let taken = lua.take(count);
        assert(models(taken@) =~= p.vals);
        lua.pop(1);
        assert(lua@.stack =~= before.stack);
        assert(lua@ == before.appended(p.tables));
        let tables = lua.tables_copy();
        let ghost handed = tables;
        let ghost mid = lua@;
        let run = engine(id, taken, tables);
        let ghost told = run;
        let read = finish_run::<R>(lua, run);
        let r = match read {
            Ok(v) => Ok(v),
            Err(e) => Err(LuaFunctionCallError::LuaError(e)),
        };
        assert(models(taken@) == p.vals && table_models(handed@) == before.tables + p.tables
            && call_ensures(engine, (self.id(before) as u32, taken, handed), told)
            && run_gives_after_push(mid, told, lua@, r));
        r
    }
}

} // verus!
