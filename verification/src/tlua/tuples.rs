use crate::tlua::guard::PushGuard;
use crate::tlua::push::{push_gives, Push, Pushed, Void};
use crate::tlua::read::LuaRead;
use crate::tlua::state::{rest, Lua, LUAI_MAXCSTACK};
use crate::tlua::value::{TableValue, Value};
use vstd::prelude::*;
use vstd::std_specs::convert::FromSpecImpl;
use vstd::string::StringExecFns;

verus! {

/// What went wrong when several values were to be pushed together: the
/// first of them failed, or one of the others.
#[derive(Debug)]
pub enum TuplePushError<A, B> {
    First(A),
    Other(B),
}

/// Where neither the first value nor the others can fail, pushing them
/// together cannot fail.
impl<A: Into<Void>, B: Into<Void>> From<TuplePushError<A, B>> for Void {
    fn from(e: TuplePushError<A, B>) -> (r: Void) {
        match e {
            TuplePushError::First(a) => a.into(),
            TuplePushError::Other(b) => b.into(),
        }
    }
}

impl<A: Into<Void>, B: Into<Void>> FromSpecImpl<TuplePushError<A, B>> for Void {
    open spec fn obeys_from_spec() -> bool {
        false
    }

    open spec fn from_spec(e: TuplePushError<A, B>) -> Void {
        arbitrary()
    }
}

/// One value in brackets.
pub type Single<A> = (A,);

/// Two values together.
pub type Pair<A, B> = (A, B);

/// Three values together.
pub type Triple<A, B, C> = (A, B, C);

/// Four values together.
pub type Quadruple<A, B, C, D> = (A, B, C, D);

/// The number of tables in the store when the values after the first are
/// pushed: the tables that the first made have joined it.
pub open spec fn base_after<A>(first: Result<Pushed, A>, base: nat) -> nat {
    match first {
        Ok(p) => base + p.tables.len(),
        Err(_) => base,
    }
}

/// What pushing `first` and then `others` comes to: the values and the
/// tables of both, or the error of the one that fails first.
pub open spec fn outcome_of_both<A, B>(
    first: Result<Pushed, A>,
    others: Result<Pushed, B>,
) -> Result<Pushed, TuplePushError<A, B>> {
    match first {
        Err(e) => Err(TuplePushError::First(e)),
        Ok(a) => match others {
            Err(e) => Err(TuplePushError::Other(e)),
            Ok(b) => Ok(Pushed { vals: a.vals + b.vals, tables: a.tables + b.tables }),
        },
    }
}

/// Pushes `first` and then `others`, or nothing at all.
fn push_both<A: Push, B: Push>(lua: &mut Lua, first: &A, others: &B) -> (r: Result<
    PushGuard,
    TuplePushError<A::Err, B::Err>,
>)
    requires
        old(lua).inv(),
        old(lua)@.height() + first.peak() + others.peak() <= LUAI_MAXCSTACK,
    ensures
        final(lua).inv(),
        ({
            let base = old(lua)@.tables.len();
            let a = first.outcome(base);
            let both = outcome_of_both(a, others.outcome(base_after(a, base)));
            &&& push_gives(old(lua)@, final(lua)@, both, r)
            &&& r is Ok ==> both->Ok_0.vals.len() <= first.peak() + others.peak()
        }),
{
    let ghost before = lua@;
    let count = lua.table_count();
    let head = match first.push_to_lua(lua) {
        Ok(guard) => guard,
        Err(e) => {
            return Err(TuplePushError::First(e));
        },
    };
    let ghost a = first.outcome(before.tables.len())->Ok_0;
    assert(lua@.tables.len() == before.tables.len() + a.tables.len());
    match others.push_to_lua(lua) {
        Ok(tail) => {
            let total = head.forget() + tail.forget();
            let ghost b = others.outcome(before.tables.len() + a.tables.len())->Ok_0;
            assert(lua@.stack =~= before.stack + (a.vals + b.vals));
            assert(lua@.tables =~= before.tables + (a.tables + b.tables));
            Ok(PushGuard::new(lua, total))
        },
        Err(e) => {
            head.into_inner(lua);
            assert(lua@.stack =~= before.stack);
            assert(lua@.tables.take(count as int) =~= before.tables);
            lua.truncate_tables(count);
            Err(TuplePushError::Other(e))
        },
    }
}

/// One value in brackets goes over as that value.
impl<A: Push> Push for Single<A> {
    type Err = A::Err;

    open spec fn outcome(&self, base: nat) -> Result<Pushed, A::Err> {
        self.0.outcome(base)
    }

    open spec fn peak(&self) -> nat {
        self.0.peak()
    }

    fn push_to_lua(&self, lua: &mut Lua) -> (r: Result<PushGuard, A::Err>) {
        self.0.push_to_lua(lua)
    }
}

/// Two values go over one after the other, each on its own slots.
impl<A: Push, B: Push> Push for Pair<A, B> {
    type Err = TuplePushError<A::Err, B::Err>;

    open spec fn outcome(&self, base: nat) -> Result<Pushed, Self::Err> {
        let a = self.0.outcome(base);
        outcome_of_both(a, self.1.outcome(base_after(a, base)))
    }

    open spec fn peak(&self) -> nat {
        self.0.peak() + self.1.peak()
    }

    fn push_to_lua(&self, lua: &mut Lua) -> (r: Result<PushGuard, Self::Err>) {
        push_both(lua, &self.0, &self.1)
    }
}

/// Three values go over as the first and then the pair of the others.
impl<A: Push, B: Push, C: Push> Push for Triple<A, B, C> {
    type Err = TuplePushError<A::Err, TuplePushError<B::Err, C::Err>>;

    open spec fn outcome(&self, base: nat) -> Result<Pushed, Self::Err> {
        let a = self.0.outcome(base);
        outcome_of_both(a, (self.1, self.2).outcome(base_after(a, base)))
    }

    open spec fn peak(&self) -> nat {
        self.0.peak() + self.1.peak() + self.2.peak()
    }

    fn push_to_lua(&self, lua: &mut Lua) -> (r: Result<PushGuard, Self::Err>) {
        let others = (&self.1, &self.2);
        push_both(lua, &self.0, &others)
    }
}

/// Four values go over as the first and then the three others.
impl<A: Push, B: Push, C: Push, D: Push> Push for Quadruple<A, B, C, D> {
    type Err = TuplePushError<
        A::Err,
        TuplePushError<B::Err, TuplePushError<C::Err, D::Err>>,
    >;

    open spec fn outcome(&self, base: nat) -> Result<Pushed, Self::Err> {
        let a = self.0.outcome(base);
        outcome_of_both(a, (self.1, self.2, self.3).outcome(base_after(a, base)))
    }

    open spec fn peak(&self) -> nat {
        self.0.peak() + self.1.peak() + self.2.peak() + self.3.peak()
    }

    fn push_to_lua(&self, lua: &mut Lua) -> (r: Result<PushGuard, Self::Err>) {
        let others = (&self.1, &self.2, &self.3);
        push_both(lua, &self.0, &others)
    }
}

/// A read of one value: each from its own place, the first at the index and
/// every other one place above the one before it.
impl<A: LuaRead> LuaRead for Single<A> {
    open spec fn expected_name_spec() -> Seq<char> {
        "("@
            + A::expected_name_spec()
            + ",)"@
    }

    open spec fn n_values_spec() -> int {
        1
    }

    open spec fn readable(tables: Seq<TableValue>, vals: Seq<Value>) -> bool {
        &&& A::readable(tables, rest(vals, 0))
    }

    open spec fn decodes(tables: Seq<TableValue>, vals: Seq<Value>, r: Single<A>) -> bool {
        &&& A::decodes(tables, rest(vals, 0), r.0)
    }

    fn expected_name() -> (s: String) {
        let mut s = String::from_str("(");
        let part = A::expected_name();
        s.append(part.as_str());
        s.append(",)");
        s
    }

    fn n_values_expected() -> (n: i32) {
        1
    }

    fn lua_read_at_position(lua: &Lua, index: i32) -> (r: Option<Single<A>>) {
        let at = lua.field_index(index, 0);
        let f0 = match A::lua_read_at_position(lua, at) {
            Some(v) => v,
            None => {
                return None;
            },
        };
        Some((f0,))
    }
}

/// A read of two values: each from its own place, the first at the index and
/// every other one place above the one before it.
impl<A: LuaRead, B: LuaRead> LuaRead for Pair<A, B> {
    open spec fn expected_name_spec() -> Seq<char> {
        "("@
            + A::expected_name_spec()
            + ", "@
            + B::expected_name_spec()
            + ")"@
    }

    open spec fn n_values_spec() -> int {
        2
    }

    open spec fn readable(tables: Seq<TableValue>, vals: Seq<Value>) -> bool {
        &&& A::readable(tables, rest(vals, 0))
        &&& B::readable(tables, rest(vals, 1))
    }

    open spec fn decodes(tables: Seq<TableValue>, vals: Seq<Value>, r: Pair<A, B>) -> bool {
        &&& A::decodes(tables, rest(vals, 0), r.0)
        &&& B::decodes(tables, rest(vals, 1), r.1)
    }

    fn expected_name() -> (s: String) {
        let mut s = String::from_str("(");
        let part = A::expected_name();
        s.append(part.as_str());
        s.append(", ");
        let part = B::expected_name();
        s.append(part.as_str());
        s.append(")");
        s
    }

    fn n_values_expected() -> (n: i32) {
        2
    }

    fn lua_read_at_position(lua: &Lua, index: i32) -> (r: Option<Pair<A, B>>) {
        let at = lua.field_index(index, 0);
        let f0 = match A::lua_read_at_position(lua, at) {
            Some(v) => v,
            None => {
                return None;
            },
        };
        let at = lua.field_index(index, 1);
        let f1 = match B::lua_read_at_position(lua, at) {
            Some(v) => v,
            None => {
                return None;
            },
        };
        Some((f0, f1))
    }
}

/// A read of three values: each from its own place, the first at the index and
/// every other one place above the one before it.
impl<A: LuaRead, B: LuaRead, C: LuaRead> LuaRead for Triple<A, B, C> {
    open spec fn expected_name_spec() -> Seq<char> {
        "("@
            + A::expected_name_spec()
            + ", "@
            + B::expected_name_spec()
            + ", "@
            + C::expected_name_spec()
            + ")"@
    }

    open spec fn n_values_spec() -> int {
        3
    }

    open spec fn readable(tables: Seq<TableValue>, vals: Seq<Value>) -> bool {
        &&& A::readable(tables, rest(vals, 0))
        &&& B::readable(tables, rest(vals, 1))
        &&& C::readable(tables, rest(vals, 2))
    }

    open spec fn decodes(tables: Seq<TableValue>, vals: Seq<Value>, r: Triple<A, B, C>) -> bool {
        &&& A::decodes(tables, rest(vals, 0), r.0)
        &&& B::decodes(tables, rest(vals, 1), r.1)
        &&& C::decodes(tables, rest(vals, 2), r.2)
    }

    fn expected_name() -> (s: String) {
        let mut s = String::from_str("(");
        let part = A::expected_name();
        s.append(part.as_str());
        s.append(", ");
        let part = B::expected_name();
        s.append(part.as_str());
        s.append(", ");
        let part = C::expected_name();
        s.append(part.as_str());
        s.append(")");
        s
    }

    fn n_values_expected() -> (n: i32) {
        3
    }

    fn lua_read_at_position(lua: &Lua, index: i32) -> (r: Option<Triple<A, B, C>>) {
        let at = lua.field_index(index, 0);
        let f0 = match A::lua_read_at_position(lua, at) {
            Some(v) => v,
            None => {
                return None;
            },
        };
        let at = lua.field_index(index, 1);
        let f1 = match B::lua_read_at_position(lua, at) {
            Some(v) => v,
            None => {
                return None;
            },
        };
        let at = lua.field_index(index, 2);
        let f2 = match C::lua_read_at_position(lua, at) {
            Some(v) => v,
            None => {
                return None;
            },
        };
        Some((f0, f1, f2))
    }
}

/// A read of four values: each from its own place, the first at the index and
/// every other one place above the one before it.
impl<A: LuaRead, B: LuaRead, C: LuaRead, D: LuaRead> LuaRead for Quadruple<A, B, C, D> {
    open spec fn expected_name_spec() -> Seq<char> {
        "("@
            + A::expected_name_spec()
            + ", "@
            + B::expected_name_spec()
            + ", "@
            + C::expected_name_spec()
            + ", "@
            + D::expected_name_spec()
            + ")"@
    }

    open spec fn n_values_spec() -> int {
        4
    }

    open spec fn readable(tables: Seq<TableValue>, vals: Seq<Value>) -> bool {
        &&& A::readable(tables, rest(vals, 0))
        &&& B::readable(tables, rest(vals, 1))
        &&& C::readable(tables, rest(vals, 2))
        &&& D::readable(tables, rest(vals, 3))
    }

    open spec fn decodes(tables: Seq<TableValue>, vals: Seq<Value>, r: Quadruple<A, B, C, D>) -> bool {
        &&& A::decodes(tables, rest(vals, 0), r.0)
        &&& B::decodes(tables, rest(vals, 1), r.1)
        &&& C::decodes(tables, rest(vals, 2), r.2)
        &&& D::decodes(tables, rest(vals, 3), r.3)
    }

    fn expected_name() -> (s: String) {
        let mut s = String::from_str("(");
        let part = A::expected_name();
        s.append(part.as_str());
        s.append(", ");
        let part = B::expected_name();
        s.append(part.as_str());
        s.append(", ");
        let part = C::expected_name();
        s.append(part.as_str());
        s.append(", ");
        let part = D::expected_name();
        s.append(part.as_str());
        s.append(")");
        s
    }

    fn n_values_expected() -> (n: i32) {
        4
    }

    fn lua_read_at_position(lua: &Lua, index: i32) -> (r: Option<Quadruple<A, B, C, D>>) {
        let at = lua.field_index(index, 0);
        let f0 = match A::lua_read_at_position(lua, at) {
            Some(v) => v,
            None => {
                return None;
            },
        };
        let at = lua.field_index(index, 1);
        let f1 = match B::lua_read_at_position(lua, at) {
            Some(v) => v,
            None => {
                return None;
            },
        };
        let at = lua.field_index(index, 2);
        let f2 = match C::lua_read_at_position(lua, at) {
            Some(v) => v,
            None => {
                return None;
            },
        };
        let at = lua.field_index(index, 3);
        let f3 = match D::lua_read_at_position(lua, at) {
            Some(v) => v,
            None => {
                return None;
            },
        };
        Some((f0, f1, f2, f3))
    }
}

/// A read of one of two shapes: as `A` where the values can be read so,
/// else as `B`; the result tells which of the two it was.
impl<A: LuaRead, B: LuaRead> LuaRead for Result<A, B> {
    open spec fn expected_name_spec() -> Seq<char> {
        "Result<"@ + A::expected_name_spec() + ", "@ + B::expected_name_spec() + ">"@
    }

    open spec fn n_values_spec() -> int {
        if A::n_values_spec() >= B::n_values_spec() {
            A::n_values_spec()
        } else {
            B::n_values_spec()
        }
    }

    open spec fn readable(tables: Seq<TableValue>, vals: Seq<Value>) -> bool {
        A::readable(tables, vals) || B::readable(tables, vals)
    }

    open spec fn decodes(tables: Seq<TableValue>, vals: Seq<Value>, r: Result<A, B>) -> bool {
        match r {
            Ok(a) => A::readable(tables, vals) && A::decodes(tables, vals, a),
            Err(b) => !A::readable(tables, vals) && B::readable(tables, vals) && B::decodes(
                tables,
                vals,
                b,
            ),
        }
    }

    fn expected_name() -> (s: String) {
        let mut s = String::from_str("Result<");
        let first = A::expected_name();
        s.append(first.as_str());
        s.append(", ");
        let second = B::expected_name();
        s.append(second.as_str());
        s.append(">");
        s
    }

    fn n_values_expected() -> (n: i32) {
        let a = A::n_values_expected();
        let b = B::n_values_expected();
        if a >= b {
            a
        } else {
            b
        }
    }

    fn lua_read_at_position(lua: &Lua, index: i32) -> (r: Option<Result<A, B>>) {
        match A::lua_read_at_position(lua, index) {
            Some(a) => Some(Ok(a)),
            None => match B::lua_read_at_position(lua, index) {
                Some(b) => Some(Err(b)),
                None => None,
            },
        }
    }
}

} // verus!
