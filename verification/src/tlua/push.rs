use crate::tlua::guard::PushGuard;
use crate::tlua::state::{Lua, LuaState, LUAI_MAXCSTACK};
use crate::tlua::value::{TableValue, Value};
use vstd::prelude::*;

verus! {

/// A type without values: the error of a push that cannot fail.
///
/// Nothing constructs a `Void`, so a function that is handed one was never
/// called.
#[derive(Debug, Copy, Clone, PartialEq, Eq, Hash)]
pub struct Void {
    never: (),
}

impl Void {
    /// What would hold of a value of this type: nothing does.
    #[verifier::type_invariant]
    pub open spec fn inhabited(self) -> bool {
        false
    }
}

/// What a push that succeeds adds to a context: the values that it puts on
/// the stack, the lowest first, and the tables that it makes, in the order
/// in which they join the store.
#[verifier::ext_equal]
pub struct Pushed {
    pub vals: Seq<Value>,
    pub tables: Seq<TableValue>,
}

/// A push that makes no table.
pub open spec fn plain(vals: Seq<Value>) -> Pushed {
    Pushed { vals, tables: Seq::empty() }
}

/// Whether `after` and `r` are what a push with the outcome `outcome`
/// makes of the context `before`.
///
/// A push is all or nothing. Where it succeeds, the tables that it made are
/// the last of the store, its values lie on top of the stack, and the
/// guard owns exactly their slots: the stack is higher by the size of the
/// guard, and every slot below is as it was. Where it fails, the context is
/// as it was before the call.
pub open spec fn push_gives<E>(
    before: LuaState,
    after: LuaState,
    outcome: Result<Pushed, E>,
    r: Result<PushGuard, E>,
) -> bool {
    match r {
        Ok(guard) => {
            &&& outcome matches Ok(p)
            &&& after =~= before.appended(p.tables).pushed(p.vals)
            &&& guard.spec_size() == p.vals.len()
            &&& guard.spec_top() == after.height()
        },
        Err(e) => outcome == Err::<Pushed, E>(e) && after =~= before,
    }
}

/// Host values that can be put on the stack of a context, by reference.
pub trait Push {
    /// What can go wrong when a value is pushed.
    type Err;

    /// What pushing this value comes to in a context whose store holds
    /// `base` tables: what the push adds, or the error.
    spec fn outcome(&self, base: nat) -> Result<Pushed, Self::Err>;

    /// An upper bound on the number of slots that the push uses above the
    /// height at which it starts, while it runs and when it is done.
    spec fn peak(&self) -> nat;

    /// Puts the value on top of the stack.
    fn push_to_lua(&self, lua: &mut Lua) -> (r: Result<PushGuard, Self::Err>)
        requires
            old(lua).inv(),
            old(lua)@.height() + self.peak() <= LUAI_MAXCSTACK,
        ensures
            final(lua).inv(),
            push_gives(old(lua)@, final(lua)@, self.outcome(old(lua)@.tables.len()), r),
            r is Ok ==> self.outcome(old(lua)@.tables.len())->Ok_0.vals.len() <= self.peak(),
    ;

    /// Puts the value on top of the stack, for a type whose push cannot
    /// fail.
    fn push_no_err(&self, lua: &mut Lua) -> (guard: PushGuard) where Self::Err: Into<Void>
        requires
            old(lua).inv(),
            old(lua)@.height() + self.peak() <= LUAI_MAXCSTACK,
        ensures
            final(lua).inv(),
            push_gives(
                old(lua)@,
                final(lua)@,
                self.outcome(old(lua)@.tables.len()),
                Ok::<PushGuard, Self::Err>(guard),
            ),
            self.outcome(old(lua)@.tables.len())->Ok_0.vals.len() <= self.peak(),
    {
        match self.push_to_lua(lua) {
            Ok(guard) => guard,
            Err(e) => {
                let never: Void = e.into();
                proof {
                    use_type_invariant(&never);
                }
                PushGuard::new(lua, 0)
            },
        }
    }
}

/// The values of `Push` that put exactly one value on the stack.
pub trait PushOne: Push {
    /// A push that succeeds puts one value on the stack.
    proof fn lemma_pushes_one(&self, base: nat)
        ensures
            self.outcome(base) matches Ok(p) ==> p.vals.len() == 1,
    ;
}

impl<T: Push + ?Sized> Push for &T {
    type Err = T::Err;

    open spec fn outcome(&self, base: nat) -> Result<Pushed, Self::Err> {
        (**self).outcome(base)
    }

    open spec fn peak(&self) -> nat {
        (**self).peak()
    }

    fn push_to_lua(&self, lua: &mut Lua) -> (r: Result<PushGuard, Self::Err>) {
        (**self).push_to_lua(lua)
    }
}

impl<T: PushOne + ?Sized> PushOne for &T {
    proof fn lemma_pushes_one(&self, base: nat) {
        (**self).lemma_pushes_one(base);
    }
}

/// Host values that can be put on the stack of a context, by value.
pub trait PushInto: Sized {
    /// What can go wrong when a value is pushed.
    type Err;

    /// What pushing this value comes to in a context whose store holds
    /// `base` tables: what the push adds, or the error.
    spec fn outcome_into(&self, base: nat) -> Result<Pushed, Self::Err>;

    /// An upper bound on the number of slots that the push uses above the
    /// height at which it starts.
    spec fn peak_into(&self) -> nat;

    /// Puts the value on top of the stack.
    fn push_into_lua(self, lua: &mut Lua) -> (r: Result<PushGuard, Self::Err>)
        requires
            old(lua).inv(),
            old(lua)@.height() + self.peak_into() <= LUAI_MAXCSTACK,
        ensures
            final(lua).inv(),
            push_gives(old(lua)@, final(lua)@, self.outcome_into(old(lua)@.tables.len()), r),
            r is Ok ==> self.outcome_into(old(lua)@.tables.len())->Ok_0.vals.len()
                <= self.peak_into(),
    ;

    /// Puts the value on top of the stack, for a type whose push cannot
    /// fail.
    fn push_into_no_err(self, lua: &mut Lua) -> (guard: PushGuard) where Self::Err: Into<Void>
        requires
            old(lua).inv(),
            old(lua)@.height() + self.peak_into() <= LUAI_MAXCSTACK,
        ensures
            final(lua).inv(),
            push_gives(
                old(lua)@,
                final(lua)@,
                self.outcome_into(old(lua)@.tables.len()),
                Ok::<PushGuard, Self::Err>(guard),
            ),
            self.outcome_into(old(lua)@.tables.len())->Ok_0.vals.len() <= self.peak_into(),
    {
        match self.push_into_lua(lua) {
            Ok(guard) => guard,
            Err(e) => {
                let never: Void = e.into();
                proof {
                    use_type_invariant(&never);
                }
                PushGuard::new(lua, 0)
            },
        }
    }
}

/// A value that can be pushed by reference can be pushed by value, to the
/// same effect.
impl<T: Push> PushInto for T {
    type Err = T::Err;

    open spec fn outcome_into(&self, base: nat) -> Result<Pushed, Self::Err> {
        self.outcome(base)
    }

    open spec fn peak_into(&self) -> nat {
        self.peak()
    }

    fn push_into_lua(self, lua: &mut Lua) -> (r: Result<PushGuard, Self::Err>) {
        self.push_to_lua(lua)
    }
}

/// The values of `PushInto` that put exactly one value on the stack.
pub trait PushOneInto: PushInto {
    /// A push that succeeds puts one value on the stack.
    proof fn lemma_pushes_one_into(&self, base: nat)
        ensures
            self.outcome_into(base) matches Ok(p) ==> p.vals.len() == 1,
    ;
}

impl<T: PushOne> PushOneInto for T {
    proof fn lemma_pushes_one_into(&self, base: nat) {
        self.lemma_pushes_one(base);
    }
}

} // verus!
