use crate::tlua::error::{typenames, typenames_spec};
use crate::tlua::state::{Lua, LuaState};
use crate::tlua::value::Value;
use vstd::prelude::*;
use vstd::std_specs::convert::FromSpecImpl;

verus! {

/// The ownership of the topmost slots of the stack of a context.
///
/// A guard records the height that the stack had when the guard was made
/// and the number of slots, counted down from there, that it owns. Releasing
/// the guard with `into_inner` takes exactly those slots off the stack.
/// Forgetting it hands its slots over to whoever asked, who then answers for
/// them: most often a guard of a wider scope, made for the sum of the slots.
/// A guard of no slots is valid and releases nothing.
#[derive(Debug)]
pub struct PushGuard {
    top: i32,
    size: i32,
}

impl PushGuard {
    /// The number of slots that the guard owns.
    pub closed spec fn spec_size(&self) -> i32 {
        self.size
    }

    /// The height that the stack had when the guard was made.
    pub closed spec fn spec_top(&self) -> i32 {
        self.top
    }

    /// The height below the lowest slot that the guard owns.
    pub open spec fn base(&self) -> int {
        self.spec_top() - self.spec_size()
    }

    /// The guard owns slots that the stack of `lua` has: what must hold as
    /// long as the guard lives.
    pub open spec fn holds(&self, lua: LuaState) -> bool {
        &&& 0 <= self.spec_size()
        &&& 0 <= self.base()
        &&& self.base() + self.spec_size() <= lua.height()
    }

    /// A guard of the `size` topmost slots of the stack of `lua`.
    pub fn new(lua: &Lua, size: i32) -> (guard: PushGuard)
        requires
            lua.inv(),
            0 <= size <= lua@.height(),
        ensures
            guard.spec_size() == size,
            guard.spec_top() == lua@.height(),
            guard.holds(lua@),
    {
        PushGuard { top: lua.gettop(), size }
    }

    /// Gives up the guard, which must own exactly one slot, without
    /// releasing the slot, and returns the number of slots given up.
    pub fn assert_one_and_forget(self) -> (n: i32)
        requires
            self.spec_size() == 1,
        ensures
            n == 1,
    {
        self.forget_internal()
    }

    /// The number of slots that the guard owns.
    #[verifier::when_used_as_spec(spec_size)]
    pub fn size(&self) -> (n: i32)
        ensures
            n == self.spec_size(),
    {
        self.size
    }

    /// The height that the stack had when the guard was made.
    #[verifier::when_used_as_spec(spec_top)]
    pub fn top(&self) -> (n: i32)
        ensures
            n == self.spec_top(),
    {
        self.top
    }

    /// Gives up the guard without releasing its slots, and returns their
    /// number: the slots stay on the stack, and the caller answers for them.
    pub fn forget(self) -> (n: i32)
        ensures
            n == self.spec_size(),
    {
        self.forget_internal()
    }

    fn forget_internal(self) -> (n: i32)
        ensures
            n == self.spec_size(),
    {
        self.size
    }

    /// Releases the guard: takes the slots that it owns off the stack of
    /// `lua`.
    pub fn into_inner(self, lua: &mut Lua)
        requires
            old(lua).inv(),
            0 <= self.spec_size() <= old(lua)@.height(),
        ensures
            final(lua).inv(),
            final(lua)@ == old(lua)@.popped(self.spec_size() as int),
    {
        if self.size != 0 {
            lua.pop(self.size);
        } else {
            assert(lua@.stack =~= lua@.popped(0).stack);
        }
    }

    /// One descriptor for the kinds of the values on the slots that the
    /// guard owns, from the lowest to the highest.
    pub fn lua_types(&self, lua: &Lua) -> (s: String)
        requires
            lua.inv(),
            self.holds(lua@),
        ensures
            s@ == typenames_spec(lua@.types_from(self.base() + 1, self.spec_size() as nat)),
    {
        let start = AbsoluteIndex::new_unchecked(self.top - self.size + 1);
        typenames(lua, start, self.size as u32)
    }
}

/// A place on the stack, fixed when it was resolved.
///
/// An index that counts from the top names another slot after every push
/// and pop. Resolving it once, against the height that the stack has at
/// that moment, gives an index that names the same slot from then on.
#[derive(Debug, Clone, Copy)]
pub struct AbsoluteIndex(i32);

impl AbsoluteIndex {
    /// The index, for use in contracts.
    pub closed spec fn index(&self) -> i32 {
        self.0
    }

    /// Resolves `index` against the height that the stack of `lua` has now.
    ///
    /// The index is not zero, and where it counts from the top it does not
    /// reach below the lowest slot.
    pub fn new(index: i32, lua: &Lua) -> (r: AbsoluteIndex)
        requires
            lua.inv(),
            index != 0,
            LuaState::is_relative(index as int) ==> lua@.height() + index + 1 >= 1,
        ensures
            r.index() == lua@.absolute(index as int),
            r.index() != 0,
            !LuaState::is_relative(r.index() as int),
    {
        let top = lua.gettop();
        if Lua::is_relative_index(index) {
            AbsoluteIndex(top + index + 1)
        } else {
            AbsoluteIndex(index)
        }
    }

    /// Takes `index`, which is not zero, as resolved already.
    pub fn new_unchecked(index: i32) -> (r: AbsoluteIndex)
        requires
            index != 0,
        ensures
            r.index() == index,
    {
        AbsoluteIndex(index)
    }

    /// The index as an unsigned number. An index that names a slot of the
    /// stack is positive and comes out as it is.
    pub fn get(&self) -> (n: u32)
        ensures
            n == self.index() as u32,
            self.index() >= 0 ==> n == self.index(),
    {
        self.0 as u32
    }
}

impl From<AbsoluteIndex> for i32 {
    fn from(index: AbsoluteIndex) -> (r: i32) {
        index.0
    }
}

impl FromSpecImpl<AbsoluteIndex> for i32 {
    open spec fn obeys_from_spec() -> bool {
        true
    }

    open spec fn from_spec(index: AbsoluteIndex) -> i32 {
        index.index()
    }
}

/// A guard outlives every push: it still owns slots that the stack has,
/// and the values on them are the same.
pub proof fn lemma_guard_survives_push(guard: PushGuard, lua: LuaState, vals: Seq<Value>)
    requires
        guard.holds(lua),
    ensures
        guard.holds(lua.pushed(vals)),
        forall|i: int|
            guard.base() <= i < guard.base() + guard.spec_size() ==> lua.pushed(vals).stack[i]
                == lua.stack[i],
{
}

/// Releasing a guard of `m + n` slots takes off what releasing a guard of
/// `n` slots and then one of `m` slots takes off: guards that were merged
/// release each slot once.
pub proof fn lemma_merged_release(lua: LuaState, m: int, n: int)
    requires
        0 <= m,
        0 <= n,
        m + n <= lua.height(),
    ensures
        lua.popped(n).popped(m) == lua.popped(m + n),
{
    assert(lua.popped(n).popped(m).stack =~= lua.popped(m + n).stack);
}

/// An index that was resolved names the same slot after every push, while
/// the index that it was resolved from, counting from the top, by then
/// names the slot that lies as far below the new top.
pub proof fn lemma_resolved_index_is_stable(lua: LuaState, index: int, vals: Seq<Value>)
    requires
        LuaState::is_relative(index),
        lua.on_stack(index),
        lua.height() + vals.len() < -crate::tlua::state::LUA_REGISTRYINDEX,
    ensures
        lua.pushed(vals).slot(lua.absolute(index)) == lua.slot(index),
        lua.pushed(vals).absolute(index) == lua.absolute(index) + vals.len(),
{
    let a = lua.absolute(index);
    let after = lua.pushed(vals);
    assert(after.values_from(a)[0] == lua.values_from(index)[0]);
}

} // verus!
