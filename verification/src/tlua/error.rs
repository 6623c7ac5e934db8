use crate::external::io_error_text;
use crate::tlua::guard::AbsoluteIndex;
use crate::tlua::read::LuaRead;
use crate::tlua::state::Lua;
use crate::tlua::value::LuaType;
use vstd::prelude::*;
use vstd::std_specs::convert::FromSpecImpl;
use vstd::string::StringExecFns;

verus! {

/// What can go wrong when the interpreter runs code for the host.
#[derive(Debug)]
pub enum LuaError {
    /// The source text is not a program.
    SyntaxError(String),
    /// The program raised an error while it ran; the text is what it
    /// raised, as a string.
    ExecutionError(String),
    /// The source text could not be read.
    ReadError(std::io::Error),
    /// The interpreter handed back values of other kinds than the host type
    /// asked for.
    WrongType { rust_expected: String, lua_actual: String },
}

/// The names of the kinds `types`, separated by a comma and a blank.
pub open spec fn joined_names(types: Seq<LuaType>) -> Seq<char>
    decreases types.len(),
{
    if types.len() == 0 {
        Seq::empty()
    } else if types.len() == 1 {
        types[0].name_spec()
    } else {
        joined_names(types.drop_last()) + ", "@ + types.last().name_spec()
    }
}

/// One descriptor for the kinds `types`: `()` for none, the name of the kind
/// for one, and for more the names in round brackets, separated by a comma
/// and a blank, as in `(number, string, number)`.
pub open spec fn typenames_spec(types: Seq<LuaType>) -> Seq<char> {
    if types.len() == 0 {
        "()"@
    } else if types.len() == 1 {
        types[0].name_spec()
    } else {
        "("@ + joined_names(types) + ")"@
    }
}

/// The name of the kind of the value that `index` stands for in `lua`.
pub fn typename(lua: &Lua, index: i32) -> (s: &'static str)
    requires
        lua.inv(),
    ensures
        s@ == lua@.type_at(index as int).name_spec(),
{
    lua.type_at(index).name()
}

/// One descriptor for the kinds of the values at the `count` places of the
/// stack of `lua` from `start` upward.
pub fn typenames(lua: &Lua, start: AbsoluteIndex, count: u32) -> (s: String)
    requires
        lua.inv(),
        count >= 1 ==> start.index() > 0 && start.index() + count <= i32::MAX,
    ensures
        s@ == typenames_spec(lua@.types_from(start.index() as int, count as nat)),
{
    let ghost types = lua@.types_from(start.index() as int, count as nat);
    if count == 0 {
        return String::from_str("()");
    }
    let first: i32 = start.into();
    if count == 1 {
        return String::from_str(typename(lua, first));
    }
    let mut res = String::from_str("(");
    let mut i: u32 = 0;
    while i < count
        invariant
            lua.inv(),
            0 <= i <= count,
            first > 0,
            first + count <= i32::MAX,
            types == lua@.types_from(first as int, count as nat),
            res@ == "("@ + joined_names(types.take(i as int)),
        decreases count - i,
    {
        let name = typename(lua, first + i as i32);
        proof {
            let next = types.take(i + 1);
            assert(next.drop_last() =~= types.take(i as int));
            assert(next.last() == types[i as int]);
            assert(types[i as int] == lua@.type_at(first + i));
        }
        if i > 0 {
            res.append(", ");
        }
        res.append(name);
        proof {
            let next = types.take(i + 1);
            if i == 0 {
                assert(joined_names(next) == next[0].name_spec());
                assert(joined_names(types.take(0)) =~= Seq::<char>::empty());
                assert(res@ =~= "("@ + joined_names(next));
            } else {
                assert(joined_names(next) == joined_names(next.drop_last()) + ", "@
                    + next.last().name_spec());
                assert(res@ =~= "("@ + joined_names(next));
            }
        }
        i += 1;
    }
    assert(types.take(count as int) =~= types);
    res.append(")");
    res
}

impl LuaError {
    /// The error of a read that asked for the host type `T` where the
    /// `n_values` topmost slots of the stack of `lua` hold values of other
    /// kinds: it names `T`, and the kinds of those slots from the lowest to
    /// the top.
    pub fn wrong_type<T: LuaRead>(lua: &Lua, n_values: i32) -> (e: LuaError)
        requires
            lua.inv(),
            0 <= n_values <= lua@.height(),
        ensures
            e matches LuaError::WrongType { rust_expected, lua_actual } && {
                &&& rust_expected@ == T::expected_name_spec()
                &&& lua_actual@ == typenames_spec(
                    lua@.types_from(lua@.height() - n_values + 1, n_values as nat),
                )
            },
    {
        let top = lua.gettop();
        let start = AbsoluteIndex::new_unchecked(top - n_values + 1);
        LuaError::WrongType {
            rust_expected: T::expected_name(),
            lua_actual: typenames(lua, start, n_values as u32),
        }
    }

    /// The text of the error, for use in contracts, where the error
    /// alone determines it.
    pub open spec fn message_spec(&self) -> Seq<char> {
        match self {
            LuaError::SyntaxError(s) => "Syntax error: "@ + s@,
            LuaError::ExecutionError(s) => "Execution error: "@ + s@,
            LuaError::ReadError(_) => "Read error: "@,
            LuaError::WrongType { rust_expected, lua_actual } => "Wrong type returned by Lua: "@
                + rust_expected@ + " expected, got "@ + lua_actual@,
        }
    }

    /// The text of the error, for a reader. For a failure to read the
    /// source, the text that the failure gives of itself follows the words
    /// `Read error: `.
    pub fn message(&self) -> (s: String)
        ensures
            self is ReadError ==> exists|tail: Seq<char>| s@ == self.message_spec() + tail,
            !(self is ReadError) ==> s@ == self.message_spec(),
    {
        match self {
            LuaError::SyntaxError(text) => {
                let mut s = String::from_str("Syntax error: ");
                s.append(text.as_str());
                s
            },
            LuaError::ExecutionError(text) => {
                let mut s = String::from_str("Execution error: ");
                s.append(text.as_str());
                s
            },
            LuaError::ReadError(e) => {
                let mut s = String::from_str("Read error: ");
                let text = io_error_text(e);
                s.append(text.as_str());
                assert(s@ == self.message_spec() + text@);
                s
            },
            LuaError::WrongType { rust_expected, lua_actual } => {
                let mut s = String::from_str("Wrong type returned by Lua: ");
                s.append(rust_expected.as_str());
                s.append(" expected, got ");
                s.append(lua_actual.as_str());
                s
            },
        }
    }

    /// A short description of the error, for use in contracts.
    pub open spec fn description_spec(&self) -> Seq<char> {
        match self {
            LuaError::SyntaxError(s) => s@,
            LuaError::ExecutionError(s) => s@,
            LuaError::ReadError(_) => "read error"@,
            LuaError::WrongType { .. } => "wrong type returned by Lua"@,
        }
    }

    /// A short description of the error: what the interpreter reported, or
    /// a fixed phrase for the kinds of error that the host found.
    pub fn description(&self) -> (s: &str)
        ensures
            s@ == self.description_spec(),
    {
        match self {
            LuaError::SyntaxError(s) => s.as_str(),
            LuaError::ExecutionError(s) => s.as_str(),
            LuaError::ReadError(_) => "read error",
            LuaError::WrongType { .. } => "wrong type returned by Lua",
        }
    }

    /// The failure that lies under the error: the input or output failure
    /// of a read, nothing for the other kinds.
    pub fn cause(&self) -> (r: Option<&std::io::Error>)
        ensures
            match self {
                LuaError::ReadError(e) => r == Some(e),
                _ => r.is_none(),
            },
    {
        match self {
            LuaError::ReadError(e) => Some(e),
            _ => None,
        }
    }
}

impl From<std::io::Error> for LuaError {
    fn from(e: std::io::Error) -> (r: LuaError) {
        LuaError::ReadError(e)
    }
}

impl FromSpecImpl<std::io::Error> for LuaError {
    open spec fn obeys_from_spec() -> bool {
        true
    }

    open spec fn from_spec(e: std::io::Error) -> LuaError {
        LuaError::ReadError(e)
    }
}

} // verus!
