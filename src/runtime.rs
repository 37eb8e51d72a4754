use vstd::prelude::*;
use vstd::string::*;

use crate::module::Module;
use crate::var::{pxs_Var, pxs_VarList};

verus! {

/// The script engines a cross-language call can name.
#[derive(Debug, Clone, Copy, PartialEq, Eq, Structural)]
pub enum PixelScriptRuntime {
    Lua,
    Python,
    JavaScript,
    Easyjs,
}

/// The engine an integer selects: 0 Lua, 1 Python, 2 JavaScript, 3 easyjs.
pub open spec fn runtime_of_int(v: int) -> Option<PixelScriptRuntime> {
    if v == 0 {
        Some(PixelScriptRuntime::Lua)
    } else if v == 1 {
        Some(PixelScriptRuntime::Python)
    } else if v == 2 {
        Some(PixelScriptRuntime::JavaScript)
    } else if v == 3 {
        Some(PixelScriptRuntime::Easyjs)
    } else {
        None
    }
}

/// The engine a value selects: an `Int64` naming one of them.
pub open spec fn runtime_of_var(v: pxs_Var) -> Option<PixelScriptRuntime> {
    match v {
        pxs_Var::Int64(x) => runtime_of_int(x as int),
        _ => None,
    }
}

impl PixelScriptRuntime {
    /// The engine `val` selects; `None` for any other integer.
    pub fn from_i32(val: i32) -> (r: Option<Self>)
        ensures
            r == runtime_of_int(val as int),
    {
        match val {
            0 => Some(PixelScriptRuntime::Lua),
            1 => Some(PixelScriptRuntime::Python),
            2 => Some(PixelScriptRuntime::JavaScript),
            3 => Some(PixelScriptRuntime::Easyjs),
            _ => None,
        }
    }

    /// The engine a value selects; `None` unless it is an `Int64` naming one.
    pub fn from_var(v: &pxs_Var) -> (r: Option<Self>)
        ensures
            r == runtime_of_var(*v),
    {
        match v {
            pxs_Var::Int64(x) => {
                if 0 <= *x && *x <= 3 {
                    Self::from_i32(*x as i32)
                } else {
                    None
                }
            },
            _ => None,
        }
    }

    /// The number that selects this engine.
    pub fn to_i64(&self) -> (r: i64)
        ensures
            runtime_of_int(r as int) == Some(*self),
    {
        match self {
            PixelScriptRuntime::Lua => 0,
            PixelScriptRuntime::Python => 1,
            PixelScriptRuntime::JavaScript => 2,
            PixelScriptRuntime::Easyjs => 3,
        }
    }
}

/// Checks the arguments of a call of method `method` on an engine object:
/// the arguments must be a list, the runtime value must select an engine,
/// and the target must be an engine object. Returns the engine, or `None`,
/// on which the call answers with a null value.
pub fn check_object_call(runtime: &pxs_Var, var: &pxs_Var, args: &pxs_Var) -> (r: Option<
    PixelScriptRuntime,
>)
    ensures
        r == (if *args is List && *var is Object {
            runtime_of_var(*runtime)
        } else {
            None
        }),
{
    if !args.is_list() {
        return None;
    }
    let rt = PixelScriptRuntime::from_var(runtime);
    if !var.is_object() {
        return None;
    }
    rt
}

/// Checks the arguments of a call of a named function: the arguments must
/// be a list and the runtime value must select an engine.
pub fn check_call(runtime: &pxs_Var, args: &pxs_Var) -> (r: Option<PixelScriptRuntime>)
    ensures
        r == (if *args is List {
            runtime_of_var(*runtime)
        } else {
            None
        }),
{
    if !args.is_list() {
        return None;
    }
    PixelScriptRuntime::from_var(runtime)
}

/// Checks the arguments of a call of a function value: the callee must be
/// a function, the arguments a list, and the runtime value must select an
/// engine.
pub fn check_var_call(runtime: &pxs_Var, func: &pxs_Var, args: &pxs_Var) -> (r: Option<
    PixelScriptRuntime,
>)
    ensures
        r == (if *func is Function && *args is List {
            runtime_of_var(*runtime)
        } else {
            None
        }),
{
    if !func.is_function() || !args.is_list() {
        return None;
    }
    PixelScriptRuntime::from_var(runtime)
}

/// The character of a decimal digit.
pub open spec fn digit_char(d: int) -> char {
    if d == 0 {
        '0'
    } else if d == 1 {
        '1'
    } else if d == 2 {
        '2'
    } else if d == 3 {
        '3'
    } else if d == 4 {
        '4'
    } else if d == 5 {
        '5'
    } else if d == 6 {
        '6'
    } else if d == 7 {
        '7'
    } else if d == 8 {
        '8'
    } else {
        '9'
    }
}

/// The decimal digits of a natural number, most significant first.
pub open spec fn nat_decimal(n: nat) -> Seq<char>
    decreases n,
{
    if n < 10 {
        seq![digit_char(n as int)]
    } else {
        nat_decimal(n / 10).push(digit_char((n % 10) as int))
    }
}

/// The decimal text of an integer, with a leading `-` when negative.
pub open spec fn int_decimal(i: int) -> Seq<char> {
    if i < 0 {
        seq!['-'] + nat_decimal((-i) as nat)
    } else {
        nat_decimal(i as nat)
    }
}

/// Relies on `ToString` for `i64` (std's `Display` for integers): the
/// decimal digits, with a leading `-` for a negative number.
#[verifier::external_body]
fn i64_text(v: i64) -> (r: String)
    ensures
        r@ == int_decimal(v as int),
{
    v.to_string()
}

/// Relies on `ToString` for `u64` (std's `Display` for integers): the
/// decimal digits.
#[verifier::external_body]
fn u64_text(v: u64) -> (r: String)
    ensures
        r@ == int_decimal(v as int),
{
    v.to_string()
}

/// How a value is turned into text.
pub enum TextPlan {
    /// The text itself, for integers, booleans and strings.
    Text(String),
    /// A float, given by its bit pattern; the caller formats it.
    Float(u64),
    /// Any other value is handed to the engine's own conversion function.
    Call(PixelScriptRuntime, String),
}

/// The text of a boolean.
pub open spec fn bool_text(b: bool) -> Seq<char> {
    if b {
        seq!['t', 'r', 'u', 'e']
    } else {
        seq!['f', 'a', 'l', 's', 'e']
    }
}

/// The name of an engine's function that turns any value into text.
pub open spec fn text_function(rt: PixelScriptRuntime) -> Seq<char> {
    match rt {
        PixelScriptRuntime::Python => seq!['s', 't', 'r'],
        _ => seq!['t', 'o', 's', 't', 'r', 'i', 'n', 'g'],
    }
}

/// Decides how `var` is turned into text: integers, booleans and strings
/// directly; floats by their caller; anything else by the engine that
/// `runtime` selects, through its own conversion function. `None` when that
/// engine is needed and `runtime` selects none.
pub fn plan_to_string(runtime: &pxs_Var, var: &pxs_Var) -> (r: Option<TextPlan>)
    ensures
        match *var {
            pxs_Var::Int64(x) => r matches Some(TextPlan::Text(s)) && s@ == int_decimal(x as int),
            pxs_Var::UInt64(x) => r matches Some(TextPlan::Text(s)) && s@ == int_decimal(x as int),
            pxs_Var::Str(t) => r matches Some(TextPlan::Text(s)) && s@ == t@,
            pxs_Var::Bool(b) => r matches Some(TextPlan::Text(s)) && s@ == bool_text(b),
            pxs_Var::Float64(bits) => r == Some(TextPlan::Float(bits)),
            _ => match runtime_of_var(*runtime) {
                Some(rt) => r matches Some(TextPlan::Call(rt2, f)) && rt2 == rt && f@
                    == text_function(rt),
                None => r.is_none(),
            },
        },
{
    match var {
        pxs_Var::Int64(x) => Some(TextPlan::Text(i64_text(*x))),
        pxs_Var::UInt64(x) => Some(TextPlan::Text(u64_text(*x))),
        pxs_Var::Str(s) => Some(TextPlan::Text(s.clone())),
        pxs_Var::Bool(b) => {
            proof {
                reveal_strlit("true");
                reveal_strlit("false");
            }
            if *b {
                Some(TextPlan::Text(String::from_str("true")))
            } else {
                Some(TextPlan::Text(String::from_str("false")))
            }
        },
        pxs_Var::Float64(bits) => Some(TextPlan::Float(*bits)),
        _ => match PixelScriptRuntime::from_var(runtime) {
            Some(rt) => {
                proof {
                    reveal_strlit("str");
                    reveal_strlit("tostring");
                }
                let f = match rt {
                    PixelScriptRuntime::Python => String::from_str("str"),
                    _ => String::from_str("tostring"),
                };
                Some(TextPlan::Call(rt, f))
            },
            None => None,
        },
    }
}

/// Packs `var` into the one-item argument list handed to an engine's
/// conversion function; the list holds a copy of it.
pub fn text_call_args(var: &pxs_Var) -> (r: pxs_Var)
    ensures
        r is List,
        r->List_0.vars.len() == 1,
        crate::var::deep_eq(*var, r->List_0.vars[0]),
{
    let mut list = pxs_VarList::new();
    list.add_item(var.clone());
    pxs_Var::List(list)
}

/// The operations every script-engine adapter offers the host. Each entry
/// point reports engine errors as data (an error string, a null value or
/// false) and never lets them escape.
pub trait PixelScript {
    /// Starts the engine's global state.
    fn start();

    /// Tears the engine's global state down.
    fn stop();

    /// Materializes a module tree, which the adapter takes over.
    fn add_module(source: Module);

    /// Runs top-level code; returns an empty string on success, else a
    /// diagnostic.
    fn execute(code: &str, file_name: &str) -> String;

    /// Evaluates an expression.
    fn eval(code: &str) -> pxs_Var;

    /// Gives the calling thread a fresh, isolated interpreter.
    fn start_thread();

    /// Returns to the interpreter in use before the last `start_thread`.
    fn stop_thread();

    /// Drops cached bookkeeping, and runs the collector when asked.
    fn clear_state(call_gc: bool);
}

/// The three calling conventions of an adapter: a method of an engine
/// object, a named function, and a function value. The arguments come as a
/// list value.
pub trait ObjectMethods {
    fn object_call(var: &pxs_Var, method: &str, args: &mut pxs_VarList) -> Result<pxs_Var, String>;

    fn call_method(method: &str, args: &mut pxs_VarList) -> Result<pxs_Var, String>;

    fn var_call(method: &pxs_Var, args: &mut pxs_VarList) -> Result<pxs_Var, String>;
}

} // verus!
