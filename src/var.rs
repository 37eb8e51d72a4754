use vstd::prelude::*;

verus! {

/// The kind of value a `pxs_Var` holds.
#[allow(non_camel_case_types)]
#[derive(Debug, Clone, Copy, PartialEq, Eq, Structural)]
pub enum pxs_VarType {
    pxs_Int64,
    pxs_UInt64,
    pxs_String,
    pxs_Bool,
    pxs_Float64,
    /// Lua (nil), Python (None)
    pxs_Null,
    /// A value owned by the script engine (a table, a class instance).
    pxs_Object,
    /// A handle into the object registry.
    pxs_HostObject,
    /// An owned, ordered sequence of values.
    pxs_List,
    /// A callable owned by the script engine.
    pxs_Function,
}

/// Returned when a typed accessor is called on a value of another kind.
#[derive(Debug, Clone, Copy, PartialEq, Eq, Structural)]
pub struct VarError {
    pub expected: pxs_VarType,
    pub found: pxs_VarType,
}

/// An owned list of values. The list owns each of its elements.
#[allow(non_camel_case_types)]
pub struct pxs_VarList {
    pub vars: Vec<pxs_Var>,
}

/// The universal value exchanged between the host and a script engine.
///
/// Owned payloads (`String`, `List`) are deep-copied by `clone`; the
/// payloads that refer to a resource owned elsewhere (`Object`, `Function`,
/// `HostObject`) are copied as references only. A `Float64` is carried as
/// its IEEE-754 bit pattern.
#[allow(non_camel_case_types)]
pub enum pxs_Var {
    Int64(i64),
    UInt64(u64),
    Str(String),
    Bool(bool),
    Float64(u64),
    Null,
    Object(usize),
    HostObject(i32),
    List(pxs_VarList),
    Function(usize),
}

/// The position that `index` designates in a list of `len` elements, where a
/// negative index counts back from the end (`-1` is the last element).
pub open spec fn normalize_index(len: int, index: int) -> Option<int> {
    let k = if index < 0 { len + index } else { index };
    if 0 <= k < len {
        Some(k)
    } else {
        None
    }
}

/// Two values are the same when they have the same kind and payload; lists
/// are compared element by element.
pub open spec fn deep_eq(a: pxs_Var, b: pxs_Var) -> bool
    decreases a, 0int,
{
    match a {
        pxs_Var::List(la) => match b {
            pxs_Var::List(lb) => la.vars.len() == lb.vars.len() && prefix_deep_eq(
                la,
                lb,
                la.vars.len() as int,
            ),
            _ => false,
        },
        _ => a == b,
    }
}

/// The first `n` elements of the two lists are pairwise `deep_eq`.
pub open spec fn prefix_deep_eq(la: pxs_VarList, lb: pxs_VarList, n: int) -> bool
    decreases la, n,
{
    if n <= 0 || n > la.vars.len() || n > lb.vars.len() {
        n <= 0
    } else {
        deep_eq(la.vars[n - 1], lb.vars[n - 1]) && prefix_deep_eq(la, lb, n - 1)
    }
}

/// `prefix_deep_eq` holds exactly when each element of the prefix matches.
pub proof fn lemma_prefix_deep_eq(la: pxs_VarList, lb: pxs_VarList, n: int)
    requires
        0 <= n <= la.vars.len(),
        n <= lb.vars.len(),
    ensures
        prefix_deep_eq(la, lb, n) <==> forall|i: int|
            0 <= i < n ==> #[trigger] deep_eq(la.vars[i], lb.vars[i]),
    decreases n,
{
    if n > 0 {
        lemma_prefix_deep_eq(la, lb, n - 1);
        assert(prefix_deep_eq(la, lb, n) == (deep_eq(la.vars[n - 1], lb.vars[n - 1]) && prefix_deep_eq(la, lb, n - 1)));
    }
}

/// Computes the position designated by a possibly negative index.
pub fn resolve_index(len: usize, index: i32) -> (r: Option<usize>)
    ensures
        match normalize_index(len as int, index as int) {
            Some(k) => r == Some(k as usize),
            None => r.is_none(),
        },
{
    if index < 0 {
        let back: usize = (-(index as i64)) as usize;
        if back <= len {
            Some(len - back)
        } else {
            None
        }
    } else {
        let k: usize = index as usize;
        if k < len {
            Some(k)
        } else {
            None
        }
    }
}

impl pxs_VarList {
    /// Creates an empty list.
    pub fn new() -> (r: Self)
        ensures
            r.vars@ == Seq::<pxs_Var>::empty(),
    {
        pxs_VarList { vars: Vec::new() }
    }

    /// Appends an item; the list takes ownership of it.
    pub fn add_item(&mut self, item: pxs_Var)
        ensures
            final(self).vars@ == old(self).vars@.push(item),
    {
        self.vars.push(item);
    }

    /// Borrows the item at `index`; negative indexes count from the end.
    pub fn get_item(&self, index: i32) -> (r: Option<&pxs_Var>)
        ensures
            match normalize_index(self.vars.len() as int, index as int) {
                Some(k) => r == Some(&self.vars@[k]),
                None => r.is_none(),
            },
    {
        match resolve_index(self.vars.len(), index) {
            Some(k) => Some(&self.vars[k]),
            None => None,
        }
    }

    /// Replaces the item at `index`, which must already be filled; negative
    /// indexes count from the end. Returns false, leaving the list as it
    /// was, when the index is out of range.
    pub fn set_item(&mut self, item: pxs_Var, index: i32) -> (r: bool)
        ensures
            match normalize_index(old(self).vars.len() as int, index as int) {
                Some(k) => r && final(self).vars@ == old(self).vars@.update(k, item),
                None => !r && final(self).vars@ == old(self).vars@,
            },
    {
        match resolve_index(self.vars.len(), index) {
            Some(k) => {
                self.vars.set(k, item);
                true
            },
            None => false,
        }
    }

    /// The number of items.
    pub fn len(&self) -> (r: usize)
        ensures
            r == self.vars.len(),
    {
        self.vars.len()
    }
}

impl Clone for pxs_VarList {
    /// Deep-copies every element.
    fn clone(&self) -> (res: Self)
        ensures
            res.vars.len() == self.vars.len(),
            forall|i: int| 0 <= i < self.vars.len() ==> #[trigger] deep_eq(self.vars[i], res.vars[i]),
        decreases self, 0nat,
    {
        let mut vars: Vec<pxs_Var> = Vec::new();
        let n = self.vars.len();
        let mut i: usize = 0;
        while i < n
            invariant
                n == self.vars.len(),
                i <= n,
                vars.len() == i,
                forall|j: int| 0 <= j < i ==> #[trigger] deep_eq(self.vars[j], vars[j]),
            decreases n - i,
        {
            let item = self.vars[i].clone();
            vars.push(item);
            i = i + 1;
        }
        pxs_VarList { vars }
    }
}

impl Clone for pxs_Var {
    /// Copies the value: owned payloads are duplicated, references to
    /// resources owned elsewhere are shared.
    fn clone(&self) -> (res: Self)
        ensures
            deep_eq(*self, res),
        decreases self, 1nat,
    {
        match self {
            pxs_Var::Int64(v) => pxs_Var::Int64(*v),
            pxs_Var::UInt64(v) => pxs_Var::UInt64(*v),
            pxs_Var::Str(s) => pxs_Var::Str(s.clone()),
            pxs_Var::Bool(b) => pxs_Var::Bool(*b),
            pxs_Var::Float64(bits) => pxs_Var::Float64(*bits),
            pxs_Var::Null => pxs_Var::Null,
            pxs_Var::Object(p) => pxs_Var::Object(*p),
            pxs_Var::HostObject(h) => pxs_Var::HostObject(*h),
            pxs_Var::List(l) => {
                let copy = l.clone();
                let res = pxs_Var::List(copy);
                proof {
                    lemma_prefix_deep_eq(*l, copy, l.vars.len() as int);
                }
                res
            },
            pxs_Var::Function(p) => pxs_Var::Function(*p),
        }
    }
}

/// The kind of a value.
pub open spec fn tag_of(v: pxs_Var) -> pxs_VarType {
    match v {
        pxs_Var::Int64(_) => pxs_VarType::pxs_Int64,
        pxs_Var::UInt64(_) => pxs_VarType::pxs_UInt64,
        pxs_Var::Str(_) => pxs_VarType::pxs_String,
        pxs_Var::Bool(_) => pxs_VarType::pxs_Bool,
        pxs_Var::Float64(_) => pxs_VarType::pxs_Float64,
        pxs_Var::Null => pxs_VarType::pxs_Null,
        pxs_Var::Object(_) => pxs_VarType::pxs_Object,
        pxs_Var::HostObject(_) => pxs_VarType::pxs_HostObject,
        pxs_Var::List(_) => pxs_VarType::pxs_List,
        pxs_Var::Function(_) => pxs_VarType::pxs_Function,
    }
}

/// The error a typed accessor reports for a value of another kind.
pub open spec fn mismatch(expected: pxs_VarType, v: pxs_Var) -> VarError {
    VarError { expected, found: tag_of(v) }
}

/// What `get_i64` reads from a value.
pub open spec fn read_i64(v: pxs_Var) -> Result<i64, VarError> {
    match v {
        pxs_Var::Int64(x) => Ok(x),
        _ => Err(mismatch(pxs_VarType::pxs_Int64, v)),
    }
}

/// What `get_u64` reads from a value.
pub open spec fn read_u64(v: pxs_Var) -> Result<u64, VarError> {
    match v {
        pxs_Var::UInt64(x) => Ok(x),
        _ => Err(mismatch(pxs_VarType::pxs_UInt64, v)),
    }
}

/// What `get_bool` reads from a value.
pub open spec fn read_bool(v: pxs_Var) -> Result<bool, VarError> {
    match v {
        pxs_Var::Bool(x) => Ok(x),
        _ => Err(mismatch(pxs_VarType::pxs_Bool, v)),
    }
}

/// What `get_f64_bits` reads from a value: the bit pattern of the float.
pub open spec fn read_f64_bits(v: pxs_Var) -> Result<u64, VarError> {
    match v {
        pxs_Var::Float64(x) => Ok(x),
        _ => Err(mismatch(pxs_VarType::pxs_Float64, v)),
    }
}

/// What `get_string` reads from a value.
pub open spec fn read_string(v: pxs_Var) -> Result<Seq<char>, VarError> {
    match v {
        pxs_Var::Str(s) => Ok(s@),
        _ => Err(mismatch(pxs_VarType::pxs_String, v)),
    }
}

/// What `get_function` reads from a value: the engine's callable reference.
pub open spec fn read_function(v: pxs_Var) -> Result<usize, VarError> {
    match v {
        pxs_Var::Function(x) => Ok(x),
        _ => Err(mismatch(pxs_VarType::pxs_Function, v)),
    }
}

/// The integer handle a value designates: a host-object handle, or an
/// integer truncated to 32 bits; any other kind designates nothing (-1).
pub open spec fn object_handle_of(v: pxs_Var) -> i32 {
    match v {
        pxs_Var::Int64(x) => x as i32,
        pxs_Var::UInt64(x) => x as i32,
        pxs_Var::HostObject(h) => h,
        _ => -1i32,
    }
}

impl pxs_Var {
    pub fn new_i64(val: i64) -> (r: Self)
        ensures
            r == pxs_Var::Int64(val),
    {
        pxs_Var::Int64(val)
    }

    pub fn new_u64(val: u64) -> (r: Self)
        ensures
            r == pxs_Var::UInt64(val),
    {
        pxs_Var::UInt64(val)
    }

    pub fn new_bool(val: bool) -> (r: Self)
        ensures
            r == pxs_Var::Bool(val),
    {
        pxs_Var::Bool(val)
    }

    /// Creates a float value from the IEEE-754 bit pattern of an `f64`.
    pub fn new_f64_bits(bits: u64) -> (r: Self)
        ensures
            r == pxs_Var::Float64(bits),
    {
        pxs_Var::Float64(bits)
    }

    /// Creates a string value; the value owns the string.
    pub fn new_string(val: String) -> (r: Self)
        ensures
            r == pxs_Var::Str(val),
    {
        pxs_Var::Str(val)
    }

    pub fn new_null() -> (r: Self)
        ensures
            r == pxs_Var::Null,
    {
        pxs_Var::Null
    }

    /// Creates a value that refers to the host object registered under `handle`.
    pub fn new_host_object(handle: i32) -> (r: Self)
        ensures
            r == pxs_Var::HostObject(handle),
    {
        pxs_Var::HostObject(handle)
    }

    /// Creates a value that refers to an object owned by a script engine.
    pub fn new_object(ptr: usize) -> (r: Self)
        ensures
            r == pxs_Var::Object(ptr),
    {
        pxs_Var::Object(ptr)
    }

    /// Creates an empty list value.
    pub fn new_list() -> (r: Self)
        ensures
            r is List,
            r->List_0.vars@ == Seq::<pxs_Var>::empty(),
    {
        pxs_Var::List(pxs_VarList::new())
    }

    /// Creates a list value that owns the given items.
    pub fn new_list_with(vars: Vec<pxs_Var>) -> (r: Self)
        ensures
            r is List,
            r->List_0.vars@ == vars@,
    {
        pxs_Var::List(pxs_VarList { vars })
    }

    /// Creates a value that refers to a callable owned by a script engine.
    pub fn new_function(ptr: usize) -> (r: Self)
        ensures
            r == pxs_Var::Function(ptr),
    {
        pxs_Var::Function(ptr)
    }

    /// The kind of this value.
    pub fn tag(&self) -> (r: pxs_VarType)
        ensures
            r == tag_of(*self),
    {
        match self {
            pxs_Var::Int64(_) => pxs_VarType::pxs_Int64,
            pxs_Var::UInt64(_) => pxs_VarType::pxs_UInt64,
            pxs_Var::Str(_) => pxs_VarType::pxs_String,
            pxs_Var::Bool(_) => pxs_VarType::pxs_Bool,
            pxs_Var::Float64(_) => pxs_VarType::pxs_Float64,
            pxs_Var::Null => pxs_VarType::pxs_Null,
            pxs_Var::Object(_) => pxs_VarType::pxs_Object,
            pxs_Var::HostObject(_) => pxs_VarType::pxs_HostObject,
            pxs_Var::List(_) => pxs_VarType::pxs_List,
            pxs_Var::Function(_) => pxs_VarType::pxs_Function,
        }
    }

    /// Whether this value is of kind `t`.
    pub fn is(&self, t: pxs_VarType) -> (r: bool)
        ensures
            r == (tag_of(*self) == t),
    {
        self.tag() == t
    }

    pub fn get_i64(&self) -> (r: Result<i64, VarError>)
        ensures
            r == read_i64(*self),
    {
        match self {
            pxs_Var::Int64(x) => Ok(*x),
            _ => Err(VarError { expected: pxs_VarType::pxs_Int64, found: self.tag() }),
        }
    }

    pub fn get_u64(&self) -> (r: Result<u64, VarError>)
        ensures
            r == read_u64(*self),
    {
        match self {
            pxs_Var::UInt64(x) => Ok(*x),
            _ => Err(VarError { expected: pxs_VarType::pxs_UInt64, found: self.tag() }),
        }
    }

    pub fn get_bool(&self) -> (r: Result<bool, VarError>)
        ensures
            r == read_bool(*self),
    {
        match self {
            pxs_Var::Bool(x) => Ok(*x),
            _ => Err(VarError { expected: pxs_VarType::pxs_Bool, found: self.tag() }),
        }
    }

    /// Reads the IEEE-754 bit pattern of a float value.
    pub fn get_f64_bits(&self) -> (r: Result<u64, VarError>)
        ensures
            r == read_f64_bits(*self),
    {
        match self {
            pxs_Var::Float64(x) => Ok(*x),
            _ => Err(VarError { expected: pxs_VarType::pxs_Float64, found: self.tag() }),
        }
    }

    /// Reads the engine's reference to a callable.
    pub fn get_function(&self) -> (r: Result<usize, VarError>)
        ensures
            r == read_function(*self),
    {
        match self {
            pxs_Var::Function(x) => Ok(*x),
            _ => Err(VarError { expected: pxs_VarType::pxs_Function, found: self.tag() }),
        }
    }

    /// Returns a copy of the string this value holds.
    pub fn get_string(&self) -> (r: Result<String, VarError>)
        ensures
            match r {
                Ok(s) => read_string(*self) == Ok::<Seq<char>, VarError>(s@),
                Err(e) => read_string(*self) == Err::<Seq<char>, VarError>(e),
            },
    {
        match self {
            pxs_Var::Str(s) => Ok(s.clone()),
            _ => Err(VarError { expected: pxs_VarType::pxs_String, found: self.tag() }),
        }
    }

    /// Borrows the list this value holds.
    pub fn get_list(&self) -> (r: Option<&pxs_VarList>)
        ensures
            match *self {
                pxs_Var::List(l) => r == Some(&l),
                _ => r.is_none(),
            },
    {
        match self {
            pxs_Var::List(l) => Some(l),
            _ => None,
        }
    }

    /// The registry handle this value designates (see `object_handle_of`).
    pub fn get_object_ptr(&self) -> (r: i32)
        ensures
            r == object_handle_of(*self),
    {
        match self {
            pxs_Var::Int64(x) => {
                #[verifier::truncate]
                let h: i32 = *x as i32;
                h
            },
            pxs_Var::UInt64(x) => {
                #[verifier::truncate]
                let h: i32 = *x as i32;
                h
            },
            pxs_Var::HostObject(h) => *h,
            _ => -1,
        }
    }

    pub fn is_i64(&self) -> (r: bool)
        ensures
            r == (*self is Int64),
    {
        self.is(pxs_VarType::pxs_Int64)
    }

    pub fn is_u64(&self) -> (r: bool)
        ensures
            r == (*self is UInt64),
    {
        self.is(pxs_VarType::pxs_UInt64)
    }

    pub fn is_f64(&self) -> (r: bool)
        ensures
            r == (*self is Float64),
    {
        self.is(pxs_VarType::pxs_Float64)
    }

    pub fn is_bool(&self) -> (r: bool)
        ensures
            r == (*self is Bool),
    {
        self.is(pxs_VarType::pxs_Bool)
    }

    pub fn is_string(&self) -> (r: bool)
        ensures
            r == (*self is Str),
    {
        self.is(pxs_VarType::pxs_String)
    }

    pub fn is_null(&self) -> (r: bool)
        ensures
            r == (*self is Null),
    {
        self.is(pxs_VarType::pxs_Null)
    }

    pub fn is_object(&self) -> (r: bool)
        ensures
            r == (*self is Object),
    {
        self.is(pxs_VarType::pxs_Object)
    }

    pub fn is_host_object(&self) -> (r: bool)
        ensures
            r == (*self is HostObject),
    {
        self.is(pxs_VarType::pxs_HostObject)
    }

    pub fn is_list(&self) -> (r: bool)
        ensures
            r == (*self is List),
    {
        self.is(pxs_VarType::pxs_List)
    }

    pub fn is_function(&self) -> (r: bool)
        ensures
            r == (*self is Function),
    {
        self.is(pxs_VarType::pxs_Function)
    }

    /// Appends `item` to a list value, which takes ownership of it, and
    /// returns the item's index. A value that is not a list is left as it
    /// was, and `None` is returned.
    pub fn list_add(&mut self, item: pxs_Var) -> (r: Option<usize>)
        ensures
            match *old(self) {
                pxs_Var::List(l) => {
                    &&& r == Some(l.vars.len())
                    &&& *final(self) is List
                    &&& final(self)->List_0.vars@ == l.vars@.push(item)
                },
                _ => r.is_none() && *final(self) == *old(self),
            },
    {
        match self {
            pxs_Var::List(l) => {
                let k = l.vars.len();
                l.add_item(item);
                Some(k)
            },
            _ => None,
        }
    }

    /// Borrows the item at `index` of a list value; negative indexes count
    /// from the end. `None` for a value that is not a list, and for an index
    /// out of range.
    pub fn list_get(&self, index: i32) -> (r: Option<&pxs_Var>)
        ensures
            match *self {
                pxs_Var::List(l) => match normalize_index(l.vars.len() as int, index as int) {
                    Some(k) => r == Some(&l.vars@[k]),
                    None => r.is_none(),
                },
                _ => r.is_none(),
            },
    {
        match self {
            pxs_Var::List(l) => l.get_item(index),
            _ => None,
        }
    }

    /// Replaces the item at `index` of a list value; negative indexes count
    /// from the end. Returns false, leaving the value as it was, for a
    /// value that is not a list and for an index out of range.
    pub fn list_set(&mut self, index: i32, item: pxs_Var) -> (r: bool)
        ensures
            match *old(self) {
                pxs_Var::List(l) => match normalize_index(l.vars.len() as int, index as int) {
                    Some(k) => {
                        &&& r
                        &&& *final(self) is List
                        &&& final(self)->List_0.vars@ == l.vars@.update(k, item)
                    },
                    None => {
                        &&& !r
                        &&& *final(self) is List
                        &&& final(self)->List_0.vars@ == l.vars@
                    },
                },
                _ => !r && *final(self) == *old(self),
            },
    {
        match self {
            pxs_Var::List(l) => l.set_item(item, index),
            _ => false,
        }
    }

    /// The number of items of a list value; `None` for any other value.
    pub fn list_len(&self) -> (r: Option<usize>)
        ensures
            match *self {
                pxs_Var::List(l) => r == Some(l.vars.len()),
                _ => r.is_none(),
            },
    {
        match self {
            pxs_Var::List(l) => Some(l.vars.len()),
            _ => None,
        }
    }
}

/// What the C accessor for signed integers reads from a value: an `Int64`
/// as it is, a `UInt64` reinterpreted as signed, a `Bool` as 0 or 1, and -1
/// for any kind that holds no number. `None` for a `Float64`, which the
/// caller converts.
pub open spec fn coerced_i64(v: pxs_Var) -> Option<i64> {
    match v {
        pxs_Var::Int64(x) => Some(x),
        pxs_Var::UInt64(x) => Some(x as i64),
        pxs_Var::Bool(b) => Some(if b { 1i64 } else { 0i64 }),
        pxs_Var::Float64(_) => None,
        _ => Some(-1i64),
    }
}

/// What the C accessor for unsigned integers reads from a value: a `UInt64`
/// as it is, an `Int64` reinterpreted as unsigned, a `Bool` as 0 or 1, and 0
/// for any kind that holds no number. `None` for a `Float64`, which the
/// caller converts.
pub open spec fn coerced_u64(v: pxs_Var) -> Option<u64> {
    match v {
        pxs_Var::Int64(x) => Some(x as u64),
        pxs_Var::UInt64(x) => Some(x),
        pxs_Var::Bool(b) => Some(if b { 1u64 } else { 0u64 }),
        pxs_Var::Float64(_) => None,
        _ => Some(0u64),
    }
}

impl pxs_Var {
    /// Reads any number as a signed integer (see `coerced_i64`).
    pub fn coerce_i64(&self) -> (r: Option<i64>)
        ensures
            r == coerced_i64(*self),
    {
        match self {
            pxs_Var::Int64(x) => Some(*x),
            pxs_Var::UInt64(x) => {
                #[verifier::truncate]
                let v: i64 = *x as i64;
                Some(v)
            },
            pxs_Var::Bool(b) => Some(if *b { 1 } else { 0 }),
            pxs_Var::Float64(_) => None,
            _ => Some(-1),
        }
    }

    /// Reads any number as an unsigned integer (see `coerced_u64`).
    pub fn coerce_u64(&self) -> (r: Option<u64>)
        ensures
            r == coerced_u64(*self),
    {
        match self {
            pxs_Var::Int64(x) => {
                #[verifier::truncate]
                let v: u64 = *x as u64;
                Some(v)
            },
            pxs_Var::UInt64(x) => Some(*x),
            pxs_Var::Bool(b) => Some(if *b { 1 } else { 0 }),
            pxs_Var::Float64(_) => None,
            _ => Some(0),
        }
    }
}

/// For each primitive kind, reading back a freshly built value gives the
/// value it was built from, and reading it as another kind reports a
/// mismatch that names both kinds.
pub proof fn lemma_primitive_round_trip(i: i64, u: u64, b: bool, bits: u64, s: String)
    ensures
        read_i64(pxs_Var::Int64(i)) == Ok::<i64, VarError>(i),
        read_u64(pxs_Var::UInt64(u)) == Ok::<u64, VarError>(u),
        read_bool(pxs_Var::Bool(b)) == Ok::<bool, VarError>(b),
        read_f64_bits(pxs_Var::Float64(bits)) == Ok::<u64, VarError>(bits),
        read_string(pxs_Var::Str(s)) == Ok::<Seq<char>, VarError>(s@),
        read_u64(pxs_Var::Int64(i)) == Err::<u64, VarError>(
            VarError { expected: pxs_VarType::pxs_UInt64, found: pxs_VarType::pxs_Int64 },
        ),
        read_i64(pxs_Var::Str(s)) == Err::<i64, VarError>(
            VarError { expected: pxs_VarType::pxs_Int64, found: pxs_VarType::pxs_String },
        ),
{
}

/// A copy of a value that refers to a resource owned elsewhere refers to the
/// same resource; a copy of a string holds the same characters; a copy of a
/// list has the same length, and its items are copies of the copied list's items.
pub proof fn lemma_clone_semantics(a: pxs_Var, b: pxs_Var)
    requires
        deep_eq(a, b),
    ensures
        tag_of(a) == tag_of(b),
        a is Object ==> b == a,
        a is Function ==> b == a,
        a is HostObject ==> b == a,
        a is Str ==> read_string(b) == read_string(a),
        a is List ==> {
            &&& b->List_0.vars.len() == a->List_0.vars.len()
            &&& forall|i: int|
                0 <= i < a->List_0.vars.len() ==> #[trigger] deep_eq(
                    a->List_0.vars[i],
                    b->List_0.vars[i],
                )
        },
{
    if a is List {
        lemma_prefix_deep_eq(a->List_0, b->List_0, a->List_0.vars.len() as int);
    }
}

} // verus!
