use vstd::prelude::*;
use vstd::string::*;

use crate::func::{function_added, FunctionLookup};
use crate::var::{deep_eq, pxs_Var};

verus! {

/// A named binding to a function of the function registry: the name the
/// script sees, the registered full name, and the registry handle.
pub struct ModuleCallback {
    pub name: String,
    pub full_name: String,
    pub idx: i32,
}

/// A named value bound in a module.
pub struct ModuleVariable {
    pub name: String,
    pub var: pxs_Var,
}

/// A namespace tree built by the host and handed to script engines: its
/// variables, its callbacks, its object constructors and its child modules.
pub struct Module {
    pub name: String,
    pub callbacks: Vec<ModuleCallback>,
    pub variables: Vec<ModuleVariable>,
    pub modules: Vec<Module>,
    pub objects: Vec<ModuleCallback>,
}

/// The full name a callback is registered under: `_`, then the name of its
/// owner (a module or an object type), then its own name.
pub open spec fn mangled(prefix: Seq<char>, name: Seq<char>) -> Seq<char> {
    seq!['_'] + prefix + name
}

/// The dotted name of a module nested in `parent`.
pub open spec fn qualified(parent: Option<Seq<char>>, name: Seq<char>) -> Seq<char> {
    match parent {
        Some(p) => p + seq!['.'] + name,
        None => name,
    }
}

/// Builds the full name a callback is registered under (see `mangled`).
pub fn mangle_name(prefix: &str, name: &str) -> (r: String)
    ensures
        r@ == mangled(prefix@, name@),
{
    let mut s = String::from_str("_");
    proof {
        reveal_strlit("_");
    }
    s.append(prefix);
    s.append(name);
    s
}

/// The dotted name under which a module nested in `parent` is known.
pub fn qualified_name(parent: Option<&str>, name: &str) -> (r: String)
    ensures
        r@ == qualified(
            match parent {
                Some(p) => Some(p@),
                None => None,
            },
            name@,
        ),
{
    match parent {
        Some(p) => {
            let mut s = String::from_str(p);
            proof {
                reveal_strlit(".");
            }
            s.append(".");
            s.append(name);
            s
        },
        None => String::from_str(name),
    }
}

/// Whether a path ends in `.lua`.
pub open spec fn has_lua_suffix(s: Seq<char>) -> bool {
    s.len() >= 4 && s.subrange(s.len() - 4, s.len() as int) == seq!['.', 'l', 'u', 'a']
}

/// A name with each `.` turned into `/`.
pub open spec fn dots_as_slashes(s: Seq<char>) -> Seq<char> {
    s.map_values(|c: char| if c == '.' { '/' } else { c })
}

/// The file a Lua `require` of a dotted module name reads: dots become
/// slashes, and `.lua` is appended unless the result ends in it already.
pub open spec fn lua_path(name: Seq<char>) -> Seq<char> {
    let p = dots_as_slashes(name);
    if has_lua_suffix(p) {
        p
    } else {
        p + seq!['.', 'l', 'u', 'a']
    }
}

/// Relies on `str::replace` with a `char` pattern: every `.` is replaced by
/// `/`, and every other character stays.
#[verifier::external_body]
fn replace_dots(s: &str) -> (r: String)
    ensures
        r@ == dots_as_slashes(s@),
{
    s.replace('.', "/")
}

/// Relies on `str::ends_with` with a string pattern.
#[verifier::external_body]
fn ends_with_lua(s: &str) -> (r: bool)
    ensures
        r == has_lua_suffix(s@),
{
    s.ends_with(".lua")
}

/// The file the Lua module loader reads for `require(name)` (see
/// `lua_path`).
pub fn lua_module_path(name: &str) -> (r: String)
    ensures
        r@ == lua_path(name@),
{
    let mut p = replace_dots(name);
    if !ends_with_lua(p.as_str()) {
        proof {
            reveal_strlit(".lua");
        }
        p.append(".lua");
    }
    p
}

/// A module to register with an engine under its dotted name, its children
/// split off into entries of their own.
pub struct PreloadEntry {
    pub name: String,
    pub module: Module,
}

/// The modules of a tree in registration order, each with the dotted name
/// it is registered under: each child's modules (children in order, each
/// depth-first) before the module itself, named `q`.
pub open spec fn preload_plan(m: Module, q: Seq<char>) -> Seq<(Seq<char>, Module)>
    decreases m, 1int, 0int,
{
    children_plan(m, q, m.modules.len() as int).push((q, m))
}

/// The plan of the first `n` children of `m`, registered under `q`.
pub open spec fn children_plan(m: Module, q: Seq<char>, n: int) -> Seq<(Seq<char>, Module)>
    decreases m, 0int, n,
{
    if n <= 0 || n > m.modules.len() {
        Seq::empty()
    } else {
        children_plan(m, q, n - 1) + preload_plan(
            m.modules[n - 1],
            qualified(Some(q), m.modules[n - 1].name@),
        )
    }
}

/// An entry registers the planned module under the planned name: it holds
/// that module's own name, callbacks, variables and object constructors,
/// and no children.
pub open spec fn entry_matches(e: PreloadEntry, planned: (Seq<char>, Module)) -> bool {
    &&& e.name@ == planned.0
    &&& e.module.name == planned.1.name
    &&& e.module.callbacks == planned.1.callbacks
    &&& e.module.variables == planned.1.variables
    &&& e.module.objects == planned.1.objects
    &&& e.module.modules.len() == 0
}

/// Each entry matches the plan at its position.
pub open spec fn entries_match(s: Seq<PreloadEntry>, plan: Seq<(Seq<char>, Module)>) -> bool {
    &&& s.len() == plan.len()
    &&& forall|i: int| 0 <= i < s.len() ==> #[trigger] entry_matches(s[i], plan[i])
}

/// The optional parent name as a sequence.
pub open spec fn opt_view(p: Option<&str>) -> Option<Seq<char>> {
    match p {
        Some(s) => Some(s@),
        None => None,
    }
}

impl ModuleCallback {
    pub fn new(name: &str, full_name: &str, idx: i32) -> (r: Self)
        ensures
            r.name@ == name@,
            r.full_name@ == full_name@,
            r.idx == idx,
    {
        ModuleCallback { name: name.to_owned(), full_name: full_name.to_owned(), idx }
    }
}

/// `after` is `before` with one binding appended.
pub open spec fn bindings_pushed(before: Seq<ModuleCallback>, after: Seq<ModuleCallback>) -> bool {
    &&& after.len() == before.len() + 1
    &&& after.take(before.len() as int) == before
}

impl Module {
    /// Creates an empty module.
    pub fn new(name: String) -> (r: Self)
        ensures
            r.name == name,
            r.callbacks@.len() == 0,
            r.variables@.len() == 0,
            r.modules@.len() == 0,
            r.objects@.len() == 0,
    {
        Module {
            name,
            callbacks: Vec::new(),
            variables: Vec::new(),
            modules: Vec::new(),
            objects: Vec::new(),
        }
    }

    /// Adds a callback binding.
    pub fn add_callback(&mut self, name: &str, full_name: &str, idx: i32)
        ensures
            bindings_pushed(old(self).callbacks@, final(self).callbacks@),
            final(self).callbacks@.last().name@ == name@,
            final(self).callbacks@.last().full_name@ == full_name@,
            final(self).callbacks@.last().idx == idx,
            final(self).name == old(self).name,
            final(self).variables == old(self).variables,
            final(self).modules == old(self).modules,
            final(self).objects == old(self).objects,
    {
        self.callbacks.push(ModuleCallback::new(name, full_name, idx));
        proof {
            assert(self.callbacks@.take(old(self).callbacks@.len() as int)
                =~= old(self).callbacks@);
        }
    }

    /// Adds a variable; the module keeps its own copy of `var`.
    pub fn add_variable(&mut self, name: &str, var: &pxs_Var)
        ensures
            final(self).variables@.len() == old(self).variables@.len() + 1,
            final(self).variables@.take(old(self).variables@.len() as int)
                == old(self).variables@,
            final(self).variables@.last().name@ == name@,
            deep_eq(*var, final(self).variables@.last().var),
            final(self).name == old(self).name,
            final(self).callbacks == old(self).callbacks,
            final(self).modules == old(self).modules,
            final(self).objects == old(self).objects,
    {
        self.variables.push(ModuleVariable { name: name.to_owned(), var: var.clone() });
        proof {
            assert(self.variables@.take(old(self).variables@.len() as int)
                =~= old(self).variables@);
        }
    }

    /// Nests `child` in this module, which takes ownership of it.
    pub fn add_module(&mut self, child: Module)
        ensures
            final(self).modules@ == old(self).modules@.push(child),
            final(self).name == old(self).name,
            final(self).callbacks == old(self).callbacks,
            final(self).variables == old(self).variables,
            final(self).objects == old(self).objects,
    {
        self.modules.push(child);
    }

    /// Adds an object-constructor binding.
    pub fn add_object(&mut self, name: &str, full_name: &str, idx: i32)
        ensures
            bindings_pushed(old(self).objects@, final(self).objects@),
            final(self).objects@.last().name@ == name@,
            final(self).objects@.last().full_name@ == full_name@,
            final(self).objects@.last().idx == idx,
            final(self).name == old(self).name,
            final(self).callbacks == old(self).callbacks,
            final(self).variables == old(self).variables,
            final(self).modules == old(self).modules,
    {
        self.objects.push(ModuleCallback::new(name, full_name, idx));
        proof {
            assert(self.objects@.take(old(self).objects@.len() as int) =~= old(self).objects@);
        }
    }

    /// Flattens the tree for registration: one entry per module, named by
    /// its dotted path below `parent`, each child before its parent. Each
    /// entry holds its module's own callbacks, variables and object
    /// constructors, and no children (see `preload_plan`).
    #[verifier::loop_isolation(false)]
    pub fn into_preload(self, parent: Option<&str>) -> (r: Vec<PreloadEntry>)
        ensures
            entries_match(r@, preload_plan(self, qualified(opt_view(parent), self.name@))),
        decreases self,
    {
        let ghost whole = self;
        let q = qualified_name(parent, self.name.as_str());
        let Module { name, callbacks, variables, modules, objects } = self;
        let mut rest = modules;
        let mut out: Vec<PreloadEntry> = Vec::new();
        let mut i: usize = 0;
        while rest.len() > 0
            invariant
                i + rest.len() == whole.modules.len(),
                rest@ == whole.modules@.skip(i as int),
                entries_match(out@, children_plan(whole, q@, i as int)),
            decreases rest.len(),
        {
            let child = rest.remove(0);
            proof {
                assert(child == whole.modules@[i as int]);
                assert(decreases_to!(whole => whole.modules));
                assert(decreases_to!(whole.modules => whole.modules[i as int]));
                assert(decreases_to!(whole => child));
            }
            let mut sub = child.into_preload(Some(q.as_str()));
            let ghost before = out@;
            let ghost sub_entries = sub@;
            out.append(&mut sub);
            proof {
                assert(rest@ =~= whole.modules@.skip(i + 1));
                let prev_plan = children_plan(whole, q@, i as int);
                let sub_plan = preload_plan(
                    whole.modules[i as int],
                    qualified(Some(q@), whole.modules[i as int].name@),
                );
                assert(children_plan(whole, q@, i + 1) == prev_plan + sub_plan);
                assert forall|j: int| 0 <= j < out.len() implies #[trigger] entry_matches(
                    out[j],
                    (prev_plan + sub_plan)[j],
                ) by {
                    if j < before.len() {
                        assert(out[j] == before[j]);
                        assert((prev_plan + sub_plan)[j] == prev_plan[j]);
                    } else {
                        assert(out[j] == sub_entries[j - before.len()]);
                        assert((prev_plan + sub_plan)[j] == sub_plan[j - before.len()]);
                    }
                }
            }
            i = i + 1;
        }
        let own = Module { name, callbacks, variables, modules: Vec::new(), objects };
        let ghost before = out@;
        out.push(PreloadEntry { name: q, module: own });
        proof {
            let prev_plan = children_plan(whole, q@, whole.modules.len() as int);
            assert(preload_plan(whole, q@) == prev_plan.push((q@, whole)));
            assert forall|j: int| 0 <= j < out.len() implies #[trigger] entry_matches(
                out[j],
                prev_plan.push((q@, whole))[j],
            ) by {
                if j < before.len() {
                    assert(out[j] == before[j]);
                }
            }
        }
        out
    }

    /// Registers `func` as callback `name` of this module: the function
    /// registry records it under `_<module name><name>`, and the module
    /// keeps the binding. Returns the handle.
    pub fn register_callback<F: Copy>(
        &mut self,
        lookup: &mut FunctionLookup<F>,
        name: &str,
        func: F,
        opaque: usize,
    ) -> (r: i32)
        requires
            old(lookup).functions.len() < i32::MAX,
        ensures
            function_added(
                *old(lookup),
                *final(lookup),
                mangled(old(self).name@, name@),
                func,
                opaque,
                r,
            ),
            bindings_pushed(old(self).callbacks@, final(self).callbacks@),
            final(self).callbacks@.last().name@ == name@,
            final(self).callbacks@.last().full_name@ == mangled(old(self).name@, name@),
            final(self).callbacks@.last().idx == r,
            final(self).name == old(self).name,
            final(self).variables == old(self).variables,
            final(self).modules == old(self).modules,
            final(self).objects == old(self).objects,
    {
        let full_name = mangle_name(self.name.as_str(), name);
        let idx = lookup.add_function(full_name.as_str(), func, opaque);
        self.add_callback(name, full_name.as_str(), idx);
        idx
    }

    /// Registers `constructor` as the constructor of object type `name` in
    /// this module, under the same naming rule as callbacks. Returns the
    /// handle.
    pub fn register_object<F: Copy>(
        &mut self,
        lookup: &mut FunctionLookup<F>,
        name: &str,
        constructor: F,
        opaque: usize,
    ) -> (r: i32)
        requires
            old(lookup).functions.len() < i32::MAX,
        ensures
            function_added(
                *old(lookup),
                *final(lookup),
                mangled(old(self).name@, name@),
                constructor,
                opaque,
                r,
            ),
            bindings_pushed(old(self).objects@, final(self).objects@),
            final(self).objects@.last().name@ == name@,
            final(self).objects@.last().full_name@ == mangled(old(self).name@, name@),
            final(self).objects@.last().idx == r,
            final(self).name == old(self).name,
            final(self).callbacks == old(self).callbacks,
            final(self).variables == old(self).variables,
            final(self).modules == old(self).modules,
    {
        let full_name = mangle_name(self.name.as_str(), name);
        let idx = lookup.add_function(full_name.as_str(), constructor, opaque);
        self.add_object(name, full_name.as_str(), idx);
        idx
    }
}

} // verus!
