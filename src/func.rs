use vstd::prelude::*;

use crate::var::{pxs_Var, pxs_VarList};

verus! {

/// A native callback registered with the function registry: the callback
/// itself (`F`, a function pointer in practice), the opaque user data handed
/// back to it on every call, and the name it was registered under.
pub struct Function<F> {
    pub name: String,
    pub func: F,
    pub opaque: usize,
}

/// The process-wide function registry: handle `i` designates
/// `functions[i]`. Entries are only ever appended, so a handle keeps
/// designating the same function until the registry is cleared.
pub struct FunctionLookup<F> {
    pub functions: Vec<Function<F>>,
}

/// The entry a handle designates, if any.
pub open spec fn function_at<F>(lookup: FunctionLookup<F>, idx: int) -> Option<Function<F>> {
    if 0 <= idx < lookup.functions.len() {
        Some(lookup.functions[idx])
    } else {
        None
    }
}

/// `after` is `before` with one function appended under `handle`.
pub open spec fn function_added<F>(
    before: FunctionLookup<F>,
    after: FunctionLookup<F>,
    name: Seq<char>,
    func: F,
    opaque: usize,
    handle: i32,
) -> bool {
    &&& handle as int == before.functions.len()
    &&& after.functions.len() == before.functions.len() + 1
    &&& after.functions@.take(before.functions.len() as int) == before.functions@
    &&& after.functions[handle as int].name@ == name
    &&& after.functions[handle as int].func == func
    &&& after.functions[handle as int].opaque == opaque
}

impl<F: Copy> FunctionLookup<F> {
    /// An empty registry.
    pub fn new() -> (r: Self)
        ensures
            r.functions.len() == 0,
    {
        FunctionLookup { functions: Vec::new() }
    }

    /// The function registered under `idx`; `None` for a handle that was
    /// never handed out.
    pub fn get_function(&self, idx: i32) -> (r: Option<&Function<F>>)
        ensures
            match function_at(*self, idx as int) {
                Some(f) => r == Some(&f),
                None => r.is_none(),
            },
    {
        if 0 <= idx && (idx as usize) < self.functions.len() {
            Some(&self.functions[idx as usize])
        } else {
            None
        }
    }

    /// Registers a function and returns its handle, the next unused one.
    pub fn add_function(&mut self, name: &str, func: F, opaque: usize) -> (r: i32)
        requires
            old(self).functions.len() < i32::MAX,
        ensures
            function_added(*old(self), *final(self), name@, func, opaque, r),
    {
        let handle = self.functions.len() as i32;
        self.functions.push(Function { name: name.to_owned(), func, opaque });
        proof {
            assert(self.functions@.take(handle as int) =~= old(self).functions@);
        }
        handle
    }

    /// Removes every entry; used when the embedding shuts down.
    pub fn clear(&mut self)
        ensures
            final(self).functions.len() == 0,
    {
        self.functions.clear();
    }

    /// Resolves a call of the function registered under `fn_idx`: copies
    /// out the callback and its opaque data, and packs `args` into the list
    /// value handed to the callback. `None` when no function has that
    /// handle; the caller then answers with a null value.
    pub fn prepare_call(&self, fn_idx: i32, args: Vec<pxs_Var>) -> (r: Option<(F, usize, pxs_Var)>)
        ensures
            match function_at(*self, fn_idx as int) {
                Some(f) => {
                    &&& r is Some
                    &&& r->Some_0.0 == f.func
                    &&& r->Some_0.1 == f.opaque
                    &&& r->Some_0.2 is List
                    &&& r->Some_0.2->List_0.vars@ == args@
                },
                None => r.is_none(),
            },
    {
        match self.get_function(fn_idx) {
            Some(f) => Some((f.func, f.opaque, pxs_Var::List(pxs_VarList { vars: args }))),
            None => None,
        }
    }
}

/// Empties the function registry.
pub fn clear_function_lookup<F: Copy>(lookup: &mut FunctionLookup<F>)
    ensures
        final(lookup).functions.len() == 0,
{
    lookup.clear();
}

/// Registering functions one after another hands out distinct handles that
/// no earlier registration used; each handle then designates the function
/// registered under it, and a handle never handed out designates nothing.
pub proof fn lemma_function_handles_distinct<F>(
    states: Seq<FunctionLookup<F>>,
    names: Seq<Seq<char>>,
    funcs: Seq<F>,
    opaques: Seq<usize>,
    handles: Seq<i32>,
)
    requires
        states.len() == handles.len() + 1,
        names.len() == handles.len(),
        funcs.len() == handles.len(),
        opaques.len() == handles.len(),
        forall|i: int|
            0 <= i < handles.len() ==> #[trigger] function_added(
                states[i],
                states[i + 1],
                names[i],
                funcs[i],
                opaques[i],
                handles[i],
            ),
    ensures
        forall|i: int, j: int|
            0 <= i < j < handles.len() ==> #[trigger] handles[i] != #[trigger] handles[j],
        forall|i: int|
            0 <= i < handles.len() ==> function_at(states[0], #[trigger] handles[i] as int).is_none(),
        forall|i: int|
            0 <= i < handles.len() ==> {
                let f = function_at(states.last(), #[trigger] handles[i] as int);
                &&& f is Some
                &&& f->Some_0.name@ == names[i]
                &&& f->Some_0.func == funcs[i]
                &&& f->Some_0.opaque == opaques[i]
            },
        forall|h: int|
            !(0 <= h < states[0].functions.len() + handles.len()) ==> #[trigger] function_at(
                states.last(),
                h,
            ).is_none(),
    decreases handles.len(),
{
    let n = handles.len() as int;
    if n > 0 {
        lemma_function_handles_distinct(
            states.drop_last(),
            names.drop_last(),
            funcs.drop_last(),
            opaques.drop_last(),
            handles.drop_last(),
        );
        assert(function_added(
            states[n - 1],
            states[n],
            names[n - 1],
            funcs[n - 1],
            opaques[n - 1],
            handles[n - 1],
        ));
        lemma_handle_positions(states, names, funcs, opaques, handles);
        let last = states[n];
        let prev = states[n - 1];
        assert forall|i: int| 0 <= i < n implies {
            let f = function_at(last, #[trigger] handles[i] as int);
            &&& f is Some
            &&& f->Some_0.name@ == names[i]
            &&& f->Some_0.func == funcs[i]
            &&& f->Some_0.opaque == opaques[i]
        } by {
            if i < n - 1 {
                assert(handles.drop_last()[i] == handles[i]);
                assert(states.drop_last().last() == prev);
                assert(last.functions@.take(prev.functions.len() as int)[handles[i] as int]
                    == last.functions[handles[i] as int]);
            }
        }
    }
}

/// Along a run of registrations, the `i`-th handle is the size of the
/// registry before it, which is the starting size plus `i`.
proof fn lemma_handle_positions<F>(
    states: Seq<FunctionLookup<F>>,
    names: Seq<Seq<char>>,
    funcs: Seq<F>,
    opaques: Seq<usize>,
    handles: Seq<i32>,
)
    requires
        states.len() == handles.len() + 1,
        names.len() == handles.len(),
        funcs.len() == handles.len(),
        opaques.len() == handles.len(),
        forall|i: int|
            0 <= i < handles.len() ==> #[trigger] function_added(
                states[i],
                states[i + 1],
                names[i],
                funcs[i],
                opaques[i],
                handles[i],
            ),
    ensures
        forall|i: int|
            0 <= i < handles.len() ==> #[trigger] handles[i] as int == states[0].functions.len()
                + i,
        forall|i: int|
            0 <= i < states.len() ==> #[trigger] states[i].functions.len()
                == states[0].functions.len() + i,
    decreases handles.len(),
{
    let n = handles.len() as int;
    if n > 0 {
        let ps = states.drop_last();
        let ph = handles.drop_last();
        lemma_handle_positions(ps, names.drop_last(), funcs.drop_last(), opaques.drop_last(), ph);
        assert(ps.len() == n);
        assert(ps[0] == states[0]);
        assert(function_added(
            states[n - 1],
            states[n],
            names[n - 1],
            funcs[n - 1],
            opaques[n - 1],
            handles[n - 1],
        ));
        assert(ps[n - 1] == states[n - 1]);
        assert(ps[n - 1].functions.len() == ps[0].functions.len() + (n - 1));
        assert forall|i: int| 0 <= i < n implies #[trigger] handles[i] as int
            == states[0].functions.len() + i by {
            if i < n - 1 {
                assert(ph[i] == handles[i]);
                assert(ph[i] as int == ps[0].functions.len() + i);
            }
        }
        assert forall|i: int| 0 <= i < states.len() implies #[trigger] states[i].functions.len()
            == states[0].functions.len() + i by {
            if i < n {
                assert(ps[i] == states[i]);
                assert(ps[i].functions.len() == ps[0].functions.len() + i);
            }
        }
    }
}

} // verus!
