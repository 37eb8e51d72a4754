use vstd::prelude::*;

use crate::func::FunctionLookup;
use crate::module::{mangle_name, ModuleCallback};
use crate::var::{object_handle_of, pxs_Var};

verus! {

/// A host value wrapped so that scripts can call methods on it.
///
/// `ptr` is the host's pointer, released through `free_method` (`D`, a
/// destructor pointer in practice). `lang_ptr` is the script engine's
/// representation of the object, 0 while the object is unbound; it is set at
/// most once. `free_lang_ptr` says whether this wrapper owns that
/// representation and must free it.
pub struct PixelObject<D> {
    pub class_name: String,
    pub ptr: usize,
    pub lang_ptr: usize,
    pub free_lang_ptr: bool,
    pub free_method: D,
    pub callbacks: Vec<ModuleCallback>,
}

/// What must be freed when a `PixelObject` goes away: the host pointer,
/// always, through its destructor; the engine's representation only when
/// the object is bound and owns it.
pub struct ObjectRelease<D> {
    pub host_ptr: usize,
    pub free_method: D,
    pub lang_ptr: Option<usize>,
}

/// The release an object calls for.
pub open spec fn release_of<D>(o: PixelObject<D>) -> ObjectRelease<D> {
    ObjectRelease {
        host_ptr: o.ptr,
        free_method: o.free_method,
        lang_ptr: if o.free_lang_ptr && o.lang_ptr != 0 {
            Some(o.lang_ptr)
        } else {
            None
        },
    }
}

/// `after` is `before` with only its engine representation changed to `p`.
pub open spec fn only_lang_ptr_changed<D>(before: PixelObject<D>, after: PixelObject<D>, p: usize) -> bool {
    &&& after.lang_ptr == p
    &&& after.class_name == before.class_name
    &&& after.ptr == before.ptr
    &&& after.free_lang_ptr == before.free_lang_ptr
    &&& after.free_method == before.free_method
    &&& after.callbacks == before.callbacks
}

/// `after` is `before` bound to the engine representation `p`, which the
/// engine's collector owns: nothing else changes.
pub open spec fn bound_engine_owned<D>(before: PixelObject<D>, after: PixelObject<D>, p: usize) -> bool {
    &&& after.lang_ptr == p
    &&& !after.free_lang_ptr
    &&& after.class_name == before.class_name
    &&& after.ptr == before.ptr
    &&& after.free_method == before.free_method
    &&& after.callbacks == before.callbacks
}

impl<D: Copy> PixelObject<D> {
    /// Wraps a host pointer. The new object is unbound and owns the engine
    /// representation it will be given.
    pub fn new(ptr: usize, free_method: D, class_name: &str) -> (r: Self)
        ensures
            r.ptr == ptr,
            r.free_method == free_method,
            r.class_name@ == class_name@,
            r.lang_ptr == 0,
            r.free_lang_ptr,
            r.callbacks@.len() == 0,
    {
        PixelObject {
            class_name: class_name.to_owned(),
            ptr,
            lang_ptr: 0,
            free_lang_ptr: true,
            free_method,
            callbacks: Vec::new(),
        }
    }

    /// Adds a method binding: the name scripts call it by, its registered
    /// full name, and its handle in the function registry.
    pub fn add_callback(&mut self, name: &str, full_name: &str, idx: i32)
        ensures
            final(self).callbacks@.len() == old(self).callbacks@.len() + 1,
            final(self).callbacks@.take(old(self).callbacks@.len() as int) == old(self).callbacks@,
            final(self).callbacks@.last().name@ == name@,
            final(self).callbacks@.last().full_name@ == full_name@,
            final(self).callbacks@.last().idx == idx,
            final(self).class_name == old(self).class_name,
            final(self).ptr == old(self).ptr,
            final(self).lang_ptr == old(self).lang_ptr,
            final(self).free_lang_ptr == old(self).free_lang_ptr,
            final(self).free_method == old(self).free_method,
    {
        self.callbacks.push(ModuleCallback::new(name, full_name, idx));
        proof {
            assert(self.callbacks@.take(old(self).callbacks@.len() as int)
                =~= old(self).callbacks@);
        }
    }

    /// Registers `callback` as method `name` of this object: the function
    /// registry records it under `_<class_name><name>`, and the object keeps
    /// the binding. Returns the handle.
    pub fn register_method<F: Copy>(
        &mut self,
        lookup: &mut FunctionLookup<F>,
        name: &str,
        callback: F,
        opaque: usize,
    ) -> (r: i32)
        requires
            old(lookup).functions.len() < i32::MAX,
        ensures
            crate::func::function_added(
                *old(lookup),
                *final(lookup),
                crate::module::mangled(old(self).class_name@, name@),
                callback,
                opaque,
                r,
            ),
            final(self).callbacks@.len() == old(self).callbacks@.len() + 1,
            final(self).callbacks@.take(old(self).callbacks@.len() as int) == old(self).callbacks@,
            final(self).callbacks@.last().name@ == name@,
            final(self).callbacks@.last().full_name@ == crate::module::mangled(old(self).class_name@, name@),
            final(self).callbacks@.last().idx == r,
            final(self).class_name == old(self).class_name,
            final(self).ptr == old(self).ptr,
            final(self).lang_ptr == old(self).lang_ptr,
            final(self).free_lang_ptr == old(self).free_lang_ptr,
            final(self).free_method == old(self).free_method,
    {
        let full_name = mangle_name(self.class_name.as_str(), name);
        let idx = lookup.add_function(full_name.as_str(), callback, opaque);
        self.add_callback(name, full_name.as_str(), idx);
        idx
    }

    /// Binds the object to its engine representation. The representation
    /// can be set only once: on a bound object this changes nothing and
    /// returns false.
    pub fn update_lang_ptr(&mut self, n_ptr: usize) -> (r: bool)
        ensures
            r == (old(self).lang_ptr == 0),
            r ==> only_lang_ptr_changed(*old(self), *final(self), n_ptr),
            !r ==> *final(self) == *old(self),
    {
        if self.lang_ptr != 0 {
            false
        } else {
            self.lang_ptr = n_ptr;
            true
        }
    }

    /// Says whether this wrapper owns the engine representation.
    pub fn update_free_lang_ptr(&mut self, val: bool)
        ensures
            final(self).free_lang_ptr == val,
            final(self).lang_ptr == old(self).lang_ptr,
            final(self).class_name == old(self).class_name,
            final(self).ptr == old(self).ptr,
            final(self).free_method == old(self).free_method,
            final(self).callbacks == old(self).callbacks,
    {
        self.free_lang_ptr = val;
    }

    /// Whether the object has been given its engine representation.
    pub fn is_bound(&self) -> (r: bool)
        ensures
            r == (self.lang_ptr != 0),
    {
        self.lang_ptr != 0
    }

    /// Gives the object up and says what must be freed: the host pointer
    /// through the destructor, always; the engine representation only when
    /// the object is bound and owns it.
    pub fn release(self) -> (r: ObjectRelease<D>)
        ensures
            r == release_of(self),
    {
        let lang_ptr = if self.free_lang_ptr && self.lang_ptr != 0 {
            Some(self.lang_ptr)
        } else {
            None
        };
        ObjectRelease { host_ptr: self.ptr, free_method: self.free_method, lang_ptr }
    }
}

/// The process-wide registry of host objects: handle `i` designates
/// `objects[i]`. Entries are only ever appended.
pub struct ObjectLookup<D> {
    pub objects: Vec<PixelObject<D>>,
}

/// The object a handle designates, if any.
pub open spec fn object_at<D>(lookup: ObjectLookup<D>, idx: int) -> Option<PixelObject<D>> {
    if 0 <= idx < lookup.objects.len() {
        Some(lookup.objects[idx])
    } else {
        None
    }
}

/// `after` is `before` with `obj` appended under `handle`.
pub open spec fn object_added<D>(
    before: ObjectLookup<D>,
    after: ObjectLookup<D>,
    obj: PixelObject<D>,
    handle: i32,
) -> bool {
    &&& handle as int == before.objects.len()
    &&& after.objects@ == before.objects@.push(obj)
}

impl<D: Copy> ObjectLookup<D> {
    /// An empty registry.
    pub fn new() -> (r: Self)
        ensures
            r.objects.len() == 0,
    {
        ObjectLookup { objects: Vec::new() }
    }

    /// Registers an object and returns its handle, the next unused one.
    pub fn add_object(&mut self, obj: PixelObject<D>) -> (r: i32)
        requires
            old(self).objects.len() < i32::MAX,
        ensures
            object_added(*old(self), *final(self), obj, r),
    {
        let handle = self.objects.len() as i32;
        self.objects.push(obj);
        handle
    }

    /// The object registered under `idx`; `None` for a handle that was
    /// never handed out.
    pub fn get_object(&self, idx: i32) -> (r: Option<&PixelObject<D>>)
        ensures
            match object_at(*self, idx as int) {
                Some(o) => r == Some(&o),
                None => r.is_none(),
            },
    {
        if 0 <= idx && (idx as usize) < self.objects.len() {
            Some(&self.objects[idx as usize])
        } else {
            None
        }
    }

    /// Binds the object under `idx` to its engine representation (see
    /// `PixelObject::update_lang_ptr`). False, with nothing changed, for an
    /// unknown handle or an object that is already bound.
    pub fn bind_lang_ptr(&mut self, idx: i32, n_ptr: usize) -> (r: bool)
        ensures
            r == (object_at(*old(self), idx as int) is Some && old(self).objects[idx as int].lang_ptr
                == 0),
            final(self).objects.len() == old(self).objects.len(),
            forall|j: int|
                0 <= j < old(self).objects.len() && (j != idx || !r) ==> final(self).objects[j]
                    == old(self).objects[j],
            r ==> only_lang_ptr_changed(
                old(self).objects[idx as int],
                final(self).objects[idx as int],
                n_ptr,
            ),
    {
        if 0 <= idx && (idx as usize) < self.objects.len() {
            let k = idx as usize;
            if self.objects[k].lang_ptr != 0 {
                false
            } else {
                let mut o = self.objects.remove(k);
                o.lang_ptr = n_ptr;
                self.objects.insert(k, o);
                true
            }
        } else {
            false
        }
    }

    /// Binds the object under `idx` to an engine representation that the
    /// engine's collector owns, so that releasing the object will not free
    /// it. False, with nothing changed, for an unknown handle or an object
    /// that is already bound.
    pub fn bind_engine_owned(&mut self, idx: i32, n_ptr: usize) -> (r: bool)
        ensures
            r == (object_at(*old(self), idx as int) is Some && old(self).objects[idx as int].lang_ptr
                == 0),
            final(self).objects.len() == old(self).objects.len(),
            forall|j: int|
                0 <= j < old(self).objects.len() && (j != idx || !r) ==> final(self).objects[j]
                    == old(self).objects[j],
            r ==> bound_engine_owned(
                old(self).objects[idx as int],
                final(self).objects[idx as int],
                n_ptr,
            ),
    {
        if 0 <= idx && (idx as usize) < self.objects.len() {
            let k = idx as usize;
            if self.objects[k].lang_ptr != 0 {
                false
            } else {
                let mut o = self.objects.remove(k);
                o.update_lang_ptr(n_ptr);
                o.update_free_lang_ptr(false);
                self.objects.insert(k, o);
                true
            }
        } else {
            false
        }
    }

    /// The host pointer of the object a value designates: the value must be
    /// a host-object handle, or an integer, naming a registered object.
    pub fn get_host_ptr(&self, var: &pxs_Var) -> (r: Option<usize>)
        ensures
            match object_at(*self, object_handle_of(*var) as int) {
                Some(o) => r == Some(o.ptr),
                None => r.is_none(),
            },
    {
        match self.get_object(var.get_object_ptr()) {
            Some(o) => Some(o.ptr),
            None => None,
        }
    }

    /// Empties the registry and returns what must be freed for each object
    /// it held, last registered first.
    pub fn clear(&mut self) -> (r: Vec<ObjectRelease<D>>)
        ensures
            final(self).objects.len() == 0,
            r.len() == old(self).objects.len(),
            forall|i: int|
                0 <= i < r.len() ==> #[trigger] r[i] == release_of(
                    old(self).objects[old(self).objects.len() - 1 - i],
                ),
    {
        let mut out: Vec<ObjectRelease<D>> = Vec::new();
        let ghost start = self.objects@;
        while self.objects.len() > 0
            invariant
                self.objects@ == start.take(self.objects.len() as int),
                self.objects.len() <= start.len(),
                out.len() == start.len() - self.objects.len(),
                forall|i: int|
                    0 <= i < out.len() ==> #[trigger] out[i] == release_of(
                        start[start.len() - 1 - i],
                    ),
            decreases self.objects.len(),
        {
            let ghost before = self.objects@;
            let o = self.objects.pop().unwrap();
            proof {
                assert(self.objects@ =~= start.take(self.objects.len() as int));
            }
            out.push(o.release());
        }
        out
    }
}

/// Empties the object registry and returns what must be freed for each
/// object it held, last registered first.
pub fn clear_object_lookup<D: Copy>(lookup: &mut ObjectLookup<D>) -> (r: Vec<ObjectRelease<D>>)
    ensures
        final(lookup).objects.len() == 0,
        r.len() == old(lookup).objects.len(),
        forall|i: int|
            0 <= i < r.len() ==> #[trigger] r[i] == release_of(
                old(lookup).objects[old(lookup).objects.len() - 1 - i],
            ),
{
    lookup.clear()
}

/// Releasing an object frees its host pointer exactly once, through its own
/// destructor; the engine representation is freed once when the object is
/// bound and owns it, and never otherwise.
pub proof fn lemma_release_frees_once<D>(o: PixelObject<D>)
    ensures
        release_of(o).host_ptr == o.ptr,
        release_of(o).free_method == o.free_method,
        !o.free_lang_ptr ==> release_of(o).lang_ptr is None,
        o.free_lang_ptr && o.lang_ptr != 0 ==> release_of(o).lang_ptr == Some(o.lang_ptr),
        o.lang_ptr == 0 ==> release_of(o).lang_ptr is None,
{
}

/// Registering objects one after another hands out distinct handles that no
/// earlier registration used; each handle then designates the object
/// registered under it, and a handle never handed out designates nothing.
pub proof fn lemma_object_handles_distinct<D>(
    states: Seq<ObjectLookup<D>>,
    objs: Seq<PixelObject<D>>,
    handles: Seq<i32>,
)
    requires
        states.len() == handles.len() + 1,
        objs.len() == handles.len(),
        forall|i: int|
            0 <= i < handles.len() ==> #[trigger] object_added(
                states[i],
                states[i + 1],
                objs[i],
                handles[i],
            ),
    ensures
        forall|i: int, j: int|
            0 <= i < j < handles.len() ==> #[trigger] handles[i] != #[trigger] handles[j],
        forall|i: int|
            0 <= i < handles.len() ==> object_at(states[0], #[trigger] handles[i] as int).is_none(),
        forall|i: int|
            0 <= i < handles.len() ==> object_at(states.last(), #[trigger] handles[i] as int)
                == Some(objs[i]),
        forall|h: int|
            !(0 <= h < states[0].objects.len() + handles.len()) ==> #[trigger] object_at(
                states.last(),
                h,
            ).is_none(),
    decreases handles.len(),
{
    let n = handles.len() as int;
    if n > 0 {
        lemma_object_handles_distinct(states.drop_last(), objs.drop_last(), handles.drop_last());
        assert(object_added(states[n - 1], states[n], objs[n - 1], handles[n - 1]));
        lemma_object_positions(states, objs, handles);
        let last = states[n];
        let prev = states[n - 1];
        assert forall|i: int| 0 <= i < n implies object_at(last, #[trigger] handles[i] as int)
            == Some(objs[i]) by {
            if i < n - 1 {
                assert(handles.drop_last()[i] == handles[i]);
                assert(objs.drop_last()[i] == objs[i]);
                assert(states.drop_last().last() == prev);
            }
        }
    }
}

/// Along a run of registrations, the `i`-th handle is the starting size of
/// the registry plus `i`.
proof fn lemma_object_positions<D>(
    states: Seq<ObjectLookup<D>>,
    objs: Seq<PixelObject<D>>,
    handles: Seq<i32>,
)
    requires
        states.len() == handles.len() + 1,
        objs.len() == handles.len(),
        forall|i: int|
            0 <= i < handles.len() ==> #[trigger] object_added(
                states[i],
                states[i + 1],
                objs[i],
                handles[i],
            ),
    ensures
        forall|i: int|
            0 <= i < handles.len() ==> #[trigger] handles[i] as int == states[0].objects.len() + i,
        forall|i: int|
            0 <= i < states.len() ==> #[trigger] states[i].objects.len() == states[0].objects.len()
                + i,
    decreases handles.len(),
{
    let n = handles.len() as int;
    if n > 0 {
        let ps = states.drop_last();
        let ph = handles.drop_last();
        lemma_object_positions(ps, objs.drop_last(), ph);
        assert(ps.len() == n);
        assert(ps[0] == states[0]);
        assert(object_added(states[n - 1], states[n], objs[n - 1], handles[n - 1]));
        assert(ps[n - 1] == states[n - 1]);
        assert(ps[n - 1].objects.len() == ps[0].objects.len() + (n - 1));
        assert forall|i: int| 0 <= i < n implies #[trigger] handles[i] as int
            == states[0].objects.len() + i by {
            if i < n - 1 {
                assert(ph[i] == handles[i]);
                assert(ph[i] as int == ps[0].objects.len() + i);
            }
        }
        assert forall|i: int| 0 <= i < states.len() implies #[trigger] states[i].objects.len()
            == states[0].objects.len() + i by {
            if i < n {
                assert(ps[i] == states[i]);
                assert(ps[i].objects.len() == ps[0].objects.len() + i);
            }
        }
    }
}

} // verus!
