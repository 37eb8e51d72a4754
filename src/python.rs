use vstd::prelude::*;
use vstd::string::*;

verus! {

/// A name the Python adapter bound to a function-registry handle, in the
/// interpreter numbered `thread`.
pub struct NameBinding {
    pub thread: i32,
    pub name: String,
    pub idx: i32,
}

/// An object type the Python adapter has defined as a class, in the
/// interpreter numbered `thread`.
pub struct DefinedObject {
    pub thread: i32,
    pub name: String,
}

/// The Python adapter's bookkeeping for one OS thread: which names stand
/// for which registry handles, which object types have a class already, and
/// which interpreter is current. Each interpreter has its own names.
pub struct PythonScripting {
    pub name_to_idx: Vec<NameBinding>,
    pub defined_objects: Vec<DefinedObject>,
    pub thread_idx: i32,
}

/// The name table a list of bindings describes: a later binding of the
/// same name in the same interpreter replaces an earlier one.
pub open spec fn names_of(s: Seq<NameBinding>) -> Map<(i32, Seq<char>), i32>
    decreases s.len(),
{
    if s.len() == 0 {
        Map::empty()
    } else {
        names_of(s.drop_last()).insert((s.last().thread, s.last().name@), s.last().idx)
    }
}

/// The set of (interpreter, type name) pairs a list of definitions holds.
pub open spec fn defined_of(s: Seq<DefinedObject>) -> Set<(i32, Seq<char>)> {
    Set::new(|k: (i32, Seq<char>)| exists|i: int| 0 <= i < s.len() && #[trigger] s[i].thread == k.0 && s[i].name@ == k.1)
}

/// The name table without the names of interpreter `t`.
pub open spec fn without_thread(m: Map<(i32, Seq<char>), i32>, t: i32) -> Map<(i32, Seq<char>), i32> {
    m.restrict(m.dom().filter(|k: (i32, Seq<char>)| k.0 != t))
}

/// The value a map holds for a key, if any.
pub open spec fn map_get(m: Map<(i32, Seq<char>), i32>, k: (i32, Seq<char>)) -> Option<i32> {
    if m.dom().contains(k) {
        Some(m[k])
    } else {
        None
    }
}

/// The private name under which the adapter stores a binding: `_pxs_name`.
pub open spec fn private_name(name: Seq<char>) -> Seq<char> {
    seq!['_', 'p', 'x', 's', '_'] + name
}

/// Builds the private name of `name` (see `private_name`).
pub fn make_private(name: &str) -> (r: String)
    ensures
        r@ == private_name(name@),
{
    let mut s = String::from_str("_pxs_");
    proof {
        reveal_strlit("_pxs_");
    }
    s.append(name);
    s
}

/// Builds the private name of `name` within `prefix`: `_pxs_prefix_name`.
pub fn make_private_prefix(name: &str, prefix: &str) -> (r: String)
    ensures
        r@ == private_name(prefix@ + seq!['_'] + name@),
{
    let mut inner = String::from_str(prefix);
    proof {
        reveal_strlit("_");
    }
    inner.append("_");
    inner.append(name);
    make_private(inner.as_str())
}

impl PythonScripting {
    /// Bookkeeping with no names and no classes, in interpreter 0.
    pub fn new() -> (r: Self)
        ensures
            names_of(r.name_to_idx@) == Map::<(i32, Seq<char>), i32>::empty(),
            defined_of(r.defined_objects@) == Set::<(i32, Seq<char>)>::empty(),
            r.thread_idx == 0,
    {
        let r = PythonScripting { name_to_idx: Vec::new(), defined_objects: Vec::new(), thread_idx: 0 };
        proof {
            assert(defined_of(r.defined_objects@) =~= Set::<(i32, Seq<char>)>::empty());
        }
        r
    }

    /// The names of all interpreters.
    pub open spec fn names(&self) -> Map<(i32, Seq<char>), i32> {
        names_of(self.name_to_idx@)
    }

    /// The class definitions of all interpreters.
    pub open spec fn defined(&self) -> Set<(i32, Seq<char>)> {
        defined_of(self.defined_objects@)
    }

    /// Binds `name` to registry handle `idx` in the current interpreter,
    /// replacing an earlier binding of that name there.
    pub fn add_new_name_idx_fn(&mut self, name: String, idx: i32)
        ensures
            final(self).names() == old(self).names().insert((old(self).thread_idx, name@), idx),
            final(self).defined() == old(self).defined(),
            final(self).thread_idx == old(self).thread_idx,
    {
        let t = self.thread_idx;
        self.name_to_idx.push(NameBinding { thread: t, name, idx });
        proof {
            assert(self.name_to_idx@.drop_last() =~= old(self).name_to_idx@);
        }
    }

    /// The registry handle `name` is bound to in the current interpreter.
    pub fn get_fn_idx_from_name(&self, name: &str) -> (r: Option<i32>)
        ensures
            r == map_get(self.names(), (self.thread_idx, name@)),
    {
        let key = name.to_owned();
        let t = self.thread_idx;
        let mut found: Option<i32> = None;
        let mut i: usize = 0;
        while i < self.name_to_idx.len()
            invariant
                i <= self.name_to_idx.len(),
                key@ == name@,
                t == self.thread_idx,
                found == map_get(names_of(self.name_to_idx@.take(i as int)), (t, name@)),
            decreases self.name_to_idx.len() - i,
        {
            let b = &self.name_to_idx[i];
            proof {
                assert(self.name_to_idx@.take(i + 1).drop_last() =~= self.name_to_idx@.take(
                    i as int,
                ));
            }
            if b.thread == t && b.name == key {
                found = Some(b.idx);
            }
            i = i + 1;
        }
        proof {
            assert(self.name_to_idx@.take(i as int) =~= self.name_to_idx@);
        }
        found
    }

    /// Records that object type `name` has a class in the current
    /// interpreter.
    pub fn add_new_defined_object(&mut self, name: &str)
        ensures
            final(self).defined() == old(self).defined().insert((old(self).thread_idx, name@)),
            final(self).names() == old(self).names(),
            final(self).thread_idx == old(self).thread_idx,
    {
        let t = self.thread_idx;
        self.defined_objects.push(DefinedObject { thread: t, name: name.to_owned() });
        proof {
            let old_s = old(self).defined_objects@;
            let new_s = self.defined_objects@;
            assert forall|k: (i32, Seq<char>)|
                #![auto]
                defined_of(new_s).contains(k) <==> defined_of(old_s).insert((t, name@)).contains(
                    k,
                ) by {
                if defined_of(new_s).contains(k) {
                    let i = choose|i: int|
                        0 <= i < new_s.len() && #[trigger] new_s[i].thread == k.0 && new_s[i].name@
                            == k.1;
                    if i < old_s.len() {
                        assert(old_s[i] == new_s[i]);
                    }
                }
                if defined_of(old_s).contains(k) {
                    let i = choose|i: int|
                        0 <= i < old_s.len() && #[trigger] old_s[i].thread == k.0 && old_s[i].name@
                            == k.1;
                    assert(new_s[i] == old_s[i]);
                }
                if k == (t, name@) {
                    assert(new_s[old_s.len() as int].thread == k.0);
                }
            }
            assert(defined_of(new_s) =~= defined_of(old_s).insert((t, name@)));
        }
    }

    /// Whether object type `name` has a class in the current interpreter.
    pub fn is_object_defined(&self, name: &str) -> (r: bool)
        ensures
            r == self.defined().contains((self.thread_idx, name@)),
    {
        let key = name.to_owned();
        let t = self.thread_idx;
        let mut i: usize = 0;
        while i < self.defined_objects.len()
            invariant
                i <= self.defined_objects.len(),
                key@ == name@,
                t == self.thread_idx,
                forall|j: int|
                    0 <= j < i ==> !(#[trigger] self.defined_objects@[j].thread == t
                        && self.defined_objects@[j].name@ == name@),
            decreases self.defined_objects.len() - i,
        {
            let d = &self.defined_objects[i];
            if d.thread == t && d.name == key {
                proof {
                    assert(self.defined().contains((t, name@)));
                }
                return true;
            }
            i = i + 1;
        }
        false
    }

    /// Makes interpreter `idx` the current one.
    pub fn set_thread_idx(&mut self, idx: i32)
        ensures
            final(self).thread_idx == idx,
            final(self).names() == old(self).names(),
            final(self).defined() == old(self).defined(),
    {
        self.thread_idx = idx;
    }

    /// Drops the class definitions of every interpreter and the names of
    /// the current one; the names of other interpreters stay.
    pub fn clear_state(&mut self)
        ensures
            final(self).names() == without_thread(old(self).names(), old(self).thread_idx),
            final(self).defined() == Set::<(i32, Seq<char>)>::empty(),
            final(self).thread_idx == old(self).thread_idx,
    {
        let t = self.thread_idx;
        self.defined_objects = Vec::new();
        let mut kept: Vec<NameBinding> = Vec::new();
        let mut i: usize = 0;
        while i < self.name_to_idx.len()
            invariant
                i <= self.name_to_idx.len(),
                self.thread_idx == t,
                self.name_to_idx == old(self).name_to_idx,
                self.defined_objects@.len() == 0,
                names_of(kept@) == without_thread(names_of(self.name_to_idx@.take(i as int)), t),
            decreases self.name_to_idx.len() - i,
        {
            let b = &self.name_to_idx[i];
            let ghost before = names_of(self.name_to_idx@.take(i as int));
            let ghost k = (b.thread, b.name@);
            proof {
                assert(self.name_to_idx@.take(i + 1).drop_last() =~= self.name_to_idx@.take(
                    i as int,
                ));
                assert(names_of(self.name_to_idx@.take(i + 1)) == before.insert(k, b.idx));
            }
            if b.thread != t {
                let ghost kept_before = kept@;
                kept.push(NameBinding { thread: b.thread, name: b.name.clone(), idx: b.idx });
                proof {
                    assert(kept@.drop_last() =~= kept_before);
                    assert(without_thread(before.insert(k, b.idx), t) =~= without_thread(
                        before,
                        t,
                    ).insert(k, b.idx));
                }
            } else {
                proof {
                    assert(without_thread(before.insert(k, b.idx), t) =~= without_thread(
                        before,
                        t,
                    ));
                }
            }
            i = i + 1;
        }
        proof {
            assert(self.name_to_idx@.take(i as int) =~= old(self).name_to_idx@);
        }
        self.name_to_idx = kept;
        proof {
            assert(defined_of(self.defined_objects@) =~= Set::<(i32, Seq<char>)>::empty());
        }
    }
}

} // verus!
