use pixelscript::func::{clear_function_lookup, FunctionLookup};
use pixelscript::module::{lua_module_path, mangle_name, qualified_name, Module};
use pixelscript::object::{clear_object_lookup, ObjectLookup, PixelObject};
use pixelscript::var::pxs_Var;

type Callback = fn(&pxs_Var, usize) -> pxs_Var;
type Destructor = fn(&mut Vec<usize>, usize);

fn sum_two(args: &pxs_Var, _opaque: usize) -> pxs_Var {
    let a = args.list_get(0).unwrap().get_i64().unwrap();
    let b = args.list_get(1).unwrap().get_i64().unwrap();
    pxs_Var::new_i64(a + b)
}

fn echo_opaque(_args: &pxs_Var, opaque: usize) -> pxs_Var {
    pxs_Var::new_u64(opaque as u64)
}

fn free_host(log: &mut Vec<usize>, ptr: usize) {
    log.push(ptr);
}

fn run_release(log: &mut Vec<usize>, obj: PixelObject<Destructor>) -> Option<usize> {
    let r = obj.release();
    (r.free_method)(log, r.host_ptr);
    r.lang_ptr
}

#[test]
fn function_handles_are_distinct_and_stable() {
    let mut lookup: FunctionLookup<Callback> = FunctionLookup::new();
    let mut handles = Vec::new();
    for i in 0..5 {
        let h = lookup.add_function(&format!("f{i}"), echo_opaque, i);
        assert!(!handles.contains(&h));
        handles.push(h);
    }
    assert_eq!(handles, vec![0, 1, 2, 3, 4]);
    for (i, h) in handles.iter().enumerate() {
        let f = lookup.get_function(*h).unwrap();
        assert_eq!(f.name, format!("f{i}"));
        assert_eq!(f.opaque, i);
    }
    assert!(lookup.get_function(5).is_none());
    assert!(lookup.get_function(-1).is_none());
    clear_function_lookup(&mut lookup);
    assert!(lookup.get_function(0).is_none());
    assert_eq!(lookup.functions.len(), 0);
}

#[test]
fn prepare_call_packs_arguments() {
    let mut lookup: FunctionLookup<Callback> = FunctionLookup::new();
    let h = lookup.add_function("_pxsadd", sum_two, 9);
    let (func, opaque, args) = lookup
        .prepare_call(h, vec![pxs_Var::new_i64(1), pxs_Var::new_i64(2)])
        .unwrap();
    assert_eq!(opaque, 9);
    assert_eq!(args.list_len(), Some(2));
    assert_eq!(func(&args, opaque).get_i64(), Ok(3));
    assert!(lookup.prepare_call(h + 1, vec![]).is_none());
}

#[test]
fn module_registers_mangled_callbacks() {
    let mut lookup: FunctionLookup<Callback> = FunctionLookup::new();
    lookup.add_function("first", echo_opaque, 0);
    let mut m = Module::new("pxs".to_string());
    let h = m.register_callback(&mut lookup, "add", sum_two, 0);
    assert_eq!(h, 1);
    assert_eq!(m.callbacks.len(), 1);
    assert_eq!(m.callbacks[0].name, "add");
    assert_eq!(m.callbacks[0].full_name, "_pxsadd");
    assert_eq!(m.callbacks[0].idx, 1);
    assert_eq!(lookup.get_function(1).unwrap().name, "_pxsadd");

    let o = m.register_object(&mut lookup, "Person", echo_opaque, 4);
    assert_eq!(o, 2);
    assert_eq!(m.objects[0].full_name, "_pxsPerson");
    assert_eq!(m.callbacks.len(), 1);

    let var = pxs_Var::new_string("v".to_string());
    m.add_variable("n", &var);
    assert_eq!(m.variables[0].name, "n");
    assert_eq!(m.variables[0].var.get_string(), Ok("v".to_string()));
    assert_eq!(var.get_string(), Ok("v".to_string()));

    let child = Module::new("math".to_string());
    m.add_module(child);
    assert_eq!(m.modules[0].name, "math");
}

#[test]
fn names_are_built_exactly() {
    assert_eq!(mangle_name("pxs", "add"), "_pxsadd");
    assert_eq!(mangle_name("", ""), "_");
    assert_eq!(qualified_name(Some("pxs"), "math"), "pxs.math");
    assert_eq!(qualified_name(None, "math"), "math");
    assert_eq!(lua_module_path("pxs.math"), "pxs/math.lua");
    assert_eq!(lua_module_path("lib/util.lua"), "lib/util/lua.lua");
    assert_eq!(lua_module_path("a.lua"), "a/lua.lua");
    assert_eq!(lua_module_path(""), ".lua");
}

#[test]
fn release_without_ownership_frees_host_only() {
    let mut log = Vec::new();
    let mut obj: PixelObject<Destructor> = PixelObject::new(0x10, free_host, "Person");
    assert!(!obj.is_bound());
    assert!(obj.update_lang_ptr(0x20));
    obj.update_free_lang_ptr(false);
    assert_eq!(run_release(&mut log, obj), None);
    assert_eq!(log, vec![0x10]);
}

#[test]
fn release_with_ownership_frees_both_once() {
    let mut log = Vec::new();
    let mut obj: PixelObject<Destructor> = PixelObject::new(0x10, free_host, "Person");
    assert!(obj.update_lang_ptr(0x20));
    assert!(obj.is_bound());
    assert_eq!(run_release(&mut log, obj), Some(0x20));
    assert_eq!(log, vec![0x10]);

    let unbound: PixelObject<Destructor> = PixelObject::new(0x30, free_host, "Person");
    assert_eq!(run_release(&mut log, unbound), None);
    assert_eq!(log, vec![0x10, 0x30]);
}

#[test]
fn lang_ptr_is_set_once() {
    let mut obj: PixelObject<Destructor> = PixelObject::new(1, free_host, "T");
    assert!(obj.update_lang_ptr(5));
    assert!(!obj.update_lang_ptr(6));
    assert_eq!(obj.lang_ptr, 5);
}

#[test]
fn object_methods_are_registered() {
    let mut lookup: FunctionLookup<Callback> = FunctionLookup::new();
    let mut obj: PixelObject<Destructor> = PixelObject::new(1, free_host, "Person");
    let h = obj.register_method(&mut lookup, "get_name", echo_opaque, 0);
    assert_eq!(h, 0);
    assert_eq!(obj.callbacks[0].full_name, "_Personget_name");
    assert_eq!(obj.callbacks[0].name, "get_name");
    obj.add_callback("set_name", "_Personset_name", 3);
    assert_eq!(obj.callbacks[1].idx, 3);
}

#[test]
fn object_registry_handles_and_release() {
    let mut log = Vec::new();
    let mut lookup: ObjectLookup<Destructor> = ObjectLookup::new();
    let a = lookup.add_object(PixelObject::new(100, free_host, "A"));
    let b = lookup.add_object(PixelObject::new(200, free_host, "B"));
    assert_eq!((a, b), (0, 1));
    assert!(lookup.get_object(2).is_none());
    assert!(lookup.get_object(-1).is_none());
    assert_eq!(lookup.get_host_ptr(&pxs_Var::new_host_object(b)), Some(200));
    assert_eq!(lookup.get_host_ptr(&pxs_Var::new_i64(0)), Some(100));
    assert_eq!(lookup.get_host_ptr(&pxs_Var::new_null()), None);
    assert!(lookup.bind_lang_ptr(a, 7));
    assert!(!lookup.bind_lang_ptr(a, 8));
    assert!(!lookup.bind_lang_ptr(5, 8));
    assert_eq!(lookup.get_object(a).unwrap().lang_ptr, 7);
    let releases = clear_object_lookup(&mut lookup);
    assert_eq!(releases.len(), 2);
    assert_eq!(releases[0].host_ptr, 200);
    assert_eq!(releases[0].lang_ptr, None);
    assert_eq!(releases[1].host_ptr, 100);
    assert_eq!(releases[1].lang_ptr, Some(7));
    for r in releases.iter() {
        (r.free_method)(&mut log, r.host_ptr);
    }
    assert_eq!(log, vec![200, 100]);
    assert!(lookup.get_object(0).is_none());
}

#[test]
fn module_tree_flattens_children_first() {
    let mut vec_mod = Module::new("vec".to_string());
    vec_mod.add_variable("dim", &pxs_Var::new_i64(3));
    let mut math = Module::new("math".to_string());
    math.add_callback("sqrt", "_mathsqrt", 4);
    math.add_object("Matrix", "_mathMatrix", 5);
    math.add_module(vec_mod);
    let mut root = Module::new("pxs".to_string());
    root.add_module(math);
    root.add_module(Module::new("io".to_string()));
    let entries = root.into_preload(None);
    let names: Vec<&str> = entries.iter().map(|e| e.name.as_str()).collect();
    assert_eq!(names, vec!["pxs.math.vec", "pxs.math", "pxs.io", "pxs"]);
    assert!(entries.iter().all(|e| e.module.modules.is_empty()));
    assert_eq!(entries[0].module.variables[0].name, "dim");
    assert_eq!(entries[0].module.name, "vec");
    assert!(entries[0].module.callbacks.is_empty());
    assert_eq!(entries[1].module.name, "math");
    assert_eq!(entries[1].module.callbacks.len(), 1);
    assert_eq!(entries[1].module.callbacks[0].full_name, "_mathsqrt");
    assert_eq!(entries[1].module.objects[0].idx, 5);
    assert!(entries[1].module.variables.is_empty());
    assert_eq!(entries[2].module.name, "io");
    assert_eq!(entries[3].module.name, "pxs");
    assert!(entries[3].module.callbacks.is_empty());

    let lone = Module::new("solo".to_string()).into_preload(Some("host"));
    assert_eq!(lone.len(), 1);
    assert_eq!(lone[0].name, "host.solo");
}

#[test]
fn engine_owned_binding_is_not_freed() {
    let mut log = Vec::new();
    let mut lookup: ObjectLookup<Destructor> = ObjectLookup::new();
    let h = lookup.add_object(PixelObject::new(0x40, free_host, "T"));
    assert!(lookup.bind_engine_owned(h, 0x50));
    assert!(!lookup.bind_engine_owned(h, 0x60));
    assert!(!lookup.bind_engine_owned(h + 1, 0x60));
    let o = lookup.get_object(h).unwrap();
    assert_eq!(o.lang_ptr, 0x50);
    assert!(!o.free_lang_ptr);
    let releases = lookup.clear();
    assert_eq!(releases[0].lang_ptr, None);
    (releases[0].free_method)(&mut log, releases[0].host_ptr);
    assert_eq!(log, vec![0x40]);
}
