use pixelscript::func::FunctionLookup;
use pixelscript::module::Module;
use pixelscript::object::{ObjectLookup, PixelObject};
use pixelscript::var::pxs_Var;

type Callback = fn(&mut Host, &pxs_Var, usize) -> pxs_Var;
type Destructor = fn(&mut Host, usize);

#[derive(Default)]
struct Host {
    names: Vec<String>,
    destroyed: Vec<usize>,
}

fn add(_host: &mut Host, args: &pxs_Var, _opaque: usize) -> pxs_Var {
    let a = args.list_get(0).unwrap().get_i64().unwrap();
    let b = args.list_get(1).unwrap().get_i64().unwrap();
    pxs_Var::new_i64(a + b)
}

fn new_person(host: &mut Host, _args: &pxs_Var, _opaque: usize) -> pxs_Var {
    host.names.push(String::new());
    pxs_Var::new_u64((host.names.len() - 1) as u64)
}

fn set_name(host: &mut Host, args: &pxs_Var, _opaque: usize) -> pxs_Var {
    let slot = args.list_get(0).unwrap().get_u64().unwrap() as usize;
    host.names[slot] = args.list_get(1).unwrap().get_string().unwrap();
    pxs_Var::new_null()
}

fn get_name(host: &mut Host, args: &pxs_Var, _opaque: usize) -> pxs_Var {
    let slot = args.list_get(0).unwrap().get_u64().unwrap() as usize;
    pxs_Var::new_string(host.names[slot].clone())
}

fn free_person(host: &mut Host, slot: usize) {
    host.destroyed.push(slot);
}

fn call(
    host: &mut Host,
    lookup: &FunctionLookup<Callback>,
    handle: i32,
    args: Vec<pxs_Var>,
) -> pxs_Var {
    match lookup.prepare_call(handle, args) {
        Some((func, opaque, packed)) => func(host, &packed, opaque),
        None => pxs_Var::new_null(),
    }
}

#[test]
fn module_add_scenario() {
    let mut host = Host::default();
    let mut lookup: FunctionLookup<Callback> = FunctionLookup::new();
    let mut m = Module::new("pxs".to_string());
    m.add_variable("n1", &pxs_Var::new_i64(1));
    m.add_variable("n2", &pxs_Var::new_i64(2));
    m.register_callback(&mut lookup, "add", add, 0);

    let n1 = m.variables.iter().find(|v| v.name == "n1").unwrap().var.clone();
    let n2 = m.variables.iter().find(|v| v.name == "n2").unwrap().var.clone();
    let binding = m.callbacks.iter().find(|c| c.name == "add").unwrap();
    assert_eq!(lookup.get_function(binding.idx).unwrap().name, "_pxsadd");
    let result = call(&mut host, &lookup, binding.idx, vec![n1, n2]);
    assert_eq!(result.get_i64(), Ok(3));
    assert!(call(&mut host, &lookup, 42, vec![]).is_null());
}

#[test]
fn host_object_scenario() {
    let mut host = Host::default();
    let mut functions: FunctionLookup<Callback> = FunctionLookup::new();
    let mut objects: ObjectLookup<Destructor> = ObjectLookup::new();
    let mut m = Module::new("pxs".to_string());
    let ctor = m.register_object(&mut functions, "Person", new_person, 0);

    let slot = call(&mut host, &functions, ctor, vec![]).get_u64().unwrap() as usize;
    let mut person: PixelObject<Destructor> = PixelObject::new(slot, free_person, "Person");
    let set = person.register_method(&mut functions, "set_name", set_name, 0);
    let get = person.register_method(&mut functions, "get_name", get_name, 0);
    let handle = objects.add_object(person);
    let var = pxs_Var::new_host_object(handle);

    let this = pxs_Var::new_u64(objects.get_host_ptr(&var).unwrap() as u64);
    call(&mut host, &functions, set, vec![this.clone(), pxs_Var::new_string("X".to_string())]);
    let name = call(&mut host, &functions, get, vec![this]);
    assert_eq!(name.get_string(), Ok("X".to_string()));

    drop(var);
    for r in objects.clear() {
        (r.free_method)(&mut host, r.host_ptr);
        assert_eq!(r.lang_ptr, None);
    }
    assert_eq!(host.destroyed, vec![slot]);
}
