use std::rc::Rc;

use mlua::{Lua, MultiValue, Value};
use pixelscript::func::FunctionLookup;
use pixelscript::module::Module;
use pixelscript::var::{pxs_Var, pxs_VarType};

type Callback = fn(&pxs_Var, usize) -> pxs_Var;

fn add(args: &pxs_Var, _opaque: usize) -> pxs_Var {
    let a = args.list_get(0).unwrap().get_i64().unwrap();
    let b = args.list_get(1).unwrap().get_i64().unwrap();
    pxs_Var::new_i64(a + b)
}

fn to_lua(lua: &Lua, v: &pxs_Var) -> mlua::Result<Value> {
    Ok(match v.tag() {
        pxs_VarType::pxs_Int64 => Value::Integer(v.get_i64().unwrap()),
        pxs_VarType::pxs_String => Value::String(lua.create_string(v.get_string().unwrap())?),
        pxs_VarType::pxs_Bool => Value::Boolean(v.get_bool().unwrap()),
        _ => Value::Nil,
    })
}

fn from_lua(v: &Value) -> pxs_Var {
    match v {
        Value::Integer(i) => pxs_Var::new_i64(*i),
        Value::Boolean(b) => pxs_Var::new_bool(*b),
        Value::String(s) => pxs_Var::new_string(s.to_string_lossy()),
        _ => pxs_Var::new_null(),
    }
}

fn materialize(lua: &Lua, module: &Module, lookup: Rc<FunctionLookup<Callback>>) -> mlua::Result<()> {
    let table = lua.create_table()?;
    for v in module.variables.iter() {
        table.set(v.name.as_str(), to_lua(lua, &v.var)?)?;
    }
    for c in module.callbacks.iter() {
        let lookup = Rc::clone(&lookup);
        let idx = c.idx;
        let shim = lua.create_function(move |lua, args: MultiValue| {
            let argv: Vec<pxs_Var> = args.iter().map(from_lua).collect();
            let result = match lookup.prepare_call(idx, argv) {
                Some((func, opaque, packed)) => func(&packed, opaque),
                None => pxs_Var::new_null(),
            };
            to_lua(lua, &result)
        })?;
        table.set(c.name.as_str(), shim)?;
    }
    let package: mlua::Table = lua.globals().get("package")?;
    let preload: mlua::Table = package.get("preload")?;
    let loader = lua.create_function(move |_, ()| Ok(table.clone()))?;
    preload.set(module.name.as_str(), loader)?;
    Ok(())
}

fn execute(lua: &Lua, code: &str) -> String {
    match lua.load(code).exec() {
        Ok(()) => String::new(),
        Err(e) => e.to_string(),
    }
}

#[test]
fn lua_module_end_to_end() {
    let mut lookup: FunctionLookup<Callback> = FunctionLookup::new();
    let mut m = Module::new("pxs".to_string());
    m.add_variable("n1", &pxs_Var::new_i64(1));
    m.add_variable("n2", &pxs_Var::new_i64(2));
    m.register_callback(&mut lookup, "add", add, 0);

    let lua = Lua::new();
    materialize(&lua, &m, Rc::new(lookup)).unwrap();
    let err = execute(&lua, "pxs = require('pxs')\nlocal r = pxs.add(pxs.n1, pxs.n2)\nassert(r == 3)");
    assert_eq!(err, "");
    let value: Value = lua.load("pxs.add(pxs.n1, pxs.n2)").eval().unwrap();
    let var = from_lua(&value);
    assert_eq!(var.tag(), pxs_VarType::pxs_Int64);
    assert_eq!(var.get_i64(), Ok(3));
    assert_ne!(execute(&lua, "error('boom')"), "");
}

use pixelscript::object::{ObjectLookup, PixelObject};
use std::cell::RefCell;

type ObjCallback = fn(&Rc<Env>, &pxs_Var, usize) -> pxs_Var;
type Destructor = fn(&Env, usize);

struct Env {
    functions: RefCell<FunctionLookup<ObjCallback>>,
    objects: RefCell<ObjectLookup<Destructor>>,
    names: RefCell<Vec<String>>,
    destroyed: RefCell<Vec<usize>>,
}

fn free_person(env: &Env, slot: usize) {
    env.destroyed.borrow_mut().push(slot);
}

fn slot_of(env: &Env, args: &pxs_Var) -> usize {
    env.objects.borrow().get_host_ptr(args.list_get(0).unwrap()).unwrap()
}

fn set_name(env: &Rc<Env>, args: &pxs_Var, _opaque: usize) -> pxs_Var {
    let slot = slot_of(env, args);
    env.names.borrow_mut()[slot] = args.list_get(1).unwrap().get_string().unwrap();
    pxs_Var::new_null()
}

fn get_name(env: &Rc<Env>, args: &pxs_Var, _opaque: usize) -> pxs_Var {
    let slot = slot_of(env, args);
    pxs_Var::new_string(env.names.borrow()[slot].clone())
}

fn new_person(env: &Rc<Env>, _args: &pxs_Var, _opaque: usize) -> pxs_Var {
    let slot = {
        let mut names = env.names.borrow_mut();
        names.push(String::new());
        names.len() - 1
    };
    let mut person: PixelObject<Destructor> = PixelObject::new(slot, free_person, "Person");
    {
        let mut functions = env.functions.borrow_mut();
        person.register_method(&mut functions, "set_name", set_name, 0);
        person.register_method(&mut functions, "get_name", get_name, 0);
    }
    let handle = env.objects.borrow_mut().add_object(person);
    pxs_Var::new_host_object(handle)
}

fn call_env(env: &Rc<Env>, idx: i32, argv: Vec<pxs_Var>) -> pxs_Var {
    let prepared = env.functions.borrow().prepare_call(idx, argv);
    match prepared {
        Some((func, opaque, packed)) => func(env, &packed, opaque),
        None => pxs_Var::new_null(),
    }
}

fn env_to_lua(lua: &Lua, env: &Rc<Env>, v: &pxs_Var) -> mlua::Result<Value> {
    if !v.is_host_object() {
        return to_lua(lua, v);
    }
    let handle = v.get_object_ptr();
    let methods: Vec<(String, i32)> = env.objects.borrow().get_object(handle).unwrap()
        .callbacks.iter().map(|c| (c.name.clone(), c.idx)).collect();
    let instance = lua.create_table()?;
    for (name, idx) in methods {
        let env = Rc::clone(env);
        let method = lua.create_function(move |lua, (_this, rest): (mlua::Table, MultiValue)| {
            let mut argv = vec![pxs_Var::new_host_object(handle)];
            argv.extend(rest.iter().map(from_lua));
            let result = call_env(&env, idx, argv);
            env_to_lua(lua, &env, &result)
        })?;
        instance.set(name.as_str(), method)?;
    }
    assert!(env.objects.borrow_mut().bind_engine_owned(handle, instance.to_pointer() as usize));
    Ok(Value::Table(instance))
}

#[test]
fn lua_host_object_round_trip() {
    let env = Rc::new(Env {
        functions: RefCell::new(FunctionLookup::new()),
        objects: RefCell::new(ObjectLookup::new()),
        names: RefCell::new(Vec::new()),
        destroyed: RefCell::new(Vec::new()),
    });
    let mut m = Module::new("pxs".to_string());
    m.register_object(&mut env.functions.borrow_mut(), "Person", new_person, 0);

    let lua = Lua::new();
    let table = lua.create_table().unwrap();
    for c in m.objects.iter() {
        let env = Rc::clone(&env);
        let idx = c.idx;
        let ctor = lua
            .create_function(move |lua, args: MultiValue| {
                let argv: Vec<pxs_Var> = args.iter().map(from_lua).collect();
                let result = call_env(&env, idx, argv);
                env_to_lua(lua, &env, &result)
            })
            .unwrap();
        table.set(c.name.as_str(), ctor).unwrap();
    }
    lua.globals().set("pxs", table).unwrap();

    let err = execute(&lua, "local p = pxs.Person()\np:set_name('X')\nresult = p:get_name()");
    assert_eq!(err, "");
    let result: String = lua.globals().get("result").unwrap();
    assert_eq!(result, "X");

    let releases = env.objects.borrow_mut().clear();
    assert_eq!(releases.len(), 1);
    for r in releases {
        assert_eq!(r.lang_ptr, None);
        (r.free_method)(&env, r.host_ptr);
    }
    assert_eq!(*env.destroyed.borrow(), vec![0]);
}
