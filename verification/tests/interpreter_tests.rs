//! End-to-end runs of the evaluation engine against the real embedded
//! interpreter: the library stages the globals, computes the bridge
//! responses, and completes the outcome; the interpreter executes the
//! source.

use rustpython_vm as vm;
use vm::{
    builtins::{PyDict, PyFloat, PyInt, PyList, PyNone, PyStr, PyStrRef, PyTupleRef},
    convert::ToPyObject,
    function::{FuncArgs, PyMethodFlags},
    AsObject, PyObjectRef, PyResult, TryFromObject, VirtualMachine,
};

use num_traits::cast::ToPrimitive;
use script_eval::bridge::mock_subinvoke;
use script_eval::engine::{
    abort_name, complete_execution, eval_result_of, mock_subinvoke_name, prepare_globals,
    EvalResult, ExecOutcome, GlobalVar,
};
use script_eval::exception::{ExcArg, ExceptionReport};
use script_eval::native::NativeValue;
use script_eval::value::{Number, Value};

fn pyobj_to_native(vm: &VirtualMachine, obj: PyObjectRef) -> NativeValue {
    if let Ok(s) = obj.clone().downcast::<PyStr>() {
        NativeValue::Str(s.as_str().to_owned())
    } else if obj.fast_isinstance(vm.ctx.types.bool_type) {
        match obj.clone().try_to_bool(vm) {
            Ok(b) => NativeValue::Bool(b),
            Err(_) => NativeValue::Opaque { truthy: None },
        }
    } else if let Ok(i) = obj.clone().downcast::<PyInt>() {
        match i.as_bigint().to_i128() {
            Some(v) => NativeValue::Int(v),
            None => NativeValue::Int(i128::MAX),
        }
    } else if let Ok(f) = obj.clone().downcast::<PyFloat>() {
        NativeValue::Float(f.to_f64().to_bits())
    } else if obj.clone().downcast::<PyNone>().is_ok() {
        NativeValue::Nil
    } else if let Ok(list) = obj.clone().downcast::<PyList>() {
        NativeValue::List(
            list.borrow_vec()
                .iter()
                .map(|o| pyobj_to_native(vm, o.clone()))
                .collect(),
        )
    } else if let Ok(dict) = obj.clone().downcast::<PyDict>() {
        NativeValue::Dict(
            dict.into_iter()
                .map(|(k, v)| (pyobj_to_native(vm, k), pyobj_to_native(vm, v)))
                .collect(),
        )
    } else {
        match obj.try_to_bool(vm) {
            Ok(b) => NativeValue::Opaque { truthy: Some(b) },
            Err(_) => NativeValue::Opaque { truthy: None },
        }
    }
}

fn native_to_pyobj(vm: &VirtualMachine, n: &NativeValue) -> PyObjectRef {
    match n {
        NativeValue::Str(s) => vm.ctx.new_str(s.clone()).to_pyobject(vm),
        NativeValue::Bool(b) => vm.ctx.new_bool(*b).to_pyobject(vm),
        NativeValue::Int(i) => vm.ctx.new_int(*i).to_pyobject(vm),
        NativeValue::Float(bits) => vm.ctx.new_float(f64::from_bits(*bits)).to_pyobject(vm),
        NativeValue::Nil => vm.ctx.none(),
        NativeValue::List(xs) => vm
            .ctx
            .new_list(xs.iter().map(|x| native_to_pyobj(vm, x)).collect())
            .to_pyobject(vm),
        NativeValue::Dict(es) => {
            let dict = vm.ctx.new_dict();
            for (k, v) in es {
                let key = native_to_pyobj(vm, k);
                let val = native_to_pyobj(vm, v);
                dict.set_item(&*key, val, vm).expect("dict entry");
            }
            dict.to_pyobject(vm)
        }
        NativeValue::Opaque { truthy } => {
            vm.ctx.new_bool(truthy.unwrap_or(false)).to_pyobject(vm)
        }
    }
}

fn mock_callable(args: FuncArgs, vm: &VirtualMachine) -> PyResult<PyObjectRef> {
    let uri: String = args.args.get(0).unwrap().str(vm)?.to_string();
    let method: String = args.args.get(1).unwrap().str(vm)?.to_string();
    let native_args = pyobj_to_native(vm, args.args.get(2).unwrap().clone());
    let out = mock_subinvoke(&uri, &method, &native_args).expect("plain arguments convert");
    Ok(native_to_pyobj(vm, &out))
}

fn abort_callable(args: FuncArgs, vm: &VirtualMachine) -> PyResult<PyObjectRef> {
    let message: String = args.args.get(0).unwrap().str(vm)?.to_string();
    Err(vm.new_exception_msg(vm.ctx.exceptions.base_exception_type.to_owned(), message))
}

fn run_source(src: &str, globals: Vec<GlobalVar>) -> EvalResult {
    let staged = prepare_globals(&globals);
    vm::Interpreter::with_init(Default::default(), |_vm| {}).enter(|vm| {
        let scope = vm.new_scope_with_builtins();
        let mock_fn = vm
            .ctx
            .new_method_def("__mock_subinvoke", mock_callable, PyMethodFlags::empty(), None)
            .build_function(vm);
        scope
            .globals
            .set_item(mock_subinvoke_name(), mock_fn.into(), vm)
            .expect("installing the mock bridge function");
        let abort_fn = vm
            .ctx
            .new_method_def("__wrap_abort", abort_callable, PyMethodFlags::empty(), None)
            .build_function(vm);
        scope
            .globals
            .set_item(abort_name(), abort_fn.into(), vm)
            .expect("installing the abort bridge function");
        for (name, native) in &staged {
            scope
                .globals
                .set_item(name.as_str(), native_to_pyobj(vm, native), vm)
                .expect("installing an injected global");
        }
        let outcome = match vm.run_block_expr(scope, src) {
            Ok(obj) => ExecOutcome::Completed(pyobj_to_native(vm, obj)),
            Err(exc) => {
                let args = match PyTupleRef::try_from_object(vm, exc.args().to_pyobject(vm)) {
                    Ok(t) => t,
                    Err(_) => {
                        return eval_result_of(
                            complete_execution(&ExecOutcome::Raised(ExceptionReport {
                                args: None,
                            }))
                            .expect("a raise is not the fatal tier"),
                        )
                    }
                };
                let mut out: Vec<ExcArg> = Vec::new();
                for arg in args.iter() {
                    match PyStrRef::try_from_object(vm, arg.clone()) {
                        Ok(s) => out.push(ExcArg::Text(s.as_str().to_owned())),
                        Err(_) => out.push(ExcArg::Unprintable),
                    }
                }
                ExecOutcome::Raised(ExceptionReport { args: Some(out) })
            }
        };
        eval_result_of(complete_execution(&outcome).expect("result converts"))
    })
}

#[test]
fn global_injection_end_to_end() {
    let globals = vec![GlobalVar {
        name: "x".to_string(),
        value: Value::Num(Number::Int(41)),
    }];
    let result = run_source("x + 1", globals);
    assert_eq!(result.value, Some(Value::Num(Number::Int(42))));
    assert_eq!(result.error, None);
}

#[test]
fn exception_capture_end_to_end() {
    let result = run_source("raise Exception(\"kaboom \")", vec![]);
    assert_eq!(result.value, None);
    assert_eq!(result.error, Some("kaboom".to_string()));
}

#[test]
fn mock_bridge_end_to_end() {
    let src = "__mock_subinvoke(\"uriaaa\", \"metth\", {\"a\": 4, \"b\": 2})";
    let result = run_source(src, vec![]);
    assert_eq!(
        result.value,
        Some(Value::Str("uriaaa/metth/{\"a\":4,\"b\":2}".to_string()))
    );
    assert_eq!(result.error, None);
}

#[test]
fn abort_end_to_end() {
    let result = run_source("__wrap_abort(\"stop now\")", vec![]);
    assert_eq!(result.value, None);
    assert_eq!(result.error, Some("stop now".to_string()));
}

#[test]
fn abort_is_not_swallowed_by_a_handler() {
    let src = "try:\n    __wrap_abort(\"stop now\")\nexcept Exception:\n    pass";
    let result = run_source(src, vec![]);
    assert_eq!(result.value, None);
    assert_eq!(result.error, Some("stop now".to_string()));
}
