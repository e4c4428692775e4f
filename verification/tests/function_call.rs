use jrsonnet::ctx::ContextBuilder;
use jrsonnet::error::{ErrorKind, ParamSig};
use jrsonnet::function::{parse_default_function_call, ExprParam, ExprParams};
use std::rc::Rc;
use jrsonnet::value::{LocExpr, ObjValue, SupThis, Thunk};

fn params(list: &[(&str, Option<u64>)]) -> ExprParams {
    ExprParams {
        exprs: list
            .iter()
            .map(|(n, d)| ExprParam { name: n.to_string(), default: d.map(LocExpr) })
            .collect(),
    }
}

#[test]
fn defaults_and_unbound_parameters() {
    let mut b = ContextBuilder::new();
    b.bind("outer".to_string(), Thunk::Handle(9));
    b.bind("a".to_string(), Thunk::Handle(8));
    let body = b.build_sup_this(SupThis { sup: None, this: ObjValue(1) });
    let ps = params(&[("a", Some(100)), ("b", None)]);
    let c = parse_default_function_call(body, &ps).unwrap();
    assert_eq!(
        c.find_binding("a"),
        Ok(Thunk::ParamDefault { name: "a".to_string(), expr: LocExpr(100) })
    );
    let sig = vec![
        ParamSig { name: "a".to_string(), has_default: true },
        ParamSig { name: "b".to_string(), has_default: false },
    ];
    assert_eq!(
        c.find_binding("b"),
        Ok(Thunk::ParamNotBound(Rc::new(ErrorKind::FunctionParameterNotBoundInCall(
            "b".to_string(),
            sig
        ))))
    );
    assert_eq!(c.find_binding("outer"), Ok(Thunk::Handle(9)));
    assert_eq!(c.this(), Some(ObjValue(1)));
    assert!(c.contains_binding("a"));
    assert!(!c.contains_binding("outer"));
}

#[test]
fn no_parameters() {
    let body = ContextBuilder::new().build();
    let c = parse_default_function_call(body, &params(&[])).unwrap();
    assert!(c.find_binding("x").is_err());
}

#[test]
fn duplicate_parameter_is_an_error() {
    let body = ContextBuilder::new().build();
    let ps = params(&[("a", None), ("b", Some(1)), ("b", None), ("a", None)]);
    assert_eq!(
        parse_default_function_call(body, &ps),
        Err(ErrorKind::DuplicateLocalVar("b".to_string()))
    );
}

#[test]
fn signature_and_unbound_error() {
    let ps = params(&[("a", Some(3)), ("b", None)]);
    let sig = vec![
        ParamSig { name: "a".to_string(), has_default: true },
        ParamSig { name: "b".to_string(), has_default: false },
    ];
    assert_eq!(ps.signature(), sig);
    assert_eq!(
        ps.not_bound_error(1),
        ErrorKind::FunctionParameterNotBoundInCall("b".to_string(), sig)
    );
}

#[test]
fn nested_functions_keep_their_own_defaults() {
    let body = ContextBuilder::new().build();
    let outer = parse_default_function_call(body, &params(&[("a", Some(1)), ("x", Some(2))])).unwrap();
    let inner = parse_default_function_call(outer, &params(&[("a", Some(3))])).unwrap();
    assert_eq!(
        inner.find_binding("a"),
        Ok(Thunk::ParamDefault { name: "a".to_string(), expr: LocExpr(3) })
    );
    assert_eq!(
        inner.find_binding("x"),
        Ok(Thunk::ParamDefault { name: "x".to_string(), expr: LocExpr(2) })
    );
}
