//! The types of Jsonnet values, and the kinds under which the web bindings report them.
use vstd::prelude::*;
use vstd::std_specs::convert::FromSpecImpl;

verus! {

/// The type of a Jsonnet value.
#[derive(Clone, Copy, Debug, PartialEq, Eq, Structural)]
pub enum ValType {
    Null,
    Bool,
    Num,
    Str,
    Arr,
    Obj,
    Func,
}

/// The kind of a value, as the web bindings report it to JavaScript.
#[derive(Clone, Copy, Debug, PartialEq, Eq, Structural)]
pub enum ValKind {
    Null,
    Bool,
    Num,
    Str,
    Arr,
    Obj,
    Func,
}

/// The kind that reports each type: the one of the same name.
pub open spec fn kind_of(v: ValType) -> ValKind {
    match v {
        ValType::Null => ValKind::Null,
        ValType::Bool => ValKind::Bool,
        ValType::Num => ValKind::Num,
        ValType::Str => ValKind::Str,
        ValType::Arr => ValKind::Arr,
        ValType::Obj => ValKind::Obj,
        ValType::Func => ValKind::Func,
    }
}

impl From<ValType> for ValKind {
    fn from(v: ValType) -> (res: Self) {
        match v {
            ValType::Null => ValKind::Null,
            ValType::Bool => ValKind::Bool,
            ValType::Num => ValKind::Num,
            ValType::Str => ValKind::Str,
            ValType::Arr => ValKind::Arr,
            ValType::Obj => ValKind::Obj,
            ValType::Func => ValKind::Func,
        }
    }
}

impl FromSpecImpl<ValType> for ValKind {
    open spec fn obeys_from_spec() -> bool {
        true
    }

    open spec fn from_spec(v: ValType) -> Self {
        kind_of(v)
    }
}

} // verus!
