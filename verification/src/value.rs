use vstd::prelude::*;
use std::rc::Rc;
use crate::error::ErrorKind;

verus! {

/// An object value of the evaluator, by the handle under which the evaluator keeps it.
#[derive(Clone, Copy, Debug, PartialEq, Eq, Structural)]
pub struct ObjValue(pub u64);

/// The objects that `super` and `self` name inside an object.
#[derive(Clone, Copy, Debug, PartialEq, Eq, Structural)]
pub struct SupThis {
    pub sup: Option<ObjValue>,
    pub this: ObjValue,
}

impl SupThis {
    /// The object that `self` names.
    pub fn this(&self) -> (res: ObjValue)
        ensures
            res == self.this,
    {
        self.this
    }

    /// The object that `super` names, if the object has one.
    pub fn sup(&self) -> (res: Option<ObjValue>)
        ensures
            res == self.sup,
    {
        self.sup
    }
}

/// An expression of the program, by the handle under which the evaluator keeps it.
#[derive(Clone, Copy, Debug, PartialEq, Eq, Structural)]
pub struct LocExpr(pub u64);

/// `Rc::clone`: another pointer to the same value.
#[verifier::external_body]
pub(crate) fn rc_share<T>(rc: &Rc<T>) -> (res: Rc<T>)
    ensures
        res == *rc,
{
    Rc::clone(rc)
}

/// What is bound to a name: a lazily computed value.
#[derive(Debug, PartialEq, Eq)]
pub enum Thunk {
    /// A thunk that the evaluator created, by its handle.
    Handle(u64),
    /// The default value of the function parameter `name`: the expression `expr`,
    /// computed in the context that the call builds.
    ParamDefault { name: String, expr: LocExpr },
    /// A function parameter that the call left unbound and that has no default:
    /// forcing it fails with this error.
    ParamNotBound(Rc<ErrorKind>),
}

impl Clone for Thunk {
    fn clone(&self) -> (res: Self)
        ensures
            res == *self,
    {
        match self {
            Thunk::Handle(h) => Thunk::Handle(*h),
            Thunk::ParamDefault { name, expr } => Thunk::ParamDefault { name: name.clone(), expr: *expr },
            Thunk::ParamNotBound(e) => Thunk::ParamNotBound(rc_share(e)),
        }
    }
}

} // verus!
