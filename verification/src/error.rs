use vstd::prelude::*;

verus! {

/// One parameter of a function's signature, as an error message shows it.
#[derive(Clone, Debug, PartialEq, Eq)]
pub struct ParamSig {
    pub name: String,
    pub has_default: bool,
}

/// A name that no scope of a context binds, with the names of the context's outermost
/// scope in order: those from which names similar to it are suggested.
#[derive(Clone, Debug, PartialEq, Eq)]
pub struct UnboundName {
    pub name: String,
    pub outermost_names: Vec<String>,
}

/// The errors that looking up and binding names gives.
#[derive(Clone, Debug, PartialEq, Eq)]
pub enum ErrorKind {
    /// `self`, `super` or `$` was used where no object encloses the expression.
    CantUseSelfSupOutsideOfObject,
    /// The name is bound in no scope of the context. The second field holds the
    /// suggested names: those of the outermost scope that are similar to it, the most
    /// similar first.
    VariableIsNotDefined(String, Vec<String>),
    /// The name was bound twice in one group of bindings.
    DuplicateLocalVar(String),
    /// A function was called without a value for this parameter, which has no default;
    /// the second field is the function's signature.
    FunctionParameterNotBoundInCall(String, Vec<ParamSig>),
}

} // verus!
