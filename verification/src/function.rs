//! The context in which a function's parameters are bound when the call gives no
//! arguments: each parameter stands for its default value, or for an error.
use vstd::prelude::*;
use crate::ctx::{Context, ContextBuilder};
use crate::error::{ErrorKind, ParamSig};
use std::rc::Rc;
use crate::value::{LocExpr, Thunk};

verus! {

/// One parameter of a function definition: its name and its default value, if any.
#[derive(Clone, Debug)]
pub struct ExprParam {
    pub name: String,
    pub default: Option<LocExpr>,
}

/// The parameters of a function definition, in order.
#[derive(Clone, Debug)]
pub struct ExprParams {
    pub exprs: Vec<ExprParam>,
}

/// The names of the parameters, in order.
pub open spec fn param_names(ps: Seq<ExprParam>) -> Seq<Seq<char>> {
    ps.map_values(|p: ExprParam| p.name@)
}

/// `t` is what the parameter at position `i` is bound to when the call gives no
/// argument: its default expression if it has one, else a thunk that fails, when
/// forced, with the error that names the parameter and gives the function's signature.
pub open spec fn is_param_thunk(ps: Seq<ExprParam>, i: int, t: Thunk) -> bool {
    match t {
        Thunk::ParamDefault { name, expr } => ps[i].default == Some(expr) && name@ == ps[i].name@,
        Thunk::ParamNotBound(e) => ps[i].default is None && (*e matches ErrorKind::FunctionParameterNotBoundInCall(
            n,
            sig,
        ) && n@ == ps[i].name@ && is_signature_of(sig@, ps)),
        Thunk::Handle(_) => false,
    }
}

/// Whatever its position, a parameter with a default is bound to a thunk of that
/// default expression under its own name, and a parameter without one to the thunk
/// that fails when forced.
pub proof fn lemma_param_thunk_follows_default(ps: Seq<ExprParam>, i: int, t: Thunk)
    requires
        0 <= i < ps.len(),
        is_param_thunk(ps, i, t),
    ensures
        ps[i].default matches Some(e) ==> (t matches Thunk::ParamDefault { name, expr } && expr == e
            && name@ == ps[i].name@),
        ps[i].default is None ==> t is ParamNotBound,
{
}

/// Position `j` holds the first name that repeats an earlier one.
pub open spec fn is_first_repeat(names: Seq<Seq<char>>, j: int) -> bool {
    &&& 0 <= j < names.len()
    &&& names.take(j).no_duplicates()
    &&& names.take(j).contains(names[j])
}

/// `sig` is the signature of the parameters `ps`: each one's name and whether it has
/// a default.
pub open spec fn is_signature_of(sig: Seq<ParamSig>, ps: Seq<ExprParam>) -> bool {
    &&& sig.len() == ps.len()
    &&& forall|i: int|
        0 <= i < ps.len() ==> (#[trigger] sig[i]).name@ == ps[i].name@ && sig[i].has_default
            == (ps[i].default is Some)
}

impl ExprParams {
    /// The signature of the function: each parameter's name and whether it has a default.
    pub fn signature(&self) -> (res: Vec<ParamSig>)
        ensures
            is_signature_of(res@, self.exprs@),
    {
        let mut res: Vec<ParamSig> = Vec::new();
        let n = self.exprs.len();
        let mut i: usize = 0;
        while i < n
            invariant
                n == self.exprs@.len(),
                i <= n,
                res@.len() == i,
                forall|k: int|
                    0 <= k < i ==> (#[trigger] res@[k]).name@ == self.exprs@[k].name@
                        && res@[k].has_default == (self.exprs@[k].default is Some),
            decreases n - i,
        {
            let p = &self.exprs[i];
            res.push(ParamSig { name: p.name.clone(), has_default: p.default.is_some() });
            i = i + 1;
        }
        res
    }

    /// The error that forcing the thunk of the unbound parameter at `index` gives:
    /// the parameter's name and the function's signature.
    pub fn not_bound_error(&self, index: usize) -> (res: ErrorKind)
        requires
            index < self.exprs@.len(),
        ensures
            res matches ErrorKind::FunctionParameterNotBoundInCall(n, sig) && n@
                == self.exprs@[index as int].name@ && is_signature_of(sig@, self.exprs@),
    {
        ErrorKind::FunctionParameterNotBoundInCall(self.exprs[index].name.clone(), self.signature())
    }
}

/// The context of a function body when the call binds no argument: it branches from
/// `body_ctx`, and binds each parameter to its default value, or, where it has none,
/// to a thunk that fails when forced. A name that two parameters share is an error.
pub fn parse_default_function_call(body_ctx: Context, params: &ExprParams) -> (res: Result<
    Context,
    ErrorKind,
>)
    ensures
        match res {
            Ok(c) => {
                &&& param_names(params.exprs@).no_duplicates()
                &&& c.parent() == Some(body_ctx)
                &&& c.dollar_object() == body_ctx.dollar_object()
                &&& c.sup_this_objects() == body_ctx.sup_this_objects()
                &&& c.scope().dom() == param_names(params.exprs@).to_set()
                &&& forall|i: int|
                    0 <= i < params.exprs@.len() ==> is_param_thunk(
                        params.exprs@,
                        i,
                        c.scope()[#[trigger] param_names(params.exprs@)[i]],
                    )
                &&& forall|i: int|
                    0 <= i < params.exprs@.len() ==> (params.exprs@[i].default matches Some(e)
                        ==> (c.scope()[#[trigger] param_names(params.exprs@)[i]] matches Thunk::ParamDefault {
                        name,
                        expr,
                    } && expr == e && name@ == params.exprs@[i].name@))
                &&& forall|i: int|
                    0 <= i < params.exprs@.len() ==> (params.exprs@[i].default is None ==> c.scope()[
                        #[trigger] param_names(params.exprs@)[i]] is ParamNotBound)
                &&& forall|i: int|
                    0 <= i < params.exprs@.len() ==> c.lookup(#[trigger] param_names(
                        params.exprs@,
                    )[i]) == Some(c.scope()[param_names(params.exprs@)[i]])
                &&& forall|name: Seq<char>|
                    !param_names(params.exprs@).contains(name) ==> #[trigger] c.lookup(name)
                        == body_ctx.lookup(name)
                &&& forall|name: Seq<char>|
                    !param_names(params.exprs@).contains(name) ==> #[trigger] c.resolves_like(
                        body_ctx,
                        name,
                    )
            },
            Err(e) => exists|j: int|
                is_first_repeat(param_names(params.exprs@), j) && (e matches ErrorKind::DuplicateLocalVar(
                    n,
                ) && n@ == #[trigger] param_names(params.exprs@)[j]),
        },
{
    let ghost ps = params.exprs@;
    let ghost names = param_names(ps);
    let mut ctx = ContextBuilder::extend(body_ctx);
    let n = params.exprs.len();
    let mut i: usize = 0;
    while i < n
        invariant
            n == ps.len(),
            ps == params.exprs@,
            names == param_names(ps),
            i <= n,
            names.take(i as int).no_duplicates(),
            ctx.filled_names() == names.take(i as int).to_set(),
            ctx.bound().dom() == names.take(i as int).to_set(),
            forall|k: int| 0 <= k < i ==> is_param_thunk(ps, k, ctx.bound()[#[trigger] names[k]]),
            ctx.branch() == Some(body_ctx),
            ctx.dollar_object() == body_ctx.dollar_object(),
            ctx.sup_this_objects() == body_ctx.sup_this_objects(),
        decreases n - i,
    {
        let p = &params.exprs[i];
        let thunk = match p.default {
            Some(expr) => Thunk::ParamDefault { name: p.name.clone(), expr },
            None => Thunk::ParamNotBound(Rc::new(params.not_bound_error(i))),
        };
        match ctx.try_bind(p.name.clone(), thunk) {
            Ok(()) => {},
            Err(e) => {
                assert(is_first_repeat(names, i as int));
                return Err(e);
            },
        }
        proof {
            assert(names.take(i + 1) =~= names.take(i as int).push(names[i as int]));
            names.take(i as int).lemma_push_to_set_commute(names[i as int]);
            assert forall|k: int| 0 <= k < i + 1 implies is_param_thunk(
                ps,
                k,
                ctx.bound()[#[trigger] names[k]],
            ) by {
                if k < i {
                    assert(names.take(i as int)[k] == names[k]);
                    assert(names[k] != names[i as int]);
                }
            }
        }
        i = i + 1;
    }
    proof {
        assert(names.take(n as int) =~= names);
        assert forall|k: int| 0 <= k < n implies #[trigger] names[k] == ps[k].name@ by {}
        assert forall|k: int| 0 <= k < n implies is_param_thunk(ps, k, ctx.bound()[#[trigger] names[k]])
            && (ps[k].default matches Some(e) ==> (ctx.bound()[names[k]] matches Thunk::ParamDefault {
            name,
            expr,
        } && expr == e && name@ == ps[k].name@)) && (ps[k].default is None ==> ctx.bound()[names[k]] is ParamNotBound) by {
            lemma_param_thunk_follows_default(ps, k, ctx.bound()[names[k]]);
        }
    }
    Ok(ctx.build())
}

} // verus!
