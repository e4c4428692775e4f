//! What holds of every context: how lookups see the scopes and branch points.
use vstd::prelude::*;
use crate::ctx::Context;
use crate::scope::no_bindings;

verus! {

/// A name bound in a context's own scope is found there: it shadows whatever the
/// branch points bind to the same name.
pub proof fn lemma_own_binding_shadows(c: Context, name: Seq<char>)
    requires
        c.scope().contains_key(name),
    ensures
        c.lookup(name) == Some(c.scope()[name]),
{
}

/// A name that a context's own scope does not bind is looked up in its branch point,
/// and both contexts have the same outermost scope.
pub proof fn lemma_other_names_go_to_branch_point(c: Context, p: Context, name: Seq<char>)
    requires
        c.parent() == Some(p),
        !c.scope().contains_key(name),
    ensures
        c.lookup(name) == p.lookup(name),
        c.outermost() == p.outermost(),
        c.resolves_like(p, name),
{
}

/// A context that branches from `parent` with an empty scope (what `extend` builds)
/// and one that copies the parent's own scope and branch point (what `extend_fast`
/// builds) find every name as the parent does, and share its outermost scope.
pub proof fn lemma_extend_forms_agree(parent: Context, branched: Context, copied: Context, name: Seq<char>)
    requires
        branched.scope() == no_bindings(),
        branched.parent() == Some(parent),
        copied.scope() == parent.scope(),
        copied.parent() == parent.parent(),
    ensures
        branched.lookup(name) == parent.lookup(name),
        copied.lookup(name) == parent.lookup(name),
        branched.outermost() == parent.outermost(),
        copied.outermost().scope() == parent.outermost().scope(),
        branched.resolves_like(parent, name),
        copied.resolves_like(parent, name),
{
}

/// Two contexts with the same own scope and the same branch point (such as the
/// contexts built from a builder before and after `commit`) resolve every name alike.
pub proof fn lemma_same_scope_and_branch_resolve_alike(a: Context, b: Context, name: Seq<char>)
    requires
        a.scope() == b.scope(),
        a.parent() == b.parent(),
    ensures
        a.lookup(name) == b.lookup(name),
        a.outermost().scope() == b.outermost().scope(),
        a.resolves_like(b, name),
{
}

/// The chain of a context starts at the context, steps from each context to its
/// branch point, and ends at the outermost context, which has no branch point.
pub proof fn lemma_chain_shape(c: Context)
    ensures
        c.chain().len() >= 1,
        c.chain()[0] == c,
        forall|k: int|
            0 <= k < c.chain().len() - 1 ==> (#[trigger] c.chain()[k]).parent() == Some(
                c.chain()[k + 1],
            ),
        c.chain().last().parent() is None,
        c.chain().last() == c.outermost(),
    decreases c.depth(),
{
    if let Some(p) = c.parent() {
        lemma_chain_shape(p);
        assert forall|k: int| 0 <= k < c.chain().len() - 1 implies (#[trigger] c.chain()[k]).parent()
            == Some(c.chain()[k + 1]) by {
            if k > 0 {
                assert(c.chain()[k] == p.chain()[k - 1]);
                assert(c.chain()[k + 1] == p.chain()[k]);
            }
        }
        assert(c.chain().last() == p.chain().last());
    }
}

/// A lookup finds what the first context of the chain that binds the name in its own
/// scope binds it to, and finds nothing when no context of the chain binds it: no name
/// is ever found that no scope binds.
pub proof fn lemma_lookup_is_first_binding_in_chain(c: Context, name: Seq<char>)
    ensures
        c.lookup(name) is None <==> forall|i: int|
            0 <= i < c.chain().len() ==> !(#[trigger] c.chain()[i]).scope().contains_key(name),
        c.lookup(name) matches Some(t) ==> exists|i: int|
            0 <= i < c.chain().len() && (#[trigger] c.chain()[i]).scope().contains_key(name)
                && c.chain()[i].scope()[name] == t && forall|j: int|
                0 <= j < i ==> !(#[trigger] c.chain()[j]).scope().contains_key(name),
    decreases c.depth(),
{
    lemma_chain_shape(c);
    if c.scope().contains_key(name) {
        assert(c.chain()[0] == c);
    } else {
        match c.parent() {
            Some(p) => {
                lemma_other_names_go_to_branch_point(c, p, name);
                lemma_lookup_is_first_binding_in_chain(p, name);
                assert forall|i: int| 0 < i < c.chain().len() implies #[trigger] c.chain()[i]
                    == p.chain()[i - 1] by {}
                if c.lookup(name) is None {
                    assert forall|i: int| 0 <= i < c.chain().len() implies !(
                    #[trigger] c.chain()[i]).scope().contains_key(name) by {
                        if i > 0 {
                            assert(c.chain()[i] == p.chain()[i - 1]);
                        }
                    }
                } else {
                    let t = c.lookup(name)->0;
                    let i0 = choose|i: int|
                        0 <= i < p.chain().len() && (#[trigger] p.chain()[i]).scope().contains_key(name)
                            && p.chain()[i].scope()[name] == t && forall|j: int|
                            0 <= j < i ==> !(#[trigger] p.chain()[j]).scope().contains_key(name);
                    assert(c.chain()[i0 + 1] == p.chain()[i0]);
                    assert forall|j: int| 0 <= j < i0 + 1 implies !(
                    #[trigger] c.chain()[j]).scope().contains_key(name) by {
                        if j > 0 {
                            assert(c.chain()[j] == p.chain()[j - 1]);
                        }
                    }
                    assert(p.chain()[i0].scope().contains_key(name));
                }
            },
            None => {
                assert(c.chain().len() == 1);
            },
        }
    }
}

/// In a context without a branch point, a name its own scope does not bind is found
/// nowhere.
pub proof fn lemma_unbound_in_outermost_is_none(c: Context, name: Seq<char>)
    requires
        c.parent() is None,
        !c.scope().contains_key(name),
    ensures
        c.lookup(name) is None,
{
}

} // verus!
