//! Contexts: where an expression stands, lexically. A context holds the local
//! bindings of its own scope, the objects that `$`, `self` and `super` name, and a
//! branch point: the enclosing context to which lookups of every other name go.
use vstd::prelude::*;
use std::rc::Rc;
use vstd::std_specs::cmp::PartialEqSpecImpl;
use crate::error::{ErrorKind, UnboundName};
use crate::names::{lemma_is_the_sorted_listing, sort_names, sorted_listing};
use crate::scope::{
    Bindings, NameSet, name_set_clear, name_set_clone, name_set_insert, name_set_members, names_of, new_name_set,
    new_scope, no_bindings, scope_clone, scope_contains, scope_entries, scope_get, scope_insert,
    scope_is_empty, scope_names,
};
use crate::value::{ObjValue, SupThis, Thunk, rc_share};

verus! {

#[derive(Debug)]
struct ContextInternal {
    dollar: Option<ObjValue>,
    sup_this: Option<SupThis>,
    bindings: Bindings,
    branch_point: Option<Context>,
}

/// The lexical environment of an expression: local variables, the top-level object
/// (`$`), the current object (`self`) and its parent (`super`). Contexts are immutable
/// and shared: cloning one is cheap and gives the same context.
#[derive(Debug)]
pub struct Context(Rc<ContextInternal>);

/// `Rc::ptr_eq`: whether both point to the same allocation; the same allocation
/// holds the same context data.
#[verifier::external_body]
fn same_allocation(a: &Rc<ContextInternal>, b: &Rc<ContextInternal>) -> (res: bool)
    ensures
        res ==> *a == *b,
{
    Rc::ptr_eq(a, b)
}

/// Two contexts are equal when they are the same shared context (the same allocation),
/// not when they merely bind the same names.
impl PartialEq for Context {
    fn eq(&self, other: &Self) -> (res: bool)
        ensures
            res ==> *self == *other,
    {
        same_allocation(&self.0, &other.0)
    }
}

impl PartialEqSpecImpl for Context {
    open spec fn obeys_eq_spec() -> bool {
        false
    }

    open spec fn eq_spec(&self, other: &Self) -> bool {
        *self == *other
    }
}

impl Clone for Context {
    fn clone(&self) -> (res: Self)
        ensures
            res == *self,
    {
        Context(rc_share(&self.0))
    }
}

impl Context {
    /// The bindings of the context's own scope.
    pub closed spec fn scope(self) -> Map<Seq<char>, Thunk> {
        scope_entries(self.0.bindings)
    }

    /// The enclosing context to which lookups of names outside the own scope go.
    pub closed spec fn parent(self) -> Option<Context> {
        self.0.branch_point
    }

    /// The object that `$` names, if any.
    pub closed spec fn dollar_object(self) -> Option<ObjValue> {
        self.0.dollar
    }

    /// The objects that `super` and `self` name, if any.
    pub closed spec fn sup_this_objects(self) -> Option<SupThis> {
        self.0.sup_this
    }

    /// What `name` is bound to: in the own scope, else in the branch point's context.
    pub open spec fn lookup(self, name: Seq<char>) -> Option<Thunk>
        decreases self,
    {
        if self.scope().contains_key(name) {
            Some(self.scope()[name])
        } else {
            match self.parent() {
                Some(p) => p.lookup(name),
                None => None,
            }
        }
    }

    /// The last context of the chain of branch points: the outermost scope.
    pub open spec fn outermost(self) -> Context
        decreases self,
    {
        match self.parent() {
            Some(p) => p.outermost(),
            None => self,
        }
    }

    /// How many branch points lie behind the context.
    pub open spec fn depth(self) -> nat
        decreases self,
    {
        match self.parent() {
            Some(p) => 1 + p.depth(),
            None => 0,
        }
    }

    /// The context and its branch points in turn, ending with the outermost context.
    pub open spec fn chain(self) -> Seq<Context>
        decreases self,
    {
        match self.parent() {
            Some(p) => seq![self] + p.chain(),
            None => seq![self],
        }
    }

    /// `find_binding(name)` comes out alike in this context and in `other`: the same
    /// thunk, or on both the error for `name` with the same names of the outermost scope.
    pub open spec fn resolves_like(self, other: Context, name: Seq<char>) -> bool {
        &&& self.lookup(name) == other.lookup(name)
        &&& self.lookup(name) is None ==> self.outermost().scope().dom()
            == other.outermost().scope().dom()
    }

    /// The object that `$` names.
    pub fn dollar(&self) -> (res: Option<ObjValue>)
        ensures
            res == self.dollar_object(),
    {
        self.0.dollar
    }

    /// The object that `$` names, or an error outside of any object.
    pub fn try_dollar(&self) -> (res: Result<ObjValue, ErrorKind>)
        ensures
            match self.dollar_object() {
                Some(d) => res matches Ok(r) && r == d,
                None => res matches Err(ErrorKind::CantUseSelfSupOutsideOfObject),
            },
    {
        match self.0.dollar {
            Some(d) => Ok(d),
            None => Err(ErrorKind::CantUseSelfSupOutsideOfObject),
        }
    }

    /// The object that `self` names.
    pub fn this(&self) -> (res: Option<ObjValue>)
        ensures
            match self.sup_this_objects() {
                Some(st) => res == Some(st.this),
                None => res is None,
            },
    {
        match &self.0.sup_this {
            Some(st) => Some(st.this()),
            None => None,
        }
    }

    /// The object that `self` names, or an error outside of any object.
    pub fn try_this(&self) -> (res: Result<ObjValue, ErrorKind>)
        ensures
            match self.sup_this_objects() {
                Some(st) => res matches Ok(r) && r == st.this,
                None => res matches Err(ErrorKind::CantUseSelfSupOutsideOfObject),
            },
    {
        match &self.0.sup_this {
            Some(st) => Ok(st.this()),
            None => Err(ErrorKind::CantUseSelfSupOutsideOfObject),
        }
    }

    /// The objects that `super` and `self` name.
    pub fn sup_this(&self) -> (res: Option<SupThis>)
        ensures
            res == self.sup_this_objects(),
    {
        self.0.sup_this
    }

    /// The objects that `super` and `self` name, or an error outside of any object.
    pub fn try_sup_this(&self) -> (res: Result<SupThis, ErrorKind>)
        ensures
            match self.sup_this_objects() {
                Some(st) => res matches Ok(r) && r == st,
                None => res matches Err(ErrorKind::CantUseSelfSupOutsideOfObject),
            },
    {
        match self.0.sup_this {
            Some(st) => Ok(st),
            None => Err(ErrorKind::CantUseSelfSupOutsideOfObject),
        }
    }

    /// The thunk bound to `name` in this context or, failing that, in the contexts of
    /// its branch points in turn. For a name bound nowhere, the error gives the names of
    /// the outermost scope in order (from them, similar names can be suggested).
    pub fn find_binding(&self, name: &str) -> (res: Result<Thunk, UnboundName>)
        ensures
            match self.lookup(name@) {
                Some(t) => res matches Ok(r) && r == t,
                None => res matches Err(e) && e.name@ == name@ && names_of(e.outermost_names@)
                    == sorted_listing(self.outermost().scope().dom()),
            },
        decreases self,
    {
        if let Some(val) = scope_get(&self.0.bindings, name) {
            return Ok(val.clone());
        }
        if let Some(bp) = &self.0.branch_point {
            return bp.find_binding(name);
        }
        let names = sort_names(scope_names(&self.0.bindings));
        proof {
            lemma_is_the_sorted_listing(names_of(names@), self.scope().dom());
        }
        Err(UnboundName { name: name.to_owned(), outermost_names: names })
    }

    /// Whether `name` is bound in the context's own scope (branch points are not asked).
    pub fn contains_binding(&self, name: &str) -> (res: bool)
        ensures
            res == self.scope().contains_key(name@),
    {
        scope_contains(&self.0.bindings, name)
    }

    /// A context with an empty own scope that finds every name as this one does:
    /// this context itself when its scope is empty, else a new one branching from it.
    pub fn branch_point(self) -> (res: Self)
        ensures
            res.scope() == no_bindings(),
            res.dollar_object() == self.dollar_object(),
            res.sup_this_objects() == self.sup_this_objects(),
            forall|n: Seq<char>| #[trigger] res.lookup(n) == self.lookup(n),
            forall|n: Seq<char>| #[trigger] res.resolves_like(self, n),
            self.scope() == no_bindings() ==> res == self,
            self.scope() != no_bindings() ==> res.parent() == Some(self),
    {
        if scope_is_empty(&self.0.bindings) {
            proof {
                assert(self.scope() =~= no_bindings());
            }
            self
        } else {
            let ghost old_self = self;
            let res = ContextBuilder::extend(self).build();
            assert forall|n: Seq<char>| #[trigger] res.lookup(n) == old_self.lookup(n) by {
                assert(!res.scope().contains_key(n));
            }
            res
        }
    }
}

/// The bindings, objects and branch point from which a context is built.
pub struct ContextBuilder {
    dollar: Option<ObjValue>,
    sup_this: Option<SupThis>,
    bindings: Bindings,
    filled: NameSet,
    branch_point: Option<Context>,
}

impl ContextBuilder {
    /// The bindings made so far.
    pub closed spec fn bound(self) -> Map<Seq<char>, Thunk> {
        scope_entries(self.bindings)
    }

    /// The names bound by `try_bind` since the builder was made or last committed.
    pub closed spec fn filled_names(self) -> Set<Seq<char>> {
        name_set_members(self.filled)
    }

    /// The object that `$` will name.
    pub closed spec fn dollar_object(self) -> Option<ObjValue> {
        self.dollar
    }

    /// The objects that `super` and `self` will name.
    pub closed spec fn sup_this_objects(self) -> Option<SupThis> {
        self.sup_this
    }

    /// The context to which the built context will send lookups of other names.
    pub closed spec fn branch(self) -> Option<Context> {
        self.branch_point
    }

    /// A builder of a context with no bindings, no objects and no branch point.
    pub fn new() -> (res: Self)
        ensures
            res.bound() == no_bindings(),
            res.filled_names() == Set::<Seq<char>>::empty(),
            res.dollar_object() is None,
            res.sup_this_objects() is None,
            res.branch() is None,
    {
        ContextBuilder {
            dollar: None,
            sup_this: None,
            bindings: new_scope(),
            filled: new_name_set(),
            branch_point: None,
        }
    }

    /// A builder that starts from a copy of the parent's own bindings, objects and
    /// branch point.
    pub fn extend_fast(parent: Context) -> (res: Self)
        ensures
            res.bound() == parent.scope(),
            res.filled_names() == Set::<Seq<char>>::empty(),
            res.dollar_object() == parent.dollar_object(),
            res.sup_this_objects() == parent.sup_this_objects(),
            res.branch() == parent.parent(),
    {
        let bp = match &parent.0.branch_point {
            Some(c) => Some(c.clone()),
            None => None,
        };
        ContextBuilder {
            dollar: parent.0.dollar,
            sup_this: parent.0.sup_this,
            bindings: scope_clone(&parent.0.bindings),
            filled: new_name_set(),
            branch_point: bp,
        }
    }

    /// A builder with no bindings of its own that takes the parent's objects and
    /// branches from the parent.
    pub fn extend(parent: Context) -> (res: Self)
        ensures
            res.bound() == no_bindings(),
            res.filled_names() == Set::<Seq<char>>::empty(),
            res.dollar_object() == parent.dollar_object(),
            res.sup_this_objects() == parent.sup_this_objects(),
            res.branch() == Some(parent),
    {
        ContextBuilder {
            dollar: parent.0.dollar,
            sup_this: parent.0.sup_this,
            bindings: new_scope(),
            filled: new_name_set(),
            branch_point: Some(parent),
        }
    }

    /// Binds `name` to `value`, replacing an earlier binding of it.
    pub fn bind(&mut self, name: String, value: Thunk)
        ensures
            final(self).bound() == old(self).bound().insert(name@, value),
            final(self).filled_names() == old(self).filled_names(),
            final(self).dollar_object() == old(self).dollar_object(),
            final(self).sup_this_objects() == old(self).sup_this_objects(),
            final(self).branch() == old(self).branch(),
    {
        scope_insert(&mut self.bindings, name, value);
    }

    /// Ends a group of bindings: after it, `try_bind` may bind again, and so shadow,
    /// the names bound before.
    pub fn commit(self) -> (res: Self)
        ensures
            res.filled_names() == Set::<Seq<char>>::empty(),
            res.bound() == self.bound(),
            res.dollar_object() == self.dollar_object(),
            res.sup_this_objects() == self.sup_this_objects(),
            res.branch() == self.branch(),
    {
        let mut this = self;
        name_set_clear(&mut this.filled);
        this
    }

    /// Binds `name` to `value` unless `try_bind` bound it since the builder was made
    /// or last committed, in which case nothing changes and the error names it.
    pub fn try_bind(&mut self, name: String, value: Thunk) -> (res: Result<(), ErrorKind>)
        ensures
            old(self).filled_names().contains(name@) ==> {
                &&& res matches Err(ErrorKind::DuplicateLocalVar(n)) && n@ == name@
                &&& final(self).bound() == old(self).bound()
                &&& final(self).filled_names() == old(self).filled_names()
                &&& final(self).dollar_object() == old(self).dollar_object()
                &&& final(self).sup_this_objects() == old(self).sup_this_objects()
                &&& final(self).branch() == old(self).branch()
            },
            !old(self).filled_names().contains(name@) ==> {
                &&& res is Ok
                &&& final(self).bound() == old(self).bound().insert(name@, value)
                &&& final(self).filled_names() == old(self).filled_names().insert(name@)
                &&& final(self).dollar_object() == old(self).dollar_object()
                &&& final(self).sup_this_objects() == old(self).sup_this_objects()
                &&& final(self).branch() == old(self).branch()
            },
    {
        if !name_set_insert(&mut self.filled, name.clone()) {
            proof {
                assert(name_set_members(self.filled) =~= name_set_members(old(self).filled));
            }
            return Err(ErrorKind::DuplicateLocalVar(name));
        }
        self.bind(name, value);
        Ok(())
    }

    /// The context of the bindings, objects and branch point.
    pub fn build(self) -> (res: Context)
        ensures
            res.scope() == self.bound(),
            res.dollar_object() == self.dollar_object(),
            res.sup_this_objects() == self.sup_this_objects(),
            res.parent() == self.branch(),
    {
        Context(
            Rc::new(
                ContextInternal {
                    dollar: self.dollar,
                    sup_this: self.sup_this,
                    bindings: self.bindings,
                    branch_point: self.branch_point,
                },
            ),
        )
    }

    /// The context of an object's body: `super` and `self` name the objects of `st`,
    /// and `$` names `self` unless an enclosing object already set it.
    pub fn build_sup_this(self, st: SupThis) -> (res: Context)
        ensures
            res.sup_this_objects() == Some(st),
            self.dollar_object() is None ==> res.dollar_object() == Some(st.this),
            self.dollar_object() is Some ==> res.dollar_object() == self.dollar_object(),
            res.scope() == self.bound(),
            res.parent() == self.branch(),
    {
        let mut this = self;
        if this.dollar.is_none() {
            this.dollar = Some(st.this());
        }
        this.sup_this = Some(st);
        this.build()
    }
}

impl Clone for ContextBuilder {
    fn clone(&self) -> (res: Self)
        ensures
            res.bound() == self.bound(),
            res.filled_names() == self.filled_names(),
            res.dollar_object() == self.dollar_object(),
            res.sup_this_objects() == self.sup_this_objects(),
            res.branch() == self.branch(),
    {
        let bp = match &self.branch_point {
            Some(c) => Some(c.clone()),
            None => None,
        };
        ContextBuilder {
            dollar: self.dollar,
            sup_this: self.sup_this,
            bindings: scope_clone(&self.bindings),
            filled: name_set_clone(&self.filled),
            branch_point: bp,
        }
    }
}

impl Default for ContextBuilder {
    fn default() -> (res: Self)
        ensures
            res.bound() == no_bindings(),
            res.filled_names() == Set::<Seq<char>>::empty(),
            res.dollar_object() is None,
            res.sup_this_objects() is None,
            res.branch() is None,
    {
        Self::new()
    }
}

} // verus!
