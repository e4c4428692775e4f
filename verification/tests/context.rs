use jrsonnet::ctx::{Context, ContextBuilder};
use jrsonnet::error::{ErrorKind, UnboundName};
use jrsonnet::value::{ObjValue, SupThis, Thunk};

fn ctx_with(names: &[(&str, u64)]) -> Context {
    let mut b = ContextBuilder::new();
    for (n, v) in names {
        b.bind(n.to_string(), Thunk::Handle(*v));
    }
    b.build()
}

#[test]
fn bound_name_is_found_again() {
    let c = ctx_with(&[("x", 1), ("y", 2)]);
    assert_eq!(c.find_binding("x"), Ok(Thunk::Handle(1)));
    assert_eq!(c.find_binding("y"), Ok(Thunk::Handle(2)));
}

#[test]
fn rebinding_replaces_the_earlier_value() {
    let mut b = ContextBuilder::new();
    b.bind("x".to_string(), Thunk::Handle(1));
    b.bind("x".to_string(), Thunk::Handle(5));
    let c = b.build();
    assert_eq!(c.find_binding("x"), Ok(Thunk::Handle(5)));
}

#[test]
fn inner_scope_shadows_and_defers() {
    let parent = ctx_with(&[("x", 1), ("y", 2)]);
    let mut b = ContextBuilder::extend(parent.clone());
    b.bind("x".to_string(), Thunk::Handle(10));
    let child = b.build();
    assert_eq!(child.find_binding("x"), Ok(Thunk::Handle(10)));
    assert_eq!(child.find_binding("y"), Ok(Thunk::Handle(2)));
    assert_eq!(parent.find_binding("x"), Ok(Thunk::Handle(1)));
}

#[test]
fn unbound_name_error_lists_outermost_names() {
    let outer = ctx_with(&[("alpha", 1), ("beta", 2)]);
    let mut b = ContextBuilder::extend(outer);
    b.bind("gamma".to_string(), Thunk::Handle(3));
    let inner = b.build();
    assert_eq!(
        inner.find_binding("alpah"),
        Err(UnboundName {
            name: "alpah".to_string(),
            outermost_names: vec!["alpha".to_string(), "beta".to_string()],
        })
    );
}

#[test]
fn unbound_name_in_empty_context() {
    let c = ContextBuilder::new().build();
    assert_eq!(
        c.find_binding("x"),
        Err(UnboundName { name: "x".to_string(), outermost_names: vec![] })
    );
}

#[test]
fn try_bind_refuses_duplicates_until_commit() {
    let mut b = ContextBuilder::new();
    assert_eq!(b.try_bind("a".to_string(), Thunk::Handle(1)), Ok(()));
    assert_eq!(b.try_bind("b".to_string(), Thunk::Handle(2)), Ok(()));
    assert_eq!(
        b.try_bind("a".to_string(), Thunk::Handle(3)),
        Err(ErrorKind::DuplicateLocalVar("a".to_string()))
    );
    let mut b = b.commit();
    assert_eq!(b.try_bind("a".to_string(), Thunk::Handle(4)), Ok(()));
    let c = b.build();
    assert_eq!(c.find_binding("a"), Ok(Thunk::Handle(4)));
    assert_eq!(c.find_binding("b"), Ok(Thunk::Handle(2)));
}

#[test]
fn refused_try_bind_changes_nothing() {
    let mut b = ContextBuilder::new();
    b.try_bind("a".to_string(), Thunk::Handle(1)).unwrap();
    assert!(b.try_bind("a".to_string(), Thunk::Handle(9)).is_err());
    assert_eq!(b.build().find_binding("a"), Ok(Thunk::Handle(1)));
}

#[test]
fn bind_does_not_count_for_try_bind() {
    let mut b = ContextBuilder::new();
    b.bind("a".to_string(), Thunk::Handle(1));
    assert_eq!(b.try_bind("a".to_string(), Thunk::Handle(2)), Ok(()));
    assert_eq!(b.build().find_binding("a"), Ok(Thunk::Handle(2)));
}

#[test]
fn objects_outside_of_object_are_errors() {
    let c = ContextBuilder::default().build();
    assert_eq!(c.dollar(), None);
    assert_eq!(c.this(), None);
    assert_eq!(c.sup_this(), None);
    assert_eq!(c.try_dollar(), Err(ErrorKind::CantUseSelfSupOutsideOfObject));
    assert_eq!(c.try_this(), Err(ErrorKind::CantUseSelfSupOutsideOfObject));
    assert_eq!(c.try_sup_this(), Err(ErrorKind::CantUseSelfSupOutsideOfObject));
}

#[test]
fn build_sup_this_sets_dollar_once() {
    let st = SupThis { sup: None, this: ObjValue(7) };
    let outer = ContextBuilder::new().build_sup_this(st);
    assert_eq!(outer.dollar(), Some(ObjValue(7)));
    assert_eq!(outer.this(), Some(ObjValue(7)));
    assert_eq!(outer.try_this(), Ok(ObjValue(7)));
    assert_eq!(outer.try_sup_this(), Ok(st));

    let st2 = SupThis { sup: Some(ObjValue(7)), this: ObjValue(8) };
    let inner = ContextBuilder::extend(outer).build_sup_this(st2);
    assert_eq!(inner.try_dollar(), Ok(ObjValue(7)));
    assert_eq!(inner.this(), Some(ObjValue(8)));
    assert_eq!(inner.sup_this(), Some(st2));
    assert_eq!(st2.sup(), Some(ObjValue(7)));
    assert_eq!(st2.this(), ObjValue(8));
}

#[test]
fn extend_and_extend_fast_agree() {
    let root = ctx_with(&[("r", 1)]);
    let mut b = ContextBuilder::extend(root);
    b.bind("x".to_string(), Thunk::Handle(2));
    let parent = b.build_sup_this(SupThis { sup: None, this: ObjValue(3) });

    let branched = ContextBuilder::extend(parent.clone()).build();
    let copied = ContextBuilder::extend_fast(parent.clone()).build();
    for name in ["r", "x", "missing"] {
        assert_eq!(branched.find_binding(name), parent.find_binding(name));
        assert_eq!(copied.find_binding(name), parent.find_binding(name));
    }
    assert!(copied.contains_binding("x"));
    assert!(!branched.contains_binding("x"));
    assert_eq!(copied.dollar(), Some(ObjValue(3)));
    assert_eq!(branched.this(), Some(ObjValue(3)));
}

#[test]
fn extend_fast_leaves_parent_unchanged() {
    let parent = ctx_with(&[("x", 1)]);
    let mut b = ContextBuilder::extend_fast(parent.clone());
    b.bind("x".to_string(), Thunk::Handle(2));
    let child = b.build();
    assert_eq!(child.find_binding("x"), Ok(Thunk::Handle(2)));
    assert_eq!(parent.find_binding("x"), Ok(Thunk::Handle(1)));
}

#[test]
fn extend_fast_starts_without_filled_names() {
    let mut b = ContextBuilder::new();
    b.try_bind("x".to_string(), Thunk::Handle(1)).unwrap();
    let parent = b.build();
    let mut b = ContextBuilder::extend_fast(parent);
    assert_eq!(b.try_bind("x".to_string(), Thunk::Handle(2)), Ok(()));
}

#[test]
fn contains_binding_sees_only_own_scope() {
    let parent = ctx_with(&[("x", 1)]);
    let mut b = ContextBuilder::extend(parent.clone());
    b.bind("y".to_string(), Thunk::Handle(2));
    let child = b.build();
    assert!(child.contains_binding("y"));
    assert!(!child.contains_binding("x"));
    assert!(child.find_binding("x").is_ok());
    assert!(parent.contains_binding("x"));
}

#[test]
fn branch_point_of_empty_scope_is_itself() {
    let parent = ctx_with(&[("x", 1)]);
    let empty = ContextBuilder::extend(parent).build();
    let same = empty.clone().branch_point();
    assert!(same == empty);
}

#[test]
fn branch_point_keeps_lookups() {
    let c = ctx_with(&[("x", 1), ("y", 2)]);
    let b = c.clone().branch_point();
    assert!(!(b == c));
    assert!(!b.contains_binding("x"));
    assert_eq!(b.find_binding("x"), Ok(Thunk::Handle(1)));
    assert_eq!(b.find_binding("y"), Ok(Thunk::Handle(2)));
    assert!(b.find_binding("z").is_err());
}

#[test]
fn clone_is_the_same_context() {
    let c = ctx_with(&[("x", 1)]);
    let d = c.clone();
    assert!(c == d);
    let e = ctx_with(&[("x", 1)]);
    assert!(!(c == e));
}

#[test]
fn cloned_builder_is_independent_and_keeps_filled_names() {
    let mut b = ContextBuilder::new();
    b.try_bind("x".to_string(), Thunk::Handle(1)).unwrap();
    let mut c = b.clone();
    assert_eq!(
        c.try_bind("x".to_string(), Thunk::Handle(2)),
        Err(ErrorKind::DuplicateLocalVar("x".to_string()))
    );
    c.bind("y".to_string(), Thunk::Handle(3));
    let from_clone = c.build();
    let from_original = b.build();
    assert_eq!(from_clone.find_binding("y"), Ok(Thunk::Handle(3)));
    assert!(from_original.find_binding("y").is_err());
    assert_eq!(from_original.find_binding("x"), Ok(Thunk::Handle(1)));
}

#[test]
fn commit_changes_no_binding() {
    let outer = ctx_with(&[("o", 1)]);
    let mut b = ContextBuilder::extend(outer);
    b.try_bind("x".to_string(), Thunk::Handle(2)).unwrap();
    let before = b.clone().build();
    let after = b.commit().build();
    for name in ["o", "x", "missing"] {
        assert_eq!(before.find_binding(name), after.find_binding(name));
        assert_eq!(before.contains_binding(name), after.contains_binding(name));
    }
}

#[test]
fn outermost_names_come_sorted() {
    let c = ctx_with(&[("zzzz", 1), ("abxc", 2), ("abcy", 3), ("ab", 4), ("b", 5), ("\u{e9}", 6)]);
    let expected: Vec<String> =
        ["ab", "abcy", "abxc", "b", "zzzz", "\u{e9}"].iter().map(|s| s.to_string()).collect();
    for _ in 0..3 {
        assert_eq!(
            c.find_binding("abcx"),
            Err(UnboundName { name: "abcx".to_string(), outermost_names: expected.clone() })
        );
    }
}
