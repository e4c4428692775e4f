use jrsonnet::kind::{ValKind, ValType};
use jrsonnet::span::Span;

#[test]
fn each_type_has_its_kind() {
    let pairs = [
        (ValType::Null, ValKind::Null),
        (ValType::Bool, ValKind::Bool),
        (ValType::Num, ValKind::Num),
        (ValType::Str, ValKind::Str),
        (ValType::Arr, ValKind::Arr),
        (ValType::Obj, ValKind::Obj),
        (ValType::Func, ValKind::Func),
    ];
    for (t, k) in pairs {
        assert_eq!(ValKind::from(t), k);
    }
}

#[test]
fn span_holds_its_offsets() {
    let s = Span(3, 9);
    let t = s;
    assert_eq!((t.0, t.1), (3, 9));
    assert_eq!(format!("{:?}", s), "Span(3, 9)");
}
