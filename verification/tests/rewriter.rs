use butcher::type_expr::GenericArgument;
use butcher::type_expr::GenericArgumentList;
use butcher::type_expr::PathArguments;
use butcher::type_expr::PathSegment;
use butcher::type_expr::SegmentList;
use butcher::type_expr::TypeBound;
use butcher::type_expr::BoundList;
use butcher::type_expr::TypeExpr;
use butcher::type_expr::TypeExprList;

fn plain_segment(name: &str) -> PathSegment {
    PathSegment { ident: name.to_string(), arguments: PathArguments::Plain }
}

fn path(name: &str) -> TypeExpr {
    TypeExpr::Path(
        None,
        SegmentList::Cons(plain_segment(name), Box::new(SegmentList::Nil)),
    )
}

fn path_with_one_argument(name: &str, arg: TypeExpr) -> TypeExpr {
    TypeExpr::Path(
        None,
        SegmentList::Cons(
            PathSegment {
                ident: name.to_string(),
                arguments: PathArguments::AngleBracketed(GenericArgumentList::Cons(
                    Box::new(GenericArgument::Type(Box::new(arg))),
                    Box::new(GenericArgumentList::Nil),
                )),
            },
            Box::new(SegmentList::Nil),
        ),
    )
}

fn self_marker() -> TypeExpr {
    path("Self")
}

#[test]
fn simple() {
    let got = self_marker().replace(&path("Foo")).unwrap();
    assert_eq!(got, path("Foo"));

    let rep = path_with_one_argument("Bar", path("Foo"));
    let got = self_marker().replace(&rep).unwrap();
    assert_eq!(got, path_with_one_argument("Bar", path("Foo")));
}

#[test]
fn generic() {
    let got = path_with_one_argument("Vec", self_marker())
        .replace(&path("Foo"))
        .unwrap();
    assert_eq!(got, path_with_one_argument("Vec", path("Foo")));

    let got = path_with_one_argument("Vec", path_with_one_argument("Vec", self_marker()))
        .replace(&path("Foo"))
        .unwrap();
    assert_eq!(
        got,
        path_with_one_argument("Vec", path_with_one_argument("Vec", path("Foo")))
    );
}

#[test]
fn impl_trait() {
    let left = TypeExpr::ImplTrait(BoundList::Cons(
        TypeBound::Trait(Box::new(path_with_one_argument("AsRef", self_marker()))),
        Box::new(BoundList::Nil),
    ));
    let got = left.replace(&path("Foo")).unwrap();
    assert_eq!(
        got,
        TypeExpr::ImplTrait(BoundList::Cons(
            TypeBound::Trait(Box::new(path_with_one_argument("AsRef", path("Foo")))),
            Box::new(BoundList::Nil),
        ))
    );
}

#[test]
fn tuple() {
    let left = TypeExpr::Tuple(TypeExprList::Cons(
        Box::new(self_marker()),
        Box::new(TypeExprList::Cons(
            Box::new(path("usize")),
            Box::new(TypeExprList::Nil),
        )),
    ));
    let got = left.replace(&path("Foo")).unwrap();
    assert_eq!(
        got,
        TypeExpr::Tuple(TypeExprList::Cons(
            Box::new(path("Foo")),
            Box::new(TypeExprList::Cons(
                Box::new(path("usize")),
                Box::new(TypeExprList::Nil),
            )),
        ))
    );
}

#[test]
fn unrecognized_form_is_refused() {
    let left = TypeExpr::Tuple(TypeExprList::Cons(
        Box::new(TypeExpr::Unsupported),
        Box::new(TypeExprList::Nil),
    ));
    assert!(left.replace(&path("Foo")).is_err());
}

#[test]
fn reference_and_slice_forms_descend() {
    let left = TypeExpr::Reference(
        Some("a".to_string()),
        Box::new(TypeExpr::Slice(Box::new(self_marker()))),
    );
    let got = left.replace(&path("Foo")).unwrap();
    assert_eq!(
        got,
        TypeExpr::Reference(
            Some("a".to_string()),
            Box::new(TypeExpr::Slice(Box::new(path("Foo")))),
        )
    );
}
