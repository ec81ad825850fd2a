use butcher::reader::RawBody;
use butcher::reader::RawDeclaration;
use butcher::signature::GenericParam;
use butcher::signature::Generics;
use butcher::signature::arguments_from_params;
use butcher::signature::create_type_signature;
use butcher::signature::generic_param;
use butcher::type_expr::GenericArgument;
use butcher::type_expr::GenericArgumentList;
use butcher::type_expr::PathArguments;
use butcher::type_expr::PathSegment;
use butcher::type_expr::SegmentList;
use butcher::type_expr::TypeExpr;

fn path(name: &str) -> TypeExpr {
    TypeExpr::Path(
        None,
        SegmentList::Cons(
            PathSegment { ident: name.to_string(), arguments: PathArguments::Plain },
            Box::new(SegmentList::Nil),
        ),
    )
}

fn argument_list(args: Vec<GenericArgument>) -> GenericArgumentList {
    let mut out = GenericArgumentList::Nil;
    for a in args.into_iter().rev() {
        out = GenericArgumentList::Cons(Box::new(a), Box::new(out));
    }
    out
}

fn applied(name: &str, args: Vec<GenericArgument>) -> TypeExpr {
    TypeExpr::Path(
        None,
        SegmentList::Cons(
            PathSegment {
                ident: name.to_string(),
                arguments: PathArguments::AngleBracketed(argument_list(args)),
            },
            Box::new(SegmentList::Nil),
        ),
    )
}

fn declaration(name: &str, params: Vec<GenericParam>) -> RawDeclaration {
    RawDeclaration {
        ident: name.to_string(),
        generics: Generics { bracketed: !params.is_empty(), params },
        body: RawBody::Record(vec![]),
    }
}

#[test]
fn test() {
    // struct Foo<A, B>;  gives  Foo<A, B>
    let input = declaration(
        "Foo",
        vec![GenericParam::Type("A".to_string()), GenericParam::Type("B".to_string())],
    );
    let expected = applied(
        "Foo",
        vec![
            GenericArgument::Type(Box::new(path("A"))),
            GenericArgument::Type(Box::new(path("B"))),
        ],
    );
    assert_eq!(create_type_signature(&input), expected);

    // struct Foo<'a, A: 'a, B: ToOwned>;  gives  Foo<'a, A, B>
    let input = declaration(
        "Foo",
        vec![
            GenericParam::Lifetime("a".to_string()),
            GenericParam::Type("A".to_string()),
            GenericParam::Type("B".to_string()),
        ],
    );
    let expected = applied(
        "Foo",
        vec![
            GenericArgument::Lifetime("a".to_string()),
            GenericArgument::Type(Box::new(path("A"))),
            GenericArgument::Type(Box::new(path("B"))),
        ],
    );
    assert_eq!(create_type_signature(&input), expected);

    // struct Vec<T: Clone>;  gives  Vec<T>
    let input = declaration("Vec", vec![GenericParam::Type("T".to_string())]);
    let expected = applied("Vec", vec![GenericArgument::Type(Box::new(path("T")))]);
    assert_eq!(create_type_signature(&input), expected);
}

#[test]
fn handles_type() {
    // T
    let got = generic_param(&GenericParam::Type("T".to_string()));
    assert_eq!(got, Some(GenericArgument::Type(Box::new(path("T")))));

    // T: AsRef<str> + 'a — the bounds play no part in the signature
    let got = generic_param(&GenericParam::Type("T".to_string()));
    assert_eq!(got, Some(GenericArgument::Type(Box::new(path("T")))));
}

#[test]
fn handles_lifetimes() {
    // 'a
    let got = generic_param(&GenericParam::Lifetime("a".to_string()));
    assert_eq!(got, Some(GenericArgument::Lifetime("a".to_string())));

    // 'a: 'b — the bound plays no part in the signature
    let got = generic_param(&GenericParam::Lifetime("a".to_string()));
    assert_eq!(got, Some(GenericArgument::Lifetime("a".to_string())));
}

#[test]
fn does_not_hangle_consts() {
    // const LENGTH: usize
    let got = generic_param(&GenericParam::Const("LENGTH".to_string()));
    assert!(got.is_none());
}

#[test]
fn const_parameters_are_dropped_from_argument_lists() {
    let params = vec![
        GenericParam::Lifetime("a".to_string()),
        GenericParam::Const("N".to_string()),
        GenericParam::Type("T".to_string()),
    ];
    let got = arguments_from_params(&params);
    let expected = argument_list(vec![
        GenericArgument::Lifetime("a".to_string()),
        GenericArgument::Type(Box::new(path("T"))),
    ]);
    assert_eq!(got, expected);
}

#[test]
fn unbracketed_declaration_has_plain_signature() {
    let input = declaration("Foo", vec![]);
    assert_eq!(create_type_signature(&input), path("Foo"));
}
