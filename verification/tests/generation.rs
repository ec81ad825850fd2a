use butcher::reader::AnnotationError;
use butcher::reader::Body;
use butcher::reader::GenerationError;
use butcher::reader::RawBody;
use butcher::reader::RawDeclaration;
use butcher::reader::RawField;
use butcher::reader::RawVariant;
use butcher::reader::parse_annotation;
use butcher::reader::read_declaration;
use butcher::signature::GenericParam;
use butcher::signature::Generics;
use butcher::strategy::Capability;
use butcher::strategy::StrategyTag;
use butcher::synthesis::ViewBody;
use butcher::synthesis::generate;
use butcher::type_expr::GenericArgument;
use butcher::type_expr::GenericArgumentList;
use butcher::type_expr::PathArguments;
use butcher::type_expr::PathSegment;
use butcher::type_expr::SegmentList;
use butcher::type_expr::TypeExpr;

fn path(name: &str) -> TypeExpr {
    TypeExpr::Path(
        None,
        SegmentList::Cons(
            PathSegment { ident: name.to_string(), arguments: PathArguments::Plain },
            Box::new(SegmentList::Nil),
        ),
    )
}

fn path_with_one_argument(name: &str, arg: TypeExpr) -> TypeExpr {
    TypeExpr::Path(
        None,
        SegmentList::Cons(
            PathSegment {
                ident: name.to_string(),
                arguments: PathArguments::AngleBracketed(GenericArgumentList::Cons(
                    Box::new(GenericArgument::Type(Box::new(arg))),
                    Box::new(GenericArgumentList::Nil),
                )),
            },
            Box::new(SegmentList::Nil),
        ),
    )
}

fn items(words: &[&str]) -> Vec<String> {
    words.iter().map(|w| w.to_string()).collect()
}

fn projection(subject: TypeExpr, trait_name: &str, assoc_name: &str) -> TypeExpr {
    TypeExpr::Path(
        Some(Box::new(subject)),
        SegmentList::Cons(
            PathSegment { ident: trait_name.to_string(), arguments: PathArguments::Plain },
            Box::new(SegmentList::Cons(
                PathSegment { ident: assoc_name.to_string(), arguments: PathArguments::Plain },
                Box::new(SegmentList::Nil),
            )),
        ),
    )
}

#[test]
fn annotation_with_tag_only() {
    let got = parse_annotation(&items(&["copy"])).unwrap();
    assert_eq!(got.0, StrategyTag::Copy);
    assert!(got.1.is_empty());
}

#[test]
fn annotation_with_tag_and_bounds() {
    let got = parse_annotation(&items(&["flatten", "T: Clone"])).unwrap();
    assert_eq!(got.0, StrategyTag::Flatten);
    assert_eq!(got.1, items(&["T: Clone"]));
}

#[test]
fn annotation_with_bound_only_defaults_to_regular() {
    let got = parse_annotation(&items(&["T: Clone"])).unwrap();
    assert_eq!(got.0, StrategyTag::Regular);
    assert_eq!(got.1, items(&["T: Clone"]));
}

#[test]
fn rebutcher_word_names_the_recurse_strategy() {
    let got = parse_annotation(&items(&["rebutcher"])).unwrap();
    assert_eq!(got.0, StrategyTag::Recurse);
}

#[test]
fn unknown_tag_is_refused() {
    let got = parse_annotation(&items(&["shred"]));
    assert_eq!(got, Err(AnnotationError::UnknownStrategy));
}

#[test]
fn malformed_annotation_is_refused() {
    assert_eq!(parse_annotation(&items(&[])), Err(AnnotationError::Syntax));
    assert_eq!(parse_annotation(&items(&["copy", "no colon here"])), Err(AnnotationError::Syntax));
    assert_eq!(parse_annotation(&items(&[": Clone"])), Err(AnnotationError::Syntax));
    assert_eq!(parse_annotation(&items(&["T:: Clone"])), Err(AnnotationError::Syntax));
}

#[test]
fn reader_resolves_strategies_and_defaults() {
    let raw = RawDeclaration {
        ident: "Foo".to_string(),
        generics: Generics { bracketed: false, params: vec![] },
        body: RawBody::Record(vec![
            RawField { ident: "a".to_string(), ty: path("u64"), annotation: None },
            RawField {
                ident: "b".to_string(),
                ty: path("u64"),
                annotation: Some(items(&["copy"])),
            },
        ]),
    };
    let d = read_declaration(&raw).unwrap();
    match d.body {
        Body::Record(fs) => {
            assert_eq!(fs.len(), 2);
            assert_eq!(fs[0].strategy, StrategyTag::Regular);
            assert_eq!(fs[1].strategy, StrategyTag::Copy);
        }
        _ => panic!("wrong body shape"),
    }
}

#[test]
fn reader_attributes_the_failing_field() {
    let raw = RawDeclaration {
        ident: "Foo".to_string(),
        generics: Generics { bracketed: false, params: vec![] },
        body: RawBody::Sum(vec![RawVariant {
            ident: "V".to_string(),
            fields: vec![
                RawField { ident: "a".to_string(), ty: path("u64"), annotation: None },
                RawField {
                    ident: "b".to_string(),
                    ty: path("u64"),
                    annotation: Some(items(&["shred"])),
                },
            ],
        }]),
    };
    let got = read_declaration(&raw);
    assert_eq!(got, Err(GenerationError::UnknownStrategy { field: "b".to_string() }));
}

#[test]
fn generate_substitutes_self_and_unboxes() {
    // struct List<T> { #[unbox] next: Box<Self> }
    let raw = RawDeclaration {
        ident: "List".to_string(),
        generics: Generics {
            bracketed: true,
            params: vec![GenericParam::Type("T".to_string())],
        },
        body: RawBody::Record(vec![RawField {
            ident: "next".to_string(),
            ty: path_with_one_argument("Box", path("Self")),
            annotation: Some(items(&["unbox"])),
        }]),
    };
    let v = generate(&raw).unwrap();
    assert_eq!(v.ident, "ButcheredList".to_string());
    match v.body {
        ViewBody::Record(vfs) => {
            assert_eq!(vfs.len(), 1);
            assert_eq!(vfs[0].ident, "next".to_string());
            // The marker was substituted and the indirection seen through:
            // the view field is Cow<List<T>>.
            let signature = path_with_one_argument("List", path("T"));
            assert_eq!(vfs[0].ty, path_with_one_argument("Cow", signature));
            assert_eq!(vfs[0].bounds.len(), 1);
            assert_eq!(vfs[0].bounds[0].capability, Capability::Duplicable);
            let signature = path_with_one_argument("List", path("T"));
            assert_eq!(vfs[0].bounds[0].subject, signature);
        }
        _ => panic!("wrong body shape"),
    }
}

#[test]
fn flatten_and_rebutcher_emit_projection_types() {
    // struct Doc { #[flatten] title: Name, #[rebutcher] meta: Meta }
    let raw = RawDeclaration {
        ident: "Doc".to_string(),
        generics: Generics { bracketed: false, params: vec![] },
        body: RawBody::Record(vec![
            RawField {
                ident: "title".to_string(),
                ty: path("Name"),
                annotation: Some(items(&["flatten"])),
            },
            RawField {
                ident: "meta".to_string(),
                ty: path("Meta"),
                annotation: Some(items(&["rebutcher"])),
            },
        ]),
    };
    let v = generate(&raw).unwrap();
    match v.body {
        ViewBody::Record(vfs) => {
            // The flattened field comes out as Cow of the borrow-through
            // target of its type.
            let target = projection(path("Name"), "BorrowsThrough", "Target");
            assert_eq!(vfs[0].ty, path_with_one_argument("Cow", target));
            assert_eq!(vfs[0].bounds.len(), 2);
            assert_eq!(vfs[0].bounds[0].capability, Capability::BorrowsThrough);
            assert_eq!(vfs[0].bounds[0].subject, path("Name"));
            assert_eq!(vfs[0].bounds[1].capability, Capability::Duplicable);

            // The rebutchered field comes out as the type's own butchered
            // output.
            assert_eq!(vfs[1].ty, projection(path("Meta"), "Butcher", "Output"));
            assert_eq!(vfs[1].bounds.len(), 2);
            assert_eq!(vfs[1].bounds[0].capability, Capability::Butcher);
            assert_eq!(vfs[1].bounds[1].capability, Capability::Duplicable);
        }
        _ => panic!("wrong body shape"),
    }
}

#[test]
fn generate_attributes_the_unsupported_field() {
    let raw = RawDeclaration {
        ident: "Foo".to_string(),
        generics: Generics { bracketed: false, params: vec![] },
        body: RawBody::Record(vec![
            RawField { ident: "good".to_string(), ty: path("u64"), annotation: None },
            RawField { ident: "bad".to_string(), ty: TypeExpr::Unsupported, annotation: None },
        ]),
    };
    let got = generate(&raw);
    assert_eq!(got, Err(GenerationError::UnsupportedTypeShape { field: "bad".to_string() }));
}

#[test]
fn generate_mirrors_a_tagged_union() {
    let raw = RawDeclaration {
        ident: "Shape".to_string(),
        generics: Generics { bracketed: false, params: vec![] },
        body: RawBody::Sum(vec![
            RawVariant { ident: "Empty".to_string(), fields: vec![] },
            RawVariant {
                ident: "Dot".to_string(),
                fields: vec![RawField {
                    ident: "x".to_string(),
                    ty: path("i64"),
                    annotation: Some(items(&["copy"])),
                }],
            },
        ]),
    };
    let v = generate(&raw).unwrap();
    assert_eq!(v.ident, "ButcheredShape".to_string());
    match v.body {
        ViewBody::Sum(vvs) => {
            assert_eq!(vvs.len(), 2);
            assert_eq!(vvs[0].ident, "Empty".to_string());
            assert!(vvs[0].fields.is_empty());
            assert_eq!(vvs[1].ident, "Dot".to_string());
            // The copy strategy leaves the field type untouched.
            assert_eq!(vvs[1].fields[0].ty, path("i64"));
        }
        _ => panic!("wrong body shape"),
    }
}

#[test]
fn every_tag_word_names_its_strategy() {
    let cases = [
        ("regular", StrategyTag::Regular),
        ("copy", StrategyTag::Copy),
        ("flatten", StrategyTag::Flatten),
        ("unbox", StrategyTag::Unbox),
        ("rebutcher", StrategyTag::Recurse),
    ];
    for (word, tag) in cases {
        let got = parse_annotation(&items(&[word])).unwrap();
        assert_eq!(got.0, tag);
        assert!(got.1.is_empty());
    }
}

#[test]
fn reader_attributes_annotation_syntax_errors() {
    let raw = RawDeclaration {
        ident: "Foo".to_string(),
        generics: Generics { bracketed: false, params: vec![] },
        body: RawBody::Record(vec![RawField {
            ident: "broken".to_string(),
            ty: path("u64"),
            annotation: Some(items(&[""])),
        }]),
    };
    let got = read_declaration(&raw);
    assert_eq!(got, Err(GenerationError::AnnotationSyntax { field: "broken".to_string() }));
}
