//! The view synthesizer.
//!
//! From a resolved [`TypeDeclaration`] it emits the butchered companion
//! declaration: a [`ViewDeclaration`] whose name is the source name behind
//! the fixed marker, whose shape — record or tagged union, field and
//! variant order — exactly mirrors the source, and whose field types are
//! the strategy transforms of the source field types, self-references
//! substituted first.  Each view field carries the capability bounds its
//! strategy demands and the verbatim extra clauses of its annotation.
//! Synthesis fails, with the field named, on the first field type holding a
//! constituent form the rewriter does not recognize; no partial result is
//! ever produced.

use vstd::prelude::*;

use crate::reader::Body;
use crate::reader::Field;
use crate::reader::GenerationError;
use crate::reader::RawBody;
use crate::reader::RawDeclaration;
use crate::reader::TypeDeclaration;
use crate::reader::field_error;
use crate::reader::field_fails;
use crate::reader::field_read;
use crate::reader::read_declaration;
use crate::reader::variant_ok;
use crate::reader::variant_read;
use crate::signature::Generics;
use crate::signature::create_type_signature_from_raws;
use crate::signature::type_signature_spec;
use crate::strategy::RequiredBound;
use crate::strategy::required_capabilities;
use crate::strategy::transformed_type;
use crate::type_expr::TypeExpr;
use crate::type_expr::replaced;
use crate::type_expr::supported;

verus! {

/// One field of the butchered companion: the source field's name, the
/// strategy-transformed type, the capability bounds the strategy demands,
/// and the verbatim extra clauses of the field's annotation.
#[derive(Debug, PartialEq, Eq)]
pub struct ViewField {
    pub ident: String,
    pub ty: TypeExpr,
    pub bounds: Vec<RequiredBound>,
    pub extra_bounds: Vec<String>,
}

/// One variant of the butchered companion.
#[derive(Debug, PartialEq, Eq)]
pub struct ViewVariant {
    pub ident: String,
    pub fields: Vec<ViewField>,
}

/// The body of the butchered companion, mirroring the source's shape.
#[derive(Debug, PartialEq, Eq)]
pub enum ViewBody {
    Record(Vec<ViewField>),
    Sum(Vec<ViewVariant>),
}

/// The butchered companion declaration.
#[derive(Debug, PartialEq, Eq)]
pub struct ViewDeclaration {
    pub ident: String,
    pub generics: Generics,
    pub body: ViewBody,
}

/// How a view field relates to the source field it was synthesized from,
/// with `sig` the instantiated signature substituted for self-references.
pub open spec fn view_field_of(f: Field, sig: TypeExpr, vf: ViewField) -> bool {
    &&& vf.ident == f.ident
    &&& supported(f.ty)
    &&& transformed_type(f.strategy, replaced(f.ty, sig), vf.ty)
    &&& required_capabilities(f.strategy, replaced(f.ty, sig), vf.bounds@)
    &&& vf.extra_bounds.deep_view() == f.extra_bounds.deep_view()
}

/// Whether every field of the sequence has a supported type.
pub open spec fn fields_supported(fs: Seq<Field>) -> bool {
    forall|i: int| 0 <= i < fs.len() ==> supported(#[trigger] fs[i].ty)
}

/// Whether every field type of the declaration is supported.
pub open spec fn decl_supported(d: TypeDeclaration) -> bool {
    match d.body {
        Body::Record(fs) => fields_supported(fs@),
        Body::Sum(vs) => forall|i: int| 0 <= i < vs.len() ==> fields_supported(#[trigger] vs[i].fields@),
    }
}

/// How the butchered companion relates to the declaration it was
/// synthesized from.
pub open spec fn synthesized(d: TypeDeclaration, v: ViewDeclaration) -> bool {
    let sig = type_signature_spec(d.ident, d.generics);
    &&& v.ident@ == "Butchered"@ + d.ident@
    &&& v.generics.bracketed == d.generics.bracketed
    &&& v.generics.params@ == d.generics.params@
    &&& match (d.body, v.body) {
        (Body::Record(fs), ViewBody::Record(vfs)) => vfs.len() == fs.len() && (forall|i: int|
            0 <= i < fs.len() ==> view_field_of(fs[i], sig, #[trigger] vfs[i])),
        (Body::Sum(vs), ViewBody::Sum(vvs)) => vvs.len() == vs.len() && (forall|i: int|
            0 <= i < vs.len() ==> {
                &&& (#[trigger] vvs[i]).ident == vs[i].ident
                &&& vvs[i].fields.len() == vs[i].fields.len()
                &&& forall|j: int|
                    0 <= j < vs[i].fields.len() ==> view_field_of(
                        vs[i].fields[j],
                        sig,
                        #[trigger] vvs[i].fields[j],
                    )
            }),
        _ => false,
    }
}

/// Synthesize the view fields of one record or variant.
fn synthesize_fields(fs: &Vec<Field>, sig: &TypeExpr) -> (r: Result<Vec<ViewField>, GenerationError>)
    ensures
        r is Ok <==> fields_supported(fs@),
        r matches Ok(vfs) ==> vfs.len() == fs.len() && (forall|i: int|
            0 <= i < fs.len() ==> view_field_of(fs[i], *sig, #[trigger] vfs[i])),
        r matches Err(e) ==> exists|i: int|
            0 <= i < fs.len() && !supported((#[trigger] fs[i]).ty) && (forall|j: int|
                0 <= j < i ==> supported(#[trigger] fs[j].ty)) && e
                == (GenerationError::UnsupportedTypeShape { field: fs[i].ident }),
{
    let mut out: Vec<ViewField> = Vec::new();
    let mut i: usize = 0;
    while i < fs.len()
        invariant
            i <= fs.len(),
            out.len() == i,
            forall|j: int| 0 <= j < i ==> supported(#[trigger] fs@[j].ty),
            forall|j: int| 0 <= j < i ==> view_field_of(fs@[j], *sig, #[trigger] out@[j]),
        decreases fs.len() - i,
    {
        let f = &fs[i];
        let rewritten = match f.ty.replace(sig) {
            Result::Ok(t) => t,
            Result::Err(_) => {
                return Result::Err(
                    GenerationError::UnsupportedTypeShape { field: f.ident.clone() },
                );
            },
        };
        let bounds = f.strategy.required_bounds(&rewritten);
        let ty = f.strategy.transform_type(rewritten);
        out.push(
            ViewField {
                ident: f.ident.clone(),
                ty,
                bounds,
                extra_bounds: duplicate_strings(&f.extra_bounds),
            },
        );
        i = i + 1;
    }
    Result::Ok(out)
}

/// An independent list of equal clause strings.
fn duplicate_strings(v: &Vec<String>) -> (r: Vec<String>)
    ensures
        r@ == v@,
{
    let mut out: Vec<String> = Vec::new();
    let mut i: usize = 0;
    while i < v.len()
        invariant
            i <= v.len(),
            out@.len() == i,
            forall|j: int| 0 <= j < i ==> out@[j] == v@[j],
        decreases v.len() - i,
    {
        out.push(v[i].clone());
        i = i + 1;
    }
    proof {
        assert(out@ =~= v@);
    }
    out
}

/// Emit the butchered companion of a resolved declaration: the marker-named
/// view whose shape mirrors the source and whose field types, bounds and
/// verbatim clauses follow each field's strategy; or fail on the first
/// field whose type the rewriter does not recognize.
#[verifier::loop_isolation(false)]
pub fn synthesize(decl: &TypeDeclaration) -> (r: Result<ViewDeclaration, GenerationError>)
    ensures
        r is Ok <==> decl_supported(*decl),
        r matches Ok(v) ==> synthesized(*decl, v),
        r matches Err(e) ==> match decl.body {
            Body::Record(fs) => exists|i: int|
                0 <= i < fs.len() && !supported((#[trigger] fs[i]).ty) && (forall|j: int|
                    0 <= j < i ==> supported(#[trigger] fs[j].ty)) && e
                    == (GenerationError::UnsupportedTypeShape { field: fs[i].ident }),
            Body::Sum(vs) => exists|i: int, k: int|
                {
                    &&& 0 <= i < vs.len()
                    &&& (forall|j: int| 0 <= j < i ==> fields_supported(#[trigger] vs[j].fields@))
                    &&& 0 <= k < vs[i].fields.len()
                    &&& !supported((#[trigger] vs[i].fields[k]).ty)
                    &&& (forall|j: int| 0 <= j < k ==> supported(#[trigger] vs[i].fields[j].ty))
                    &&& e == (GenerationError::UnsupportedTypeShape { field: vs[i].fields[k].ident })
                },
        },
{
    let sig = create_type_signature_from_raws(&decl.ident, &decl.generics);
    let body: ViewBody = match &decl.body {
        Body::Record(fs) => match synthesize_fields(fs, &sig) {
            Result::Ok(vfs) => ViewBody::Record(vfs),
            Result::Err(e) => {
                proof {
                    let i = choose|i: int|
                        0 <= i < fs.len() && !supported((#[trigger] fs[i]).ty) && (forall|j: int|
                            0 <= j < i ==> supported(#[trigger] fs[j].ty)) && e
                            == (GenerationError::UnsupportedTypeShape { field: fs[i].ident });
                    assert(!supported(fs[i].ty));
                }
                return Result::Err(e);
            },
        },
        Body::Sum(vs) => {
            let mut out: Vec<ViewVariant> = Vec::new();
            let mut i: usize = 0;
            while i < vs.len()
                invariant
                    i <= vs.len(),
                    out.len() == i,
                    forall|j: int| 0 <= j < i ==> fields_supported(#[trigger] vs@[j].fields@),
                    forall|j: int|
                        0 <= j < i ==> {
                            &&& (#[trigger] out@[j]).ident == vs@[j].ident
                            &&& out@[j].fields.len() == vs@[j].fields.len()
                            &&& forall|m: int|
                                0 <= m < vs@[j].fields.len() ==> view_field_of(
                                    vs@[j].fields[m],
                                    type_signature_spec(decl.ident, decl.generics),
                                    #[trigger] out@[j].fields[m],
                                )
                        },
                decreases vs.len() - i,
            {
                match synthesize_fields(&vs[i].fields, &sig) {
                    Result::Ok(vfs) => {
                        out.push(ViewVariant { ident: vs[i].ident.clone(), fields: vfs });
                    },
                    Result::Err(e) => {
                        proof {
                            let k = choose|k: int|
                                0 <= k < vs[i as int].fields.len() && !supported(
                                    (#[trigger] vs[i as int].fields[k]).ty,
                                ) && (forall|j: int|
                                    0 <= j < k ==> supported(
                                        #[trigger] vs[i as int].fields[j].ty,
                                    )) && e == (GenerationError::UnsupportedTypeShape {
                                    field: vs[i as int].fields[k].ident,
                                });
                            assert(!supported(vs[i as int].fields[k].ty));
                            assert(!fields_supported(vs[i as int].fields@));
                        }
                        return Result::Err(e);
                    },
                }
                i = i + 1;
            }
            ViewBody::Sum(out)
        },
    };
    let mut name = String::from_str("Butchered");
    name.append(decl.ident.as_str());
    Result::Ok(ViewDeclaration { ident: name, generics: decl.generics.duplicate(), body })
}

/// How a resolved declaration relates to the raw one it was read from.
pub open spec fn declaration_read(raw: RawDeclaration, d: TypeDeclaration) -> bool {
    &&& d.ident == raw.ident
    &&& d.generics.bracketed == raw.generics.bracketed
    &&& d.generics.params@ == raw.generics.params@
    &&& match (raw.body, d.body) {
        (RawBody::Record(rfs), Body::Record(fs)) => fs.len() == rfs.len() && (forall|i: int|
            0 <= i < rfs.len() ==> field_read(rfs[i], #[trigger] fs[i])),
        (RawBody::Sum(rvs), Body::Sum(vs)) => vs.len() == rvs.len() && (forall|i: int|
            0 <= i < rvs.len() ==> variant_read(rvs[i], #[trigger] vs[i])),
        _ => false,
    }
}

/// Whether every annotation of the raw declaration reads cleanly.
pub open spec fn reads_clean(raw: RawDeclaration) -> bool {
    match raw.body {
        RawBody::Record(rfs) => forall|i: int| 0 <= i < rfs.len() ==> !field_fails(#[trigger] rfs[i]),
        RawBody::Sum(rvs) => forall|i: int| 0 <= i < rvs.len() ==> variant_ok(#[trigger] rvs[i]),
    }
}

/// Whether every field type of the raw declaration is supported.
pub open spec fn raw_supported(raw: RawDeclaration) -> bool {
    match raw.body {
        RawBody::Record(rfs) => forall|i: int| 0 <= i < rfs.len() ==> supported(#[trigger] rfs[i].ty),
        RawBody::Sum(rvs) => forall|i: int, k: int|
            0 <= i < rvs.len() && 0 <= k < rvs[i].fields.len() ==> supported(
                #[trigger] rvs[i].fields[k].ty,
            ),
    }
}

/// How reading the raw declaration fails: the first field, in declaration
/// order, whose annotation is malformed or names an unknown strategy, with
/// that field's error.
pub open spec fn read_failure(raw: RawDeclaration, e: GenerationError) -> bool {
    match raw.body {
        RawBody::Record(rfs) => exists|i: int|
            0 <= i < rfs.len() && #[trigger] field_fails(rfs[i]) && (forall|j: int|
                0 <= j < i ==> !field_fails(#[trigger] rfs[j])) && e == field_error(rfs[i]),
        RawBody::Sum(rvs) => exists|i: int, k: int|
            {
                &&& 0 <= i < rvs.len()
                &&& (forall|j: int| 0 <= j < i ==> variant_ok(#[trigger] rvs[j]))
                &&& 0 <= k < rvs[i].fields.len()
                &&& #[trigger] field_fails(rvs[i].fields[k])
                &&& (forall|j: int| 0 <= j < k ==> !field_fails(#[trigger] rvs[i].fields[j]))
                &&& e == field_error(rvs[i].fields[k])
            },
    }
}

/// How synthesis fails on a raw declaration whose annotations all read
/// cleanly: the first field, in declaration order, whose type holds an
/// unrecognized constituent form, with that field named.
pub open spec fn shape_failure(raw: RawDeclaration, e: GenerationError) -> bool {
    match raw.body {
        RawBody::Record(rfs) => exists|i: int|
            0 <= i < rfs.len() && !supported((#[trigger] rfs[i]).ty) && (forall|j: int|
                0 <= j < i ==> supported(#[trigger] rfs[j].ty)) && e
                == (GenerationError::UnsupportedTypeShape { field: rfs[i].ident }),
        RawBody::Sum(rvs) => exists|i: int, k: int|
            {
                &&& 0 <= i < rvs.len()
                &&& (forall|j: int, m: int|
                    0 <= j < i && 0 <= m < rvs[j].fields.len() ==> supported(
                        #[trigger] rvs[j].fields[m].ty,
                    ))
                &&& 0 <= k < rvs[i].fields.len()
                &&& !supported((#[trigger] rvs[i].fields[k]).ty)
                &&& (forall|j: int| 0 <= j < k ==> supported(#[trigger] rvs[i].fields[j].ty))
                &&& e == (GenerationError::UnsupportedTypeShape { field: rvs[i].fields[k].ident })
            },
    }
}

/// Generate the butchered companion straight from a raw declaration: read
/// the model, build the signature, substitute self-references, resolve
/// every strategy and emit the view.  The first offending field decides the
/// error: a reading failure of the reader, or, with every annotation clean,
/// the first unsupported field type.
pub fn generate(raw: &RawDeclaration) -> (r: Result<ViewDeclaration, GenerationError>)
    ensures
        r is Ok <==> reads_clean(*raw) && raw_supported(*raw),
        r matches Ok(v) ==> exists|d: TypeDeclaration|
            #[trigger] declaration_read(*raw, d) && synthesized(d, v),
        r matches Err(e) ==> read_failure(*raw, e) || (reads_clean(*raw) && shape_failure(
            *raw,
            e,
        )),
{
    let decl = match read_declaration(raw) {
        Result::Ok(d) => d,
        Result::Err(e) => {
            return Result::Err(e);
        },
    };
    proof {
        assert(declaration_read(*raw, decl));
        match (&raw.body, &decl.body) {
            (RawBody::Record(rfs), Body::Record(fs)) => {
                assert forall|i: int| 0 <= i < fs.len() implies (#[trigger] fs[i]).ty == rfs[i].ty
                    && fs[i].ident == rfs[i].ident by {
                    assert(field_read(rfs[i], fs[i]));
                }
            },
            (RawBody::Sum(rvs), Body::Sum(vs)) => {
                assert forall|i: int, k: int|
                    0 <= i < vs.len() && 0 <= k < vs[i].fields.len() implies (
                #[trigger] vs[i].fields[k]).ty == rvs[i].fields[k].ty && vs[i].fields[k].ident
                    == rvs[i].fields[k].ident by {
                    assert(variant_read(rvs[i], vs[i]));
                    assert(field_read(rvs[i].fields[k], vs[i].fields[k]));
                }
            },
            _ => {
            },
        }
    }
    match synthesize(&decl) {
        Result::Ok(v) => {
            proof {
                assert(declaration_read(*raw, decl) && synthesized(decl, v));
                match (&raw.body, &decl.body) {
                    (RawBody::Record(rfs), Body::Record(fs)) => {
                        assert forall|i: int| 0 <= i < rfs.len() implies supported(
                            #[trigger] rfs[i].ty,
                        ) by {
                            assert(fs[i].ty == rfs[i].ty);
                            assert(fields_supported(fs@));
                            assert(supported(fs@[i].ty));
                        }
                    },
                    (RawBody::Sum(rvs), Body::Sum(vs)) => {
                        assert forall|i: int, k: int|
                            0 <= i < rvs.len() && 0 <= k < rvs[i].fields.len() implies supported(
                            #[trigger] rvs[i].fields[k].ty,
                        ) by {
                            assert(vs[i].fields[k].ty == rvs[i].fields[k].ty);
                            assert(fields_supported(vs[i].fields@));
                            assert(supported(vs[i].fields@[k].ty));
                        }
                    },
                    _ => {
                    },
                }
            }
            Result::Ok(v)
        },
        Result::Err(e) => {
            proof {
                match (&raw.body, &decl.body) {
                    (RawBody::Record(rfs), Body::Record(fs)) => {
                        let i = choose|i: int|
                            0 <= i < fs.len() && !supported((#[trigger] fs[i]).ty) && (forall|
                                j: int,
                            |
                                0 <= j < i ==> supported(#[trigger] fs[j].ty)) && e
                                == (GenerationError::UnsupportedTypeShape { field: fs[i].ident });
                        assert(!supported(rfs[i].ty));
                        assert forall|j: int| 0 <= j < i implies supported(
                            #[trigger] rfs[j].ty,
                        ) by {
                            assert(fs[j].ty == rfs[j].ty);
                            assert(supported(fs[j].ty));
                        }
                        assert(shape_failure(*raw, e));
                    },
                    (RawBody::Sum(rvs), Body::Sum(vs)) => {
                        let (i, k) = choose|i: int, k: int|
                            {
                                &&& 0 <= i < vs.len()
                                &&& (forall|j: int|
                                    0 <= j < i ==> fields_supported(#[trigger] vs[j].fields@))
                                &&& 0 <= k < vs[i].fields.len()
                                &&& !supported((#[trigger] vs[i].fields[k]).ty)
                                &&& (forall|j: int|
                                    0 <= j < k ==> supported(#[trigger] vs[i].fields[j].ty))
                                &&& e == (GenerationError::UnsupportedTypeShape {
                                    field: vs[i].fields[k].ident,
                                })
                            };
                        assert(!supported(rvs[i].fields[k].ty));
                        assert forall|j: int, m: int|
                            0 <= j < i && 0 <= m < rvs[j].fields.len() implies supported(
                            #[trigger] rvs[j].fields[m].ty,
                        ) by {
                            assert(vs[j].fields[m].ty == rvs[j].fields[m].ty);
                            assert(fields_supported(vs[j].fields@));
                            assert(supported(vs[j].fields@[m].ty));
                        }
                        assert forall|j: int| 0 <= j < k implies supported(
                            #[trigger] rvs[i].fields[j].ty,
                        ) by {
                            assert(vs[i].fields[j].ty == rvs[i].fields[j].ty);
                            assert(supported(vs[i].fields[j].ty));
                        }
                        assert(shape_failure(*raw, e));
                    },
                    _ => {
                    },
                }
            }
            Result::Err(e)
        },
    }
}

} // verus!
