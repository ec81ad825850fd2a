//! The type-model reader.
//!
//! A source declaration arrives as a [`RawDeclaration`]: a record or a
//! tagged union whose fields may carry an annotation — a list of items, the
//! first optionally a strategy tag out of the closed word set, the rest
//! bound clauses `TypeParam: Capability` that are kept verbatim.  The reader
//! resolves every field to exactly one strategy (the default is regular) and
//! yields a [`TypeDeclaration`], or fails on the first offending field with
//! a field-attributed error: a malformed annotation item is an annotation
//! syntax error, a tag word outside the closed set an unknown-strategy
//! error.  No partial result is ever produced.

use vstd::prelude::*;

use crate::signature::Generics;
use crate::strategy::StrategyTag;
use crate::type_expr::TypeExpr;

verus! {

/// A field as declared: its name, its declared type, and its annotation
/// items, if the field carries an annotation at all.
#[derive(Debug, PartialEq, Eq)]
pub struct RawField {
    pub ident: String,
    pub ty: TypeExpr,
    pub annotation: Option<Vec<String>>,
}

/// A variant as declared.
#[derive(Debug, PartialEq, Eq)]
pub struct RawVariant {
    pub ident: String,
    pub fields: Vec<RawField>,
}

/// The body of a declaration: a record or a tagged union.
#[derive(Debug, PartialEq, Eq)]
pub enum RawBody {
    Record(Vec<RawField>),
    Sum(Vec<RawVariant>),
}

/// A source declaration, as handed to the reader.
#[derive(Debug, PartialEq, Eq)]
pub struct RawDeclaration {
    pub ident: String,
    pub generics: Generics,
    pub body: RawBody,
}

/// A field with its strategy resolved and its extra bound clauses kept
/// verbatim.
#[derive(Debug, PartialEq, Eq)]
pub struct Field {
    pub ident: String,
    pub ty: TypeExpr,
    pub strategy: StrategyTag,
    pub extra_bounds: Vec<String>,
}

/// A variant with every field resolved.
#[derive(Debug, PartialEq, Eq)]
pub struct Variant {
    pub ident: String,
    pub fields: Vec<Field>,
}

/// The resolved body.
#[derive(Debug, PartialEq, Eq)]
pub enum Body {
    Record(Vec<Field>),
    Sum(Vec<Variant>),
}

/// The internal model of a declaration, every field resolved.
#[derive(Debug, PartialEq, Eq)]
pub struct TypeDeclaration {
    pub ident: String,
    pub generics: Generics,
    pub body: Body,
}

/// A generation-time failure, attributed to the field it arose at.
#[derive(Debug, PartialEq, Eq)]
pub enum GenerationError {
    /// A malformed annotation.
    AnnotationSyntax { field: String },
    /// A strategy tag outside the closed set.
    UnknownStrategy { field: String },
    /// A field type containing a constituent form the rewriter does not
    /// recognize.
    UnsupportedTypeShape { field: String },
}

/// How one annotation fails, before the field name is attached.
#[derive(Debug, PartialEq, Eq)]
pub enum AnnotationError {
    Syntax,
    UnknownStrategy,
}

/// Whether `c` can appear in a tag word or a parameter name: an ASCII
/// letter, a digit, or an underscore.
pub open spec fn is_word_char(c: char) -> bool {
    let u = c as u32;
    (97 <= u && u <= 122) || (65 <= u && u <= 90) || (48 <= u && u <= 57) || u == 95
}

/// Whether `s` is a nonempty word.
pub open spec fn is_word(s: Seq<char>) -> bool {
    s.len() > 0 && forall|k: int| 0 <= k < s.len() ==> is_word_char(#[trigger] s[k])
}

/// The strategy a tag word names, if it is in the closed set.
pub open spec fn strategy_of_word(s: Seq<char>) -> Option<StrategyTag> {
    if s == "regular"@ {
        Option::Some(StrategyTag::Regular)
    } else if s == "copy"@ {
        Option::Some(StrategyTag::Copy)
    } else if s == "flatten"@ {
        Option::Some(StrategyTag::Flatten)
    } else if s == "unbox"@ {
        Option::Some(StrategyTag::Unbox)
    } else if s == "rebutcher"@ {
        Option::Some(StrategyTag::Recurse)
    } else {
        Option::None
    }
}

/// The position of the first colon at or after `i`, or the length if there
/// is none.
pub open spec fn first_colon(s: Seq<char>, i: int) -> int
    decreases s.len() - i,
{
    if i < 0 || i >= s.len() {
        s.len() as int
    } else if s[i] == ':' {
        i
    } else {
        first_colon(s, i + 1)
    }
}

/// The first position at or after `i` holding no space.
pub open spec fn trim_start(s: Seq<char>, i: int) -> int
    decreases s.len() - i,
{
    if 0 <= i && i < s.len() && s[i] == ' ' {
        trim_start(s, i + 1)
    } else {
        i
    }
}

/// The last position at or before `j` with no space just before it.
pub open spec fn trim_end(s: Seq<char>, j: int) -> int
    decreases j,
{
    if 0 < j && j <= s.len() && s[j - 1] == ' ' {
        trim_end(s, j - 1)
    } else {
        j
    }
}

/// `s` without its leading and trailing spaces.
pub open spec fn trimmed(s: Seq<char>) -> Seq<char> {
    let a = trim_start(s, 0);
    let b = trim_end(s, s.len() as int);
    if a < b {
        s.subrange(a, b)
    } else {
        Seq::empty()
    }
}

/// Whether an annotation item is a well-formed bound clause: a colon with a
/// parameter word before it and a nonempty capability after it.
pub open spec fn valid_bound(s: Seq<char>) -> bool {
    let k = first_colon(s, 0);
    &&& k < s.len()
    &&& is_word(trimmed(s.subrange(0, k)))
    &&& trimmed(s.subrange(k + 1, s.len() as int)).len() > 0
    &&& trimmed(s.subrange(k + 1, s.len() as int))[0] != ':'
}

/// Whether every item after the first is a well-formed bound clause.
pub open spec fn trailing_ok(items: Seq<Seq<char>>) -> bool {
    forall|j: int| 1 <= j < items.len() ==> valid_bound(#[trigger] items[j])
}

/// The meaning of an annotation: its strategy tag and its bound clauses in
/// order, or how it fails.  The first item may be a tag word — then it must
/// name a strategy of the closed set — or itself a bound clause, in which
/// case the strategy stays regular; every other item must be a bound
/// clause, and an annotation with no items at all is malformed.
pub open spec fn parsed_annotation(items: Seq<Seq<char>>) -> Result<
    (StrategyTag, Seq<Seq<char>>),
    AnnotationError,
> {
    if items.len() == 0 {
        Result::Err(AnnotationError::Syntax)
    } else if is_word(items[0]) {
        match strategy_of_word(items[0]) {
            Option::Some(tag) => if trailing_ok(items) {
                Result::Ok((tag, items.subrange(1, items.len() as int)))
            } else {
                Result::Err(AnnotationError::Syntax)
            },
            Option::None => Result::Err(AnnotationError::UnknownStrategy),
        }
    } else if valid_bound(items[0]) {
        if trailing_ok(items) {
            Result::Ok((StrategyTag::Regular, items))
        } else {
            Result::Err(AnnotationError::Syntax)
        }
    } else {
        Result::Err(AnnotationError::Syntax)
    }
}

/// What reading one field yields: the resolved strategy and the verbatim
/// bound clauses, or the annotation failure.  A field without an annotation
/// resolves to the regular strategy.
pub open spec fn field_outcome(rf: RawField) -> Result<
    (StrategyTag, Seq<Seq<char>>),
    AnnotationError,
> {
    match rf.annotation {
        Option::None => Result::Ok((StrategyTag::Regular, Seq::empty())),
        Option::Some(items) => parsed_annotation(items.deep_view()),
    }
}

/// Whether reading this field fails.
pub open spec fn field_fails(rf: RawField) -> bool {
    field_outcome(rf) is Err
}

/// The field-attributed error a failing field yields.
pub open spec fn field_error(rf: RawField) -> GenerationError {
    match field_outcome(rf) {
        Result::Err(AnnotationError::Syntax) => GenerationError::AnnotationSyntax {
            field: rf.ident,
        },
        _ => GenerationError::UnknownStrategy { field: rf.ident },
    }
}

/// How a resolved field relates to the raw field it was read from.
pub open spec fn field_read(rf: RawField, f: Field) -> bool {
    &&& f.ident == rf.ident
    &&& f.ty == rf.ty
    &&& match field_outcome(rf) {
        Result::Ok((tag, bs)) => f.strategy == tag && f.extra_bounds.deep_view() == bs,
        Result::Err(_) => false,
    }
}

/// Whether every field of a raw variant reads cleanly.
pub open spec fn variant_ok(rv: RawVariant) -> bool {
    forall|j: int| 0 <= j < rv.fields.len() ==> !field_fails(#[trigger] rv.fields[j])
}

/// How a resolved variant relates to the raw variant it was read from.
pub open spec fn variant_read(rv: RawVariant, v: Variant) -> bool {
    &&& v.ident == rv.ident
    &&& v.fields.len() == rv.fields.len()
    &&& forall|j: int|
        0 <= j < rv.fields.len() ==> field_read(rv.fields[j], #[trigger] v.fields[j])
}

/// The position of the first colon in `st`, or its length if there is none.
fn find_colon(st: &str) -> (k: usize)
    ensures
        k as int == first_colon(st@, 0),
        k <= st@.len(),
{
    let n = st.unicode_len();
    let mut k: usize = 0;
    while k < n
        invariant
            k <= n,
            n == st@.len(),
            first_colon(st@, 0) == first_colon(st@, k as int),
        decreases n - k,
    {
        if st.get_char(k) == ':' {
            return k;
        }
        k = k + 1;
    }
    k
}

/// The trimmed sub-range of `st@` between `lo` and `hi`: the bounds moved
/// past the spaces on either side.  When nothing but spaces lies between
/// them the result is an empty range; otherwise the bounds are exactly the
/// spec trims of the sub-sequence.
fn trim_range(st: &str, lo: usize, hi: usize) -> (r: (usize, usize))
    requires
        lo <= hi,
        hi <= st@.len(),
    ensures
        ({
            let sub = st@.subrange(lo as int, hi as int);
            let ts = trim_start(sub, 0);
            let te = trim_end(sub, sub.len() as int);
            &&& lo <= r.0 <= r.1 <= hi
            &&& ts < te ==> r.0 as int == lo + ts && r.1 as int == lo + te
            &&& ts >= te ==> r.0 == r.1
        }),
{
    let ghost sub = st@.subrange(lo as int, hi as int);
    let mut a = lo;
    while a < hi && st.get_char(a) == ' '
        invariant
            lo <= a <= hi,
            hi <= st@.len(),
            sub == st@.subrange(lo as int, hi as int),
            trim_start(sub, 0) == trim_start(sub, a - lo),
        decreases hi - a,
    {
        proof {
            assert(sub[a - lo] == st@[a as int]);
        }
        a = a + 1;
    }
    proof {
        if a < hi {
            assert(sub[a - lo] == st@[a as int]);
        }
        assert(trim_start(sub, a - lo) == a - lo);
    }
    let mut b = hi;
    while b > a && st.get_char(b - 1) == ' '
        invariant
            a <= b <= hi,
            hi <= st@.len(),
            a as int == lo + trim_start(sub, 0),
            lo <= a,
            sub == st@.subrange(lo as int, hi as int),
            trim_end(sub, sub.len() as int) == trim_end(sub, b - lo),
        decreases b,
    {
        proof {
            assert(sub[b - 1 - lo] == st@[b - 1]);
        }
        b = b - 1;
    }
    proof {
        let ts = trim_start(sub, 0);
        let te = trim_end(sub, sub.len() as int);
        if b > a {
            assert(sub[b - 1 - lo] == st@[b - 1]);
            assert(trim_end(sub, b - lo) == b - lo);
            assert(ts < te);
        } else {
            lemma_trim_end_le(sub, a - lo);
            assert(te <= ts);
        }
    }
    (a, b)
}

/// Trimming from the end never moves the bound up.
proof fn lemma_trim_end_le(s: Seq<char>, j: int)
    ensures
        trim_end(s, j) <= j,
    decreases j,
{
    if 0 < j && j <= s.len() && s[j - 1] == ' ' {
        lemma_trim_end_le(s, j - 1);
    }
}

/// Whether the sub-range of `st@` between `lo` and `hi` is a word.
fn is_word_range(st: &str, lo: usize, hi: usize) -> (r: bool)
    requires
        lo <= hi,
        hi <= st@.len(),
    ensures
        r == is_word(st@.subrange(lo as int, hi as int)),
{
    let ghost sub = st@.subrange(lo as int, hi as int);
    if lo == hi {
        return false;
    }
    let mut k = lo;
    while k < hi
        invariant
            lo <= k <= hi,
            hi <= st@.len(),
            sub == st@.subrange(lo as int, hi as int),
            forall|m: int| 0 <= m < k - lo ==> is_word_char(#[trigger] sub[m]),
        decreases hi - k,
    {
        let c = st.get_char(k);
        let u = c as u32;
        let ok = (97 <= u && u <= 122) || (65 <= u && u <= 90) || (48 <= u && u <= 57) || u == 95;
        proof {
            assert(sub[k - lo] == st@[k as int]);
        }
        if !ok {
            return false;
        }
        k = k + 1;
    }
    true
}

/// Whether one annotation item is a well-formed bound clause.
fn is_valid_bound(s: &String) -> (r: bool)
    ensures
        r == valid_bound(s@),
{
    let st = s.as_str();
    let n = st.unicode_len();
    let k = find_colon(st);
    if k >= n {
        return false;
    }
    let ghost prefix = st@.subrange(0, k as int);
    let (a, b) = trim_range(st, 0, k);
    if a >= b {
        proof {
            assert(trimmed(prefix).len() == 0);
        }
        return false;
    }
    proof {
        assert(trimmed(prefix) =~= st@.subrange(a as int, b as int));
    }
    if !is_word_range(st, a, b) {
        return false;
    }
    let ghost suffix = st@.subrange(k + 1, n as int);
    let (c, d) = trim_range(st, k + 1, n);
    if c >= d {
        proof {
            assert(trimmed(suffix).len() == 0);
        }
        return false;
    }
    proof {
        assert(trimmed(suffix) =~= st@.subrange(c as int, d as int));
        assert(trimmed(suffix)[0] == st@[c as int]);
    }
    if st.get_char(c) == ':' {
        return false;
    }
    true
}

/// Whether an item is a nonempty word.
fn is_word_item(s: &String) -> (r: bool)
    ensures
        r == is_word(s@),
{
    let st = s.as_str();
    let n = st.unicode_len();
    proof {
        assert(st@.subrange(0, n as int) =~= st@);
    }
    is_word_range(st, 0, n)
}

/// The strategy a tag word names, if any.
fn word_strategy(s: &String) -> (r: Option<StrategyTag>)
    ensures
        r == strategy_of_word(s@),
{
    if *s == String::from_str("regular") {
        Option::Some(StrategyTag::Regular)
    } else if *s == String::from_str("copy") {
        Option::Some(StrategyTag::Copy)
    } else if *s == String::from_str("flatten") {
        Option::Some(StrategyTag::Flatten)
    } else if *s == String::from_str("unbox") {
        Option::Some(StrategyTag::Unbox)
    } else if *s == String::from_str("rebutcher") {
        Option::Some(StrategyTag::Recurse)
    } else {
        Option::None
    }
}

/// Parse one annotation: resolve the tag and collect the verbatim bound
/// clauses, or say how the annotation is malformed.
#[verifier::loop_isolation(false)]
pub fn parse_annotation(items: &Vec<String>) -> (r: Result<
    (StrategyTag, Vec<String>),
    AnnotationError,
>)
    ensures
        r matches Ok(p) ==> parsed_annotation(items.deep_view()) == Result::<
            (StrategyTag, Seq<Seq<char>>),
            AnnotationError,
        >::Ok((p.0, p.1.deep_view())),
        r matches Err(e) ==> parsed_annotation(items.deep_view()) == Result::<
            (StrategyTag, Seq<Seq<char>>),
            AnnotationError,
        >::Err(e),
{
    let ghost dv = items.deep_view();
    proof {
        assert(dv.len() == items.len());
    }
    if items.len() == 0 {
        return Result::Err(AnnotationError::Syntax);
    }
    let mut bounds: Vec<String> = Vec::new();
    let tag: StrategyTag;
    proof {
        assert(dv[0] == items[0]@);
    }
    if is_word_item(&items[0]) {
        match word_strategy(&items[0]) {
            Option::Some(t) => {
                tag = t;
            },
            Option::None => {
                return Result::Err(AnnotationError::UnknownStrategy);
            },
        }
    } else if is_valid_bound(&items[0]) {
        tag = StrategyTag::Regular;
        bounds.push(items[0].clone());
    } else {
        return Result::Err(AnnotationError::Syntax);
    }
    let ghost head = bounds.deep_view();
    proof {
        if is_word(dv[0]) {
            assert(head =~= Seq::<Seq<char>>::empty());
        } else {
            assert(head =~= seq![dv[0]]);
        }
        assert(bounds.deep_view() =~= head + dv.subrange(1, 1));
    }
    let mut j: usize = 1;
    while j < items.len()
        invariant
            1 <= j <= items.len(),
            dv == items.deep_view(),
            dv.len() == items.len(),
            items.len() > 0,
            forall|m: int| 1 <= m < j ==> valid_bound(#[trigger] dv[m]),
            bounds.deep_view() == head + dv.subrange(1, j as int),
            is_word(dv[0]) ==> head == Seq::<Seq<char>>::empty() && strategy_of_word(dv[0])
                == Option::Some(tag),
            !is_word(dv[0]) ==> head == seq![dv[0]] && valid_bound(dv[0]) && tag
                == StrategyTag::Regular,
        decreases items.len() - j,
    {
        proof {
            assert(dv[j as int] == items[j as int]@);
        }
        if !is_valid_bound(&items[j]) {
            proof {
                assert(!trailing_ok(dv));
            }
            return Result::Err(AnnotationError::Syntax);
        }
        let c = items[j].clone();
        let ghost prevv = bounds@;
        let ghost prevdv = bounds.deep_view();
        bounds.push(c);
        proof {
            assert(bounds@ == prevv.push(c));
            assert forall|m: int| 0 <= m < bounds@.len() implies bounds.deep_view()[m] == (head
                + dv.subrange(1, (j + 1) as int))[m] by {
                if m < prevv.len() {
                    assert(bounds.deep_view()[m] == prevdv[m]);
                } else {
                    assert(bounds@[m] == c);
                    assert(bounds.deep_view()[m] == c@);
                    assert(dv[j as int] == items@[j as int]@);
                }
            }
            assert(bounds.deep_view() =~= head + dv.subrange(1, (j + 1) as int));
        }
        j = j + 1;
    }
    proof {
        assert(trailing_ok(dv));
        if is_word(dv[0]) {
            assert(bounds.deep_view() =~= dv.subrange(1, dv.len() as int));
        } else {
            assert(bounds.deep_view() =~= dv);
        }
    }
        Result::Ok((tag, bounds))
}

/// Read one field: resolve its strategy and keep its bound clauses.
pub fn read_field(rf: &RawField) -> (r: Result<Field, AnnotationError>)
    ensures
        r is Ok <==> !field_fails(*rf),
        r matches Ok(f) ==> field_read(*rf, f),
        r matches Err(e) ==> field_outcome(*rf) == Result::<
            (StrategyTag, Seq<Seq<char>>),
            AnnotationError,
        >::Err(e),
{
    match &rf.annotation {
        Option::None => {
            let f = Field {
                ident: rf.ident.clone(),
                ty: rf.ty.duplicate(),
                strategy: StrategyTag::Regular,
                extra_bounds: Vec::new(),
            };
            proof {
                assert(f.extra_bounds.deep_view() =~= Seq::<Seq<char>>::empty());
            }
            Result::Ok(f)
        },
        Option::Some(items) => match parse_annotation(items) {
            Result::Ok((tag, bounds)) => Result::Ok(
                Field {
                    ident: rf.ident.clone(),
                    ty: rf.ty.duplicate(),
                    strategy: tag,
                    extra_bounds: bounds,
                },
            ),
            Result::Err(e) => Result::Err(e),
        },
    }
}

/// Attach the field name to an annotation failure.
fn attach_field(e: AnnotationError, ident: &String) -> (r: GenerationError)
    ensures
        e is Syntax ==> r == (GenerationError::AnnotationSyntax { field: *ident }),
        e is UnknownStrategy ==> r == (GenerationError::UnknownStrategy { field: *ident }),
{
    match e {
        AnnotationError::Syntax => GenerationError::AnnotationSyntax { field: ident.clone() },
        AnnotationError::UnknownStrategy => GenerationError::UnknownStrategy {
            field: ident.clone(),
        },
    }
}

/// Read every field of a record or a variant, stopping at the first
/// failing one.
fn read_fields(fields: &Vec<RawField>) -> (r: Result<Vec<Field>, GenerationError>)
    ensures
        r is Ok <==> (forall|i: int| 0 <= i < fields.len() ==> !field_fails(#[trigger] fields[i])),
        r matches Ok(fs) ==> fs.len() == fields.len() && (forall|i: int|
            0 <= i < fields.len() ==> field_read(fields[i], #[trigger] fs[i])),
        r matches Err(e) ==> exists|i: int|
            0 <= i < fields.len() && #[trigger] field_fails(fields[i]) && (forall|j: int|
                0 <= j < i ==> !field_fails(#[trigger] fields[j])) && e == field_error(fields[i]),
{
    let mut out: Vec<Field> = Vec::new();
    let mut i: usize = 0;
    while i < fields.len()
        invariant
            0 <= i <= fields.len(),
            out.len() == i,
            forall|j: int| 0 <= j < i ==> !field_fails(#[trigger] fields[j]),
            forall|j: int| 0 <= j < i ==> field_read(fields[j], #[trigger] out[j]),
        decreases fields.len() - i,
    {
        match read_field(&fields[i]) {
            Result::Ok(f) => {
                out.push(f);
            },
            Result::Err(e) => {
                return Result::Err(attach_field(e, &fields[i].ident));
            },
        }
        i = i + 1;
    }
    Result::Ok(out)
}

/// Read a whole declaration into the internal model, resolving every field
/// to exactly one strategy, or fail on the first offending field.
#[verifier::loop_isolation(false)]
pub fn read_declaration(raw: &RawDeclaration) -> (r: Result<TypeDeclaration, GenerationError>)
    ensures
        r matches Ok(d) ==> {
            &&& d.ident == raw.ident
            &&& d.generics.bracketed == raw.generics.bracketed
            &&& d.generics.params@ == raw.generics.params@
            &&& match (raw.body, d.body) {
                (RawBody::Record(rfs), Body::Record(fs)) => fs.len() == rfs.len() && (forall|i: int|
                    0 <= i < rfs.len() ==> field_read(rfs[i], #[trigger] fs[i])),
                (RawBody::Sum(rvs), Body::Sum(vs)) => vs.len() == rvs.len() && (forall|i: int|
                    0 <= i < rvs.len() ==> variant_read(rvs[i], #[trigger] vs[i])),
                _ => false,
            }
        },
        r is Ok <==> match raw.body {
            RawBody::Record(rfs) => forall|i: int|
                0 <= i < rfs.len() ==> !field_fails(#[trigger] rfs[i]),
            RawBody::Sum(rvs) => forall|i: int| 0 <= i < rvs.len() ==> variant_ok(#[trigger] rvs[i]),
        },
        r matches Err(e) ==> match raw.body {
            RawBody::Record(rfs) => exists|i: int|
                0 <= i < rfs.len() && #[trigger] field_fails(rfs[i]) && (forall|j: int|
                    0 <= j < i ==> !field_fails(#[trigger] rfs[j])) && e == field_error(rfs[i]),
            RawBody::Sum(rvs) => exists|i: int, k: int|
                {
                    &&& 0 <= i < rvs.len()
                    &&& (forall|j: int| 0 <= j < i ==> variant_ok(#[trigger] rvs[j]))
                    &&& 0 <= k < rvs[i].fields.len()
                    &&& #[trigger] field_fails(rvs[i].fields[k])
                    &&& (forall|j: int| 0 <= j < k ==> !field_fails(#[trigger] rvs[i].fields[j]))
                    &&& e == field_error(rvs[i].fields[k])
                },
        },
{
    let body: Body = match &raw.body {
        RawBody::Record(rfs) => match read_fields(rfs) {
            Result::Ok(fs) => Body::Record(fs),
            Result::Err(e) => {
                proof {
                    let i = choose|i: int|
                        0 <= i < rfs.len() && #[trigger] field_fails(rfs[i]) && (forall|j: int|
                            0 <= j < i ==> !field_fails(#[trigger] rfs[j])) && e == field_error(
                            rfs[i],
                        );
                    assert(field_fails(rfs[i]));
                }
                return Result::Err(e);
            },
        },
        RawBody::Sum(rvs) => {
            let mut out: Vec<Variant> = Vec::new();
            let mut i: usize = 0;
            while i < rvs.len()
                invariant
                    0 <= i <= rvs.len(),
                    out.len() == i,
                    forall|j: int| 0 <= j < i ==> variant_ok(#[trigger] rvs@[j]),
                    forall|j: int| 0 <= j < i ==> variant_read(rvs@[j], #[trigger] out[j]),
                decreases rvs.len() - i,
            {
                match read_fields(&rvs[i].fields) {
                    Result::Ok(fs) => {
                        out.push(Variant { ident: rvs[i].ident.clone(), fields: fs });
                    },
                    Result::Err(e) => {
                        proof {
                            let k = choose|k: int|
                                0 <= k < rvs[i as int].fields.len() && #[trigger] field_fails(
                                    rvs[i as int].fields[k],
                                ) && (forall|j: int|
                                    0 <= j < k ==> !field_fails(
                                        #[trigger] rvs[i as int].fields[j],
                                    )) && e == field_error(rvs[i as int].fields[k]);
                            assert(field_fails(rvs[i as int].fields[k]));
                            assert(!variant_ok(rvs[i as int]));
                            assert(exists|i2: int, k2: int|
                                {
                                    &&& 0 <= i2 < rvs.len()
                                    &&& (forall|j: int| 0 <= j < i2 ==> variant_ok(#[trigger] rvs[j]))
                                    &&& 0 <= k2 < rvs[i2].fields.len()
                                    &&& #[trigger] field_fails(rvs[i2].fields[k2])
                                    &&& (forall|j: int|
                                        0 <= j < k2 ==> !field_fails(#[trigger] rvs[i2].fields[j]))
                                    &&& e == field_error(rvs[i2].fields[k2])
                                }) by {
                                assert(forall|j: int|
                                    0 <= j < i ==> variant_ok(#[trigger] rvs[j]));
                            }
                        }
                        return Result::Err(e);
                    },
                }
                i = i + 1;
            }
            Body::Sum(out)
        },
    };
    Result::Ok(
        TypeDeclaration { ident: raw.ident.clone(), generics: raw.generics.duplicate(), body },
    )
}


} // verus!
