//! Schema extraction: interpret the `patch`-namespace annotations of a raw
//! declaration and produce the normalized [`TypeSchema`], or reject the
//! declaration with the first error found.
//!
//! Type-level annotations are read first, in order; then each field is
//! processed in declaration order: its declared type is classified, then its
//! annotations are folded.  No partial schema is ever produced.

use vstd::prelude::*;
use crate::parse::is_patch_attr;
use crate::parse::is_patch_attr_exec;
use crate::parse::parse_attr;
use crate::parse::parse_attr_spec;
use crate::parse::AttrForm;
use crate::parse::AttrFormV;
use crate::schema::ExtractError;
use crate::schema::FieldName;
use crate::schema::FieldNameV;
use crate::schema::FieldSchema;
use crate::schema::FieldSchemaV;
use crate::schema::FlatToken;
use crate::schema::FlatTokenV;
use crate::schema::PolicyAttr;
use crate::schema::RawAttrV;
use crate::schema::RawData;
use crate::schema::RawDataV;
use crate::schema::RawDecl;
use crate::schema::RawDeclV;
use crate::schema::RawField;
use crate::schema::RawFieldV;
use crate::schema::TypeSchema;
use crate::schema::TypeSchemaV;
use crate::text::path_ok;
use crate::text::path_ok_exec;
use crate::text::string_eq_str;

verus! {

// ---------------------------------------------------------------------------
// Type-level annotations.
// ---------------------------------------------------------------------------

/// Accumulated type-level annotations.
pub struct TypeAnnV {
    pub targets: Seq<Seq<char>>,
    pub policy: Option<PolicyAttr>,
    pub apply: Option<Seq<char>>,
}

/// No type-level annotation seen yet.
pub open spec fn type_ann_init() -> TypeAnnV {
    TypeAnnV { targets: Seq::empty(), policy: None, apply: None }
}

/// Interpret one type-level annotation payload.
///
/// `= "<path>"` registers a target (repeatable; the path must be
/// well-formed); `(direct)` and `(as_option)` set the default policy and
/// conflict with each other; `(apply = <fn>)` sets the default custom merge
/// function, at most once; anything else is malformed or unknown.
pub open spec fn type_ann_step(acc: TypeAnnV, ts: Seq<FlatTokenV>) -> Result<
    TypeAnnV,
    ExtractError,
> {
    match parse_attr_spec(ts) {
        Option::None => Result::Err(ExtractError::MalformedAnnotation),
        Option::Some(form) => match form {
            AttrFormV::Target(p) => if path_ok(p) {
                Result::Ok(TypeAnnV { targets: acc.targets.push(p), ..acc })
            } else {
                Result::Err(ExtractError::MalformedTargetPath)
            },
            AttrFormV::Word(w) => if w == "direct"@ {
                if acc.policy == Some(PolicyAttr::AsOption) {
                    Result::Err(ExtractError::ConflictingPolicies)
                } else {
                    Result::Ok(TypeAnnV { policy: Some(PolicyAttr::Direct), ..acc })
                }
            } else if w == "as_option"@ {
                if acc.policy == Some(PolicyAttr::Direct) {
                    Result::Err(ExtractError::ConflictingPolicies)
                } else {
                    Result::Ok(TypeAnnV { policy: Some(PolicyAttr::AsOption), ..acc })
                }
            } else {
                Result::Err(ExtractError::UnknownAnnotation)
            },
            AttrFormV::KeyPath(k, p) => if k == "apply"@ {
                if acc.apply is Some {
                    Result::Err(ExtractError::DuplicateAnnotation)
                } else {
                    Result::Ok(TypeAnnV { apply: Some(p), ..acc })
                }
            } else {
                Result::Err(ExtractError::UnknownAnnotation)
            },
        },
    }
}

/// Fold the `patch`-namespace payloads of the first `i` attributes.
pub open spec fn type_ann_upto(attrs: Seq<RawAttrV>, i: int) -> Result<TypeAnnV, ExtractError>
    decreases i,
{
    if 0 < i && i <= attrs.len() {
        match type_ann_upto(attrs, i - 1) {
            Result::Err(e) => Result::Err(e),
            Result::Ok(acc) => if is_patch_attr(attrs[i - 1]) {
                type_ann_step(acc, attrs[i - 1].tokens)
            } else {
                Result::Ok(acc)
            },
        }
    } else {
        Result::Ok(type_ann_init())
    }
}

/// An error among the first `i` attributes persists through the rest of the
/// fold.
pub proof fn lemma_type_ann_err(attrs: Seq<RawAttrV>, i: int, j: int)
    requires
        0 <= i <= j <= attrs.len(),
        type_ann_upto(attrs, i) is Err,
    ensures
        type_ann_upto(attrs, j) == type_ann_upto(attrs, i),
    decreases j - i,
{
    if j > i {
        lemma_type_ann_err(attrs, i, j - 1);
    }
}

// ---------------------------------------------------------------------------
// Field-level annotations.
// ---------------------------------------------------------------------------

/// Accumulated field-level annotations.
pub struct FieldAnnV {
    pub policy: Option<PolicyAttr>,
    pub skip: bool,
    pub skip_if: Option<Seq<char>>,
    pub apply: Option<Seq<char>>,
}

/// No field-level annotation seen yet.
pub open spec fn field_ann_init() -> FieldAnnV {
    FieldAnnV { policy: None, skip: false, skip_if: None, apply: None }
}

/// Interpret one field-level annotation payload.
///
/// `(direct)` and `(as_option)` override the policy and conflict with each
/// other; `(skip)` drops the field; `(skip_if = <fn>)` guards the merge and
/// `(apply = <fn>)` replaces it, each at most once; the target shape
/// `= "<path>"` and everything else is malformed or unknown.
pub open spec fn field_ann_step(acc: FieldAnnV, ts: Seq<FlatTokenV>) -> Result<
    FieldAnnV,
    ExtractError,
> {
    match parse_attr_spec(ts) {
        Option::None => Result::Err(ExtractError::MalformedAnnotation),
        Option::Some(form) => match form {
            AttrFormV::Target(p) => Result::Err(ExtractError::MalformedAnnotation),
            AttrFormV::Word(w) => if w == "direct"@ {
                if acc.policy == Some(PolicyAttr::AsOption) {
                    Result::Err(ExtractError::ConflictingPolicies)
                } else {
                    Result::Ok(FieldAnnV { policy: Some(PolicyAttr::Direct), ..acc })
                }
            } else if w == "as_option"@ {
                if acc.policy == Some(PolicyAttr::Direct) {
                    Result::Err(ExtractError::ConflictingPolicies)
                } else {
                    Result::Ok(FieldAnnV { policy: Some(PolicyAttr::AsOption), ..acc })
                }
            } else if w == "skip"@ {
                Result::Ok(FieldAnnV { skip: true, ..acc })
            } else {
                Result::Err(ExtractError::UnknownAnnotation)
            },
            AttrFormV::KeyPath(k, p) => if k == "skip_if"@ {
                if acc.skip_if is Some {
                    Result::Err(ExtractError::DuplicateAnnotation)
                } else {
                    Result::Ok(FieldAnnV { skip_if: Some(p), ..acc })
                }
            } else if k == "apply"@ {
                if acc.apply is Some {
                    Result::Err(ExtractError::DuplicateAnnotation)
                } else {
                    Result::Ok(FieldAnnV { apply: Some(p), ..acc })
                }
            } else {
                Result::Err(ExtractError::UnknownAnnotation)
            },
        },
    }
}

/// Fold the `patch`-namespace payloads of the first `i` attributes of a
/// field.
pub open spec fn field_ann_upto(attrs: Seq<RawAttrV>, i: int) -> Result<FieldAnnV, ExtractError>
    decreases i,
{
    if 0 < i && i <= attrs.len() {
        match field_ann_upto(attrs, i - 1) {
            Result::Err(e) => Result::Err(e),
            Result::Ok(acc) => if is_patch_attr(attrs[i - 1]) {
                field_ann_step(acc, attrs[i - 1].tokens)
            } else {
                Result::Ok(acc)
            },
        }
    } else {
        Result::Ok(field_ann_init())
    }
}

/// An error among the first `i` attributes persists through the rest of the
/// fold.
pub proof fn lemma_field_ann_err(attrs: Seq<RawAttrV>, i: int, j: int)
    requires
        0 <= i <= j <= attrs.len(),
        field_ann_upto(attrs, i) is Err,
    ensures
        field_ann_upto(attrs, j) == field_ann_upto(attrs, i),
    decreases j - i,
{
    if j > i {
        lemma_field_ann_err(attrs, i, j - 1);
    }
}

// ---------------------------------------------------------------------------
// Fields.
// ---------------------------------------------------------------------------

/// Whether the declared type is optional-wrapped, judged by its first
/// token: an identifier that reads `Option`.  A type that does not begin
/// with an identifier cannot be classified.
pub open spec fn classify_spec(ty: Seq<FlatTokenV>) -> Option<bool> {
    if ty.len() > 0 && ty[0] is Word {
        Some(ty[0]->Word_0 == "Option"@)
    } else {
        None
    }
}

/// Extract one field's schema entry under the given schema name.
pub open spec fn extract_field_spec(name: FieldNameV, f: RawFieldV) -> Result<
    FieldSchemaV,
    ExtractError,
> {
    match classify_spec(f.ty) {
        Option::None => Result::Err(ExtractError::UnclassifiableFieldType),
        Option::Some(optional) => match field_ann_upto(f.attrs, f.attrs.len() as int) {
            Result::Err(e) => Result::Err(e),
            Result::Ok(ann) => Result::Ok(
                FieldSchemaV {
                    name,
                    optional,
                    policy: ann.policy,
                    skip: ann.skip,
                    skip_if: ann.skip_if,
                    apply: ann.apply,
                },
            ),
        },
    }
}

/// The schema name of field `i`: its identifier when fields are named, its
/// position otherwise.
pub open spec fn field_name_spec(fs: Seq<RawFieldV>, named: bool, i: int) -> FieldNameV {
    if named {
        FieldNameV::Ident(fs[i].ident.unwrap())
    } else {
        FieldNameV::Index(i)
    }
}

/// Extract the schema entries of the first `i` fields, in order.
pub open spec fn fields_upto(fs: Seq<RawFieldV>, named: bool, i: int) -> Result<
    Seq<FieldSchemaV>,
    ExtractError,
>
    decreases i,
{
    if 0 < i && i <= fs.len() {
        match fields_upto(fs, named, i - 1) {
            Result::Err(e) => Result::Err(e),
            Result::Ok(done) => match extract_field_spec(field_name_spec(fs, named, i - 1), fs[i
                - 1]) {
                Result::Err(e) => Result::Err(e),
                Result::Ok(fv) => Result::Ok(done.push(fv)),
            },
        }
    } else {
        Result::Ok(Seq::empty())
    }
}

/// An error among the first `i` fields persists through the rest of the
/// fold.
pub proof fn lemma_fields_err(fs: Seq<RawFieldV>, named: bool, i: int, j: int)
    requires
        0 <= i <= j <= fs.len(),
        fields_upto(fs, named, i) is Err,
    ensures
        fields_upto(fs, named, j) == fields_upto(fs, named, i),
    decreases j - i,
{
    if j > i {
        lemma_fields_err(fs, named, i, j - 1);
    }
}

// ---------------------------------------------------------------------------
// The whole declaration.
// ---------------------------------------------------------------------------

/// The field list of a declaration's body.
pub open spec fn decl_fields(d: RawDataV) -> Seq<RawFieldV> {
    match d {
        RawDataV::Named(fs) => fs,
        RawDataV::Unnamed(fs) => fs,
        RawDataV::Unit => Seq::empty(),
        RawDataV::Other => Seq::empty(),
    }
}

/// The normalized schema of a declaration, or the first extraction error.
///
/// A declaration that is not struct-like is rejected outright; then the
/// type-level annotations are folded in order; then each field in
/// declaration order is classified and its annotations folded.
pub open spec fn extract_spec(d: RawDeclV) -> Result<TypeSchemaV, ExtractError> {
    if d.data is Other {
        Result::Err(ExtractError::NotAStruct)
    } else {
        match type_ann_upto(d.attrs, d.attrs.len() as int) {
            Result::Err(e) => Result::Err(e),
            Result::Ok(ta) => {
                let fs = decl_fields(d.data);
                match fields_upto(fs, d.data is Named, fs.len() as int) {
                    Result::Err(e) => Result::Err(e),
                    Result::Ok(fields) => Result::Ok(
                        TypeSchemaV {
                            ident: d.ident,
                            fields,
                            targets: ta.targets,
                            policy: ta.policy,
                            apply: ta.apply,
                        },
                    ),
                }
            },
        }
    }
}

/// The spec-level value of an extraction result.
pub open spec fn extract_res_view(r: Result<TypeSchema, ExtractError>) -> Result<
    TypeSchemaV,
    ExtractError,
> {
    match r {
        Result::Ok(s) => Result::Ok(s@),
        Result::Err(e) => Result::Err(e),
    }
}

/// Classify a field's declared type as optional-wrapped or not.
pub fn classify_field(ty: &Vec<FlatToken>) -> (r: Option<bool>)
    ensures
        r == classify_spec(ty.deep_view()),
{
    if ty.len() > 0 {
        if let FlatToken::Word(w0) = &ty[0] {
            return Some(string_eq_str(w0, "Option"));
        }
        return None;
    }
    None
}

/// Extract the normalized schema of a raw declaration, or reject it with
/// the first error found.
///
/// Named fields are expected to carry their identifiers, as the host
/// language guarantees for a well-formed declaration.
#[verifier::loop_isolation(false)]
pub fn extract_schema(decl: RawDecl) -> (r: Result<TypeSchema, ExtractError>)
    requires
        decl@.data matches RawDataV::Named(fs) ==> forall|i: int|
            0 <= i < fs.len() ==> (#[trigger] fs[i].ident) is Some,
    ensures
        extract_res_view(r) == extract_spec(decl@),
{
    let ghost dv = decl@;
    let RawDecl { ident, attrs, data } = decl;
    if let RawData::Other = &data {
        return Result::Err(ExtractError::NotAStruct);
    }
    assert(!(dv.data is Other));

    // Type-level pass.
    let ghost av = dv.attrs;
    let mut targets: Vec<String> = Vec::new();
    let mut t_policy: Option<PolicyAttr> = None;
    let mut t_apply: Option<String> = None;
    let na = attrs.len();
    assert(av == attrs.deep_view());
    proof {
        assert(targets.deep_view() =~= Seq::<Seq<char>>::empty());
    }
    for k in 0..na
        invariant
            na == av.len(),
            av == attrs.deep_view(),
            type_ann_upto(av, k as int) == Result::Ok::<TypeAnnV, ExtractError>(
                TypeAnnV {
                    targets: targets.deep_view(),
                    policy: t_policy,
                    apply: t_apply.deep_view(),
                },
            ),
    {
        let ghost acc0 = TypeAnnV {
            targets: targets.deep_view(),
            policy: t_policy,
            apply: t_apply.deep_view(),
        };
        assert(av[k as int] == attrs@[k as int]@);
        if is_patch_attr_exec(&attrs[k]) {
            let parsed = parse_attr(&attrs[k].tokens);
            proof {
                assert(parsed.deep_view() == parse_attr_spec(av[k as int].tokens));
            }
            match parsed {
                Option::None => {
                    proof {
                        assert(type_ann_upto(av, k as int + 1) == Result::Err::<
                            TypeAnnV,
                            ExtractError,
                        >(ExtractError::MalformedAnnotation));
                        lemma_type_ann_err(av, k as int + 1, av.len() as int);
                        assert(extract_spec(dv) == Result::Err::<TypeSchemaV, ExtractError>(
                            ExtractError::MalformedAnnotation,
                        ));
                    }
                    return Result::Err(ExtractError::MalformedAnnotation);
                },
                Option::Some(AttrForm::Target(p)) => {
                    if path_ok_exec(p.as_str()) {
                        let ghost prev = targets;
                        let ghost pv = p@;
                        targets.push(p);
                        proof {
                            crate::util::lemma_deep_view_push(prev, targets, p);
                            assert(targets.deep_view() == acc0.targets.push(pv));
                        }
                    } else {
                        proof {
                            lemma_type_ann_err(av, k as int + 1, av.len() as int);
                        }
                        return Result::Err(ExtractError::MalformedTargetPath);
                    }
                },
                Option::Some(AttrForm::Word(w)) => {
                    if string_eq_str(&w, "direct") {
                        if matches!(t_policy, Some(PolicyAttr::AsOption)) {
                            proof {
                                lemma_type_ann_err(av, k as int + 1, av.len() as int);
                            }
                            return Result::Err(ExtractError::ConflictingPolicies);
                        }
                        t_policy = Some(PolicyAttr::Direct);
                    } else if string_eq_str(&w, "as_option") {
                        if matches!(t_policy, Some(PolicyAttr::Direct)) {
                            proof {
                                lemma_type_ann_err(av, k as int + 1, av.len() as int);
                            }
                            return Result::Err(ExtractError::ConflictingPolicies);
                        }
                        t_policy = Some(PolicyAttr::AsOption);
                    } else {
                        proof {
                            lemma_type_ann_err(av, k as int + 1, av.len() as int);
                        }
                        return Result::Err(ExtractError::UnknownAnnotation);
                    }
                },
                Option::Some(AttrForm::KeyPath(kw, p)) => {
                    if string_eq_str(&kw, "apply") {
                        if t_apply.is_some() {
                            proof {
                                lemma_type_ann_err(av, k as int + 1, av.len() as int);
                            }
                            return Result::Err(ExtractError::DuplicateAnnotation);
                        }
                        t_apply = Some(p);
                    } else {
                        proof {
                            lemma_type_ann_err(av, k as int + 1, av.len() as int);
                        }
                        return Result::Err(ExtractError::UnknownAnnotation);
                    }
                },
            }
        }
    }
    let ghost tacc = TypeAnnV {
        targets: targets.deep_view(),
        policy: t_policy,
        apply: t_apply.deep_view(),
    };
    assert(type_ann_upto(av, av.len() as int) == Result::Ok::<TypeAnnV, ExtractError>(tacc));

    // Field pass.
    let (fields_vec, named) = match data {
        RawData::Named(fs) => (fs, true),
        RawData::Unnamed(fs) => (fs, false),
        RawData::Unit => (Vec::new(), false),
        RawData::Other => vstd::pervasive::unreached(),
    };
    let ghost fsv = decl_fields(dv.data);
    proof {
        assert(fsv =~= fields_vec.deep_view());
        assert(named == (dv.data is Named));
    }

    let mut out_fields: Vec<FieldSchema> = Vec::new();
    proof {
        assert(out_fields.deep_view() =~= Seq::<FieldSchemaV>::empty());
    }
    let nf = fields_vec.len();
    for i in 0..nf
        invariant
            nf == fsv.len(),
            fsv == fields_vec.deep_view(),
            named == (dv.data is Named),
            dv.data matches RawDataV::Named(fs2) ==> forall|q: int|
                0 <= q < fs2.len() ==> (#[trigger] fs2[q].ident) is Some,
            decl_fields(dv.data) == fsv,
            fields_upto(fsv, named, i as int) == Result::Ok::<Seq<FieldSchemaV>, ExtractError>(
                out_fields.deep_view(),
            ),
    {
        let f = &fields_vec[i];
        assert(f@ == fsv[i as int]);
        let classified = classify_field(&f.ty);
        if classified.is_none() {
            proof {
                assert(fields_upto(fsv, named, i as int + 1) is Err);
                lemma_fields_err(fsv, named, i as int + 1, fsv.len() as int);
            }
            return Result::Err(ExtractError::UnclassifiableFieldType);
        }
        let optional = classified.unwrap();
        assert(classify_spec(fsv[i as int].ty) == Some(optional));

        // Field-level annotations.
        let ghost fav = fsv[i as int].attrs;
        let mut f_policy: Option<PolicyAttr> = None;
        let mut f_skip = false;
        let mut f_skip_if: Option<String> = None;
        let mut f_apply: Option<String> = None;
        let nfa = f.attrs.len();
        assert(fav == f.attrs.deep_view());
        for j in 0..nfa
            invariant
                nfa == fav.len(),
                fav == f.attrs.deep_view(),
                nf == fsv.len(),
                i < nf,
                fav == fsv[i as int].attrs,
                named == (dv.data is Named),
                fields_upto(fsv, named, i as int) == Result::Ok::<
                    Seq<FieldSchemaV>,
                    ExtractError,
                >(out_fields.deep_view()),
                field_ann_upto(fav, j as int) == Result::Ok::<FieldAnnV, ExtractError>(
                    FieldAnnV {
                        policy: f_policy,
                        skip: f_skip,
                        skip_if: f_skip_if.deep_view(),
                        apply: f_apply.deep_view(),
                    },
                ),
        {
            let ghost facc0 = FieldAnnV {
                policy: f_policy,
                skip: f_skip,
                skip_if: f_skip_if.deep_view(),
                apply: f_apply.deep_view(),
            };
            assert(fav[j as int] == f.attrs@[j as int]@);
            if is_patch_attr_exec(&f.attrs[j]) {
                let parsed = parse_attr(&f.attrs[j].tokens);
                proof {
                    assert(parsed.deep_view() == parse_attr_spec(fav[j as int].tokens));
                }
                let mut step_err: Option<ExtractError> = None;
                match parsed {
                    Option::None => {
                        step_err = Some(ExtractError::MalformedAnnotation);
                    },
                    Option::Some(AttrForm::Target(_p)) => {
                        step_err = Some(ExtractError::MalformedAnnotation);
                    },
                    Option::Some(AttrForm::Word(w)) => {
                        if string_eq_str(&w, "direct") {
                            if matches!(f_policy, Some(PolicyAttr::AsOption)) {
                                step_err = Some(ExtractError::ConflictingPolicies);
                            } else {
                                f_policy = Some(PolicyAttr::Direct);
                            }
                        } else if string_eq_str(&w, "as_option") {
                            if matches!(f_policy, Some(PolicyAttr::Direct)) {
                                step_err = Some(ExtractError::ConflictingPolicies);
                            } else {
                                f_policy = Some(PolicyAttr::AsOption);
                            }
                        } else if string_eq_str(&w, "skip") {
                            f_skip = true;
                        } else {
                            step_err = Some(ExtractError::UnknownAnnotation);
                        }
                    },
                    Option::Some(AttrForm::KeyPath(kw, p)) => {
                        if string_eq_str(&kw, "skip_if") {
                            if f_skip_if.is_some() {
                                step_err = Some(ExtractError::DuplicateAnnotation);
                            } else {
                                f_skip_if = Some(p);
                            }
                        } else if string_eq_str(&kw, "apply") {
                            if f_apply.is_some() {
                                step_err = Some(ExtractError::DuplicateAnnotation);
                            } else {
                                f_apply = Some(p);
                            }
                        } else {
                            step_err = Some(ExtractError::UnknownAnnotation);
                        }
                    },
                }
                if let Some(e) = step_err {
                    proof {
                        assert(field_ann_step(facc0, fav[j as int].tokens) == Result::Err::<
                            FieldAnnV,
                            ExtractError,
                        >(e));
                        assert(field_ann_upto(fav, j as int + 1) == Result::Err::<
                            FieldAnnV,
                            ExtractError,
                        >(e));
                        lemma_field_ann_err(fav, j as int + 1, fav.len() as int);
                        assert(extract_field_spec(
                            field_name_spec(fsv, named, i as int),
                            fsv[i as int],
                        ) == Result::Err::<FieldSchemaV, ExtractError>(e));
                        assert(fields_upto(fsv, named, i as int + 1) == Result::Err::<
                            Seq<FieldSchemaV>,
                            ExtractError,
                        >(e));
                        lemma_fields_err(fsv, named, i as int + 1, fsv.len() as int);
                    }
                    return Result::Err(e);
                }
            }
        }

        // Assemble the field.
        let name = if named {
            match &f.ident {
                Some(s) => FieldName::Ident(s.clone()),
                None => vstd::pervasive::unreached(),
            }
        } else {
            FieldName::Index(i)
        };
        let entry = FieldSchema {
            name,
            optional,
            policy: f_policy,
            skip: f_skip,
            skip_if: f_skip_if,
            apply: f_apply,
        };
        let ghost gentry = entry;
        let ghost ev = entry@;
        let ghost prev_out = out_fields;
        proof {
            assert(extract_field_spec(field_name_spec(fsv, named, i as int), fsv[i as int])
                == Result::Ok::<FieldSchemaV, ExtractError>(ev));
        }
        out_fields.push(entry);
        proof {
            crate::util::lemma_deep_view_push(prev_out, out_fields, gentry);
            assert(fields_upto(fsv, named, i as int + 1) == Result::Ok::<
                Seq<FieldSchemaV>,
                ExtractError,
            >(out_fields.deep_view()));
        }
    }

    let schema = TypeSchema { ident, fields: out_fields, targets, policy: t_policy, apply: t_apply };
    proof {
        assert(extract_spec(dv) == Result::Ok::<TypeSchemaV, ExtractError>(schema@));
    }
    Result::Ok(schema)
}

} // verus!
