//! The merge laws: what applying a patch does to each target field, stated
//! and proved over the value-level model and the policy resolver.

use vstd::prelude::*;
use crate::emit::impl_text;
use crate::extract::decl_fields;
use crate::extract::extract_field_spec;
use crate::extract::extract_spec;
use crate::extract::field_ann_upto;
use crate::extract::field_name_spec;
use crate::extract::fields_upto;
use crate::extract::lemma_field_ann_err;
use crate::extract::lemma_fields_err;
use crate::extract::lemma_type_ann_err;
use crate::extract::type_ann_upto;
use crate::parse::is_patch_attr;
use crate::parse::parse_attr_spec;
use crate::parse::AttrFormV;
use crate::record::apply_from;
use crate::record::apply_spec;
use crate::record::apply_value_spec;
use crate::record::find_from;
use crate::record::lemma_find_from;
use crate::record::set_field;
use crate::record::FieldValueV;
use crate::record::RecordFieldV;
use crate::record::ScalarV;
use crate::resolve::resolve_all_spec;
use crate::resolve::resolve_spec;
use crate::schema::FieldNameV;
use crate::schema::FieldSchemaV;
use crate::schema::MergePolicyV;
use crate::schema::PolicyAttr;
use crate::schema::RawAttrV;
use crate::schema::RawDeclV;
use crate::schema::TypeSchemaV;

verus! {

/// The first schema field at or after `i` whose name is `n`.
pub open spec fn sch_find(s: TypeSchemaV, n: FieldNameV, i: int) -> Option<int>
    decreases s.fields.len() - i,
{
    if 0 <= i && i < s.fields.len() {
        if s.fields[i].name == n {
            Some(i)
        } else {
            sch_find(s, n, i + 1)
        }
    } else {
        None
    }
}

/// Characterizes [`sch_find`]: a hit is the first one, and a miss means no
/// schema field at or after `i` has the name.
pub proof fn lemma_sch_find(s: TypeSchemaV, n: FieldNameV, i: int)
    requires
        0 <= i <= s.fields.len(),
    ensures
        sch_find(s, n, i) matches Some(k) ==> i <= k < s.fields.len() && s.fields[k].name == n
            && forall|m: int| i <= m < k ==> (#[trigger] s.fields[m].name) != n,
        sch_find(s, n, i) is None ==> forall|m: int|
            i <= m < s.fields.len() ==> (#[trigger] s.fields[m].name) != n,
    decreases s.fields.len() - i,
{
    if i < s.fields.len() && s.fields[i].name != n {
        lemma_sch_find(s, n, i + 1);
    }
}

/// No two schema fields share a name.
pub open spec fn distinct_field_names(fields: Seq<FieldSchemaV>) -> bool {
    forall|a: int, b: int|
        0 <= a < b < fields.len() ==> (#[trigger] fields[a].name) != (#[trigger] fields[b].name)
}

/// No two record fields share a name.
pub open spec fn distinct_record_names(r: Seq<RecordFieldV>) -> bool {
    forall|a: int, b: int|
        0 <= a < b < r.len() ==> (#[trigger] r[a].name) != (#[trigger] r[b].name)
}

/// The value a target field ends up with: the patch field of the same
/// name, at or after schema position `i`, merges into it under its
/// resolved policy; without such a patch field it is unchanged.
pub open spec fn merged_outcome(
    s: TypeSchemaV,
    pvs: Seq<FieldValueV>,
    prev_name: FieldNameV,
    prev_val: FieldValueV,
    i: int,
) -> FieldValueV {
    match sch_find(s, prev_name, i) {
        Some(k) => apply_value_spec(
            resolve_spec(s.fields[k], s.policy, s.apply),
            pvs[k],
            prev_val,
        ),
        None => prev_val,
    }
}

/// Applying the patch fields from `i` on acts on each target field
/// independently: its name is kept, and its value is [`merged_outcome`].
pub proof fn lemma_apply_from_pointwise(
    s: TypeSchemaV,
    pvs: Seq<FieldValueV>,
    r: Seq<RecordFieldV>,
    i: int,
)
    requires
        0 <= i <= s.fields.len(),
        pvs.len() == s.fields.len(),
        distinct_field_names(s.fields),
        distinct_record_names(r),
    ensures
        apply_from(s, pvs, r, i).len() == r.len(),
        forall|j: int|
            0 <= j < r.len() ==> (#[trigger] apply_from(s, pvs, r, i)[j]) == (RecordFieldV {
                name: r[j].name,
                value: merged_outcome(s, pvs, r[j].name, r[j].value, i),
            }),
    decreases s.fields.len() - i,
{
    if i < s.fields.len() {
        let f = s.fields[i];
        let pol = resolve_spec(f, s.policy, s.apply);
        let r2 = set_field(r, f.name, pol, pvs[i]);
        lemma_find_from(r, f.name, 0);
        assert(r2.len() == r.len());
        assert(forall|j: int| 0 <= j < r.len() ==> (#[trigger] r2[j].name) == r[j].name);
        assert(distinct_record_names(r2));
        lemma_apply_from_pointwise(s, pvs, r2, i + 1);
        lemma_sch_find(s, f.name, i + 1);
        assert forall|j: int| 0 <= j < r.len() implies (#[trigger] apply_from(s, pvs, r, i)[j])
            == (RecordFieldV {
            name: r[j].name,
            value: merged_outcome(s, pvs, r[j].name, r[j].value, i),
        }) by {
            assert(apply_from(s, pvs, r, i) == apply_from(s, pvs, r2, i + 1));
            if r[j].name == f.name {
                match find_from(r, f.name, 0) {
                    Some(j0) => {
                        assert(r[j0].name == f.name);
                        if j0 != j {
                            assert(r[j0].name != r[j].name);
                            assert(false);
                        }
                        assert(r2[j].value == apply_value_spec(pol, pvs[i], r[j].value));
                    },
                    None => {
                        assert(false);
                    },
                }
                assert(sch_find(s, r[j].name, i) == Some(i));
                match sch_find(s, f.name, i + 1) {
                    Some(k) => {
                        assert(s.fields[k].name == s.fields[i].name);
                        assert(false);
                    },
                    None => {},
                }
                assert(merged_outcome(s, pvs, r2[j].name, r2[j].value, i + 1) == r2[j].value);
            } else {
                match find_from(r, f.name, 0) {
                    Some(j0) => {
                        assert(r[j0].name == f.name);
                        assert(j0 != j);
                        assert(r2[j] == r[j]);
                    },
                    None => {
                        assert(r2 == r);
                    },
                }
                assert(sch_find(s, r[j].name, i) == sch_find(s, r[j].name, i + 1));
            }
        }
    } else {
        assert forall|j: int| 0 <= j < r.len() implies (#[trigger] apply_from(s, pvs, r, i)[j])
            == (RecordFieldV {
            name: r[j].name,
            value: merged_outcome(s, pvs, r[j].name, r[j].value, i),
        }) by {
            assert(sch_find(s, r[j].name, i) is None);
        }
    }
}

/// The schema field named like `r[j]`, if any, is the first and only one.
proof fn lemma_sch_find_unique(s: TypeSchemaV, n: FieldNameV, k: int)
    requires
        distinct_field_names(s.fields),
        0 <= k < s.fields.len(),
        s.fields[k].name == n,
    ensures
        sch_find(s, n, 0) == Some(k),
{
    lemma_sch_find(s, n, 0);
    match sch_find(s, n, 0) {
        Some(k0) => {
            if k0 != k {
                assert(s.fields[k0].name != s.fields[k].name);
                assert(false);
            }
        },
        None => {
            assert(s.fields[k].name != n);
            assert(false);
        },
    }
}

/// Default-optional law: a field whose declared type is optional-wrapped
/// and that carries no annotation at any level resolves to
/// `OverwriteIfOptionPresent`; applying a patch whose value is absent
/// leaves the target field unchanged, and applying one whose value is
/// present overwrites the target field with the unwrapped payload.
pub proof fn lemma_default_optional(
    s: TypeSchemaV,
    pvs: Seq<FieldValueV>,
    r: Seq<RecordFieldV>,
    k: int,
    j: int,
)
    requires
        pvs.len() == s.fields.len(),
        distinct_field_names(s.fields),
        distinct_record_names(r),
        0 <= k < s.fields.len(),
        s.fields[k].optional,
        s.fields[k].policy is None,
        !s.fields[k].skip,
        s.fields[k].apply is None,
        s.policy is None,
        s.apply is None,
        0 <= j < r.len(),
        r[j].name == s.fields[k].name,
    ensures
        resolve_spec(s.fields[k], s.policy, s.apply) == MergePolicyV::OverwriteIfOptionPresent,
        pvs[k] == FieldValueV::Opt(Option::<ScalarV>::None) ==> apply_spec(s, pvs, r)[j] == r[j],
        pvs[k] matches FieldValueV::Opt(Some(v)) ==> apply_spec(s, pvs, r)[j] == (RecordFieldV {
            name: r[j].name,
            value: FieldValueV::Plain(v),
        }),
{
    lemma_apply_from_pointwise(s, pvs, r, 0);
    lemma_sch_find_unique(s, r[j].name, k);
}

/// Extra-target-field law: a target field whose name is not in the patch
/// schema is unchanged by applying the patch, whatever the patch holds.
pub proof fn lemma_extra_target_field(
    s: TypeSchemaV,
    pvs: Seq<FieldValueV>,
    r: Seq<RecordFieldV>,
    j: int,
)
    requires
        pvs.len() == s.fields.len(),
        distinct_field_names(s.fields),
        distinct_record_names(r),
        0 <= j < r.len(),
        forall|m: int| 0 <= m < s.fields.len() ==> (#[trigger] s.fields[m].name) != r[j].name,
    ensures
        apply_spec(s, pvs, r).len() == r.len(),
        apply_spec(s, pvs, r)[j] == r[j],
{
    lemma_apply_from_pointwise(s, pvs, r, 0);
    lemma_sch_find(s, r[j].name, 0);
    match sch_find(s, r[j].name, 0) {
        Some(k0) => {
            assert(s.fields[k0].name == r[j].name);
            assert(false);
        },
        None => {},
    }
}

/// Mandatory-field law: a field that is not optional-wrapped and carries
/// no annotation at any level resolves to `Overwrite`, and the target
/// field always receives the patch value, the zero value included.
pub proof fn lemma_mandatory_field(
    s: TypeSchemaV,
    pvs: Seq<FieldValueV>,
    r: Seq<RecordFieldV>,
    k: int,
    j: int,
)
    requires
        pvs.len() == s.fields.len(),
        distinct_field_names(s.fields),
        distinct_record_names(r),
        0 <= k < s.fields.len(),
        !s.fields[k].optional,
        s.fields[k].policy is None,
        !s.fields[k].skip,
        s.fields[k].apply is None,
        s.policy is None,
        s.apply is None,
        0 <= j < r.len(),
        r[j].name == s.fields[k].name,
    ensures
        resolve_spec(s.fields[k], s.policy, s.apply) == MergePolicyV::Overwrite,
        apply_spec(s, pvs, r)[j] == (RecordFieldV { name: r[j].name, value: pvs[k] }),
{
    lemma_apply_from_pointwise(s, pvs, r, 0);
    lemma_sch_find_unique(s, r[j].name, k);
}

/// Multi-target independence, interpreter side: applying a patch is
/// unaffected by the schema's target list.
proof fn lemma_apply_ignores_targets(
    s1: TypeSchemaV,
    s2: TypeSchemaV,
    pvs: Seq<FieldValueV>,
    r: Seq<RecordFieldV>,
    i: int,
)
    requires
        s1.fields == s2.fields,
        s1.policy == s2.policy,
        s1.apply == s2.apply,
    ensures
        apply_from(s1, pvs, r, i) == apply_from(s2, pvs, r, i),
    decreases s1.fields.len() - i,
{
    if 0 <= i && i < s1.fields.len() {
        let f = s1.fields[i];
        let r2 = set_field(r, f.name, resolve_spec(f, s1.policy, s1.apply), pvs[i]);
        lemma_apply_ignores_targets(s1, s2, pvs, r2, i + 1);
    }
}

/// Multi-target independence law: the same patch type bound to two target
/// lists gives, for any one target, the same resolved policies, the same
/// generated implementation, and the same merge behaviour; one target's
/// binding never perturbs another's.
pub proof fn lemma_multi_target_independence(
    s1: TypeSchemaV,
    s2: TypeSchemaV,
    t: Seq<char>,
    pvs: Seq<FieldValueV>,
    r: Seq<RecordFieldV>,
)
    requires
        s1.ident == s2.ident,
        s1.fields == s2.fields,
        s1.policy == s2.policy,
        s1.apply == s2.apply,
    ensures
        resolve_all_spec(s1) == resolve_all_spec(s2),
        impl_text(s1, t) == impl_text(s2, t),
        apply_spec(s1, pvs, r) == apply_spec(s2, pvs, r),
{
    assert(resolve_all_spec(s1) =~= resolve_all_spec(s2));
    lemma_apply_ignores_targets(s1, s2, pvs, r, 0);
}

/// Idempotence law under `direct`: when every field resolves to
/// `Overwrite`, applying the same patch to two equal targets gives equal
/// results, and applying it twice gives the same result as applying it
/// once.
pub proof fn lemma_direct_idempotent(
    s: TypeSchemaV,
    pvs: Seq<FieldValueV>,
    t1: Seq<RecordFieldV>,
    t2: Seq<RecordFieldV>,
)
    requires
        pvs.len() == s.fields.len(),
        distinct_field_names(s.fields),
        distinct_record_names(t1),
        forall|k: int|
            0 <= k < s.fields.len() ==> resolve_spec(#[trigger] s.fields[k], s.policy, s.apply)
                == MergePolicyV::Overwrite,
        t1 == t2,
    ensures
        apply_spec(s, pvs, t1) == apply_spec(s, pvs, t2),
        apply_spec(s, pvs, apply_spec(s, pvs, t1)) == apply_spec(s, pvs, t1),
{
    let r1 = apply_spec(s, pvs, t1);
    lemma_apply_from_pointwise(s, pvs, t1, 0);
    assert(distinct_record_names(r1));
    lemma_apply_from_pointwise(s, pvs, r1, 0);
    assert forall|j: int| 0 <= j < r1.len() implies apply_spec(s, pvs, r1)[j] == r1[j] by {
        assert(r1[j].name == t1[j].name);
        lemma_sch_find(s, r1[j].name, 0);
        match sch_find(s, r1[j].name, 0) {
            Some(k) => {
                assert(resolve_spec(s.fields[k], s.policy, s.apply) == MergePolicyV::Overwrite);
                assert(r1[j].value == pvs[k]);
                assert(merged_outcome(s, pvs, r1[j].name, r1[j].value, 0) == pvs[k]);
            },
            None => {},
        }
    }
    assert(apply_spec(s, pvs, r1) =~= r1);
}

/// Empty-patch law: a patch type without fields leaves every target it is
/// bound to unchanged.
pub proof fn lemma_empty_patch(s: TypeSchemaV, pvs: Seq<FieldValueV>, r: Seq<RecordFieldV>)
    requires
        s.fields.len() == 0,
    ensures
        apply_spec(s, pvs, r) == r,
{
}

/// Once a field-level policy word has been accepted, the accumulated
/// policy keeps it for as long as the fold has not failed.
proof fn lemma_field_policy_sticky(
    attrs: Seq<RawAttrV>,
    m: int,
    j: int,
    w: Seq<char>,
    p: PolicyAttr,
)
    requires
        0 <= m < j <= attrs.len(),
        is_patch_attr(attrs[m]),
        parse_attr_spec(attrs[m].tokens) == Some(AttrFormV::Word(w)),
        (w == "direct"@ && p == PolicyAttr::Direct) || (w == "as_option"@ && p
            == PolicyAttr::AsOption),
    ensures
        field_ann_upto(attrs, j) matches Ok(acc) ==> acc.policy == Some(p),
    decreases j,
{
    reveal_strlit("direct");
    reveal_strlit("as_option");
    assert("direct"@.len() == 6);
    assert("as_option"@.len() == 9);
    if j > m + 1 {
        lemma_field_policy_sticky(attrs, m, j - 1, w, p);
    }
}

/// Once a type-level policy word has been accepted, the accumulated
/// policy keeps it for as long as the fold has not failed.
proof fn lemma_type_policy_sticky(
    attrs: Seq<RawAttrV>,
    m: int,
    j: int,
    w: Seq<char>,
    p: PolicyAttr,
)
    requires
        0 <= m < j <= attrs.len(),
        is_patch_attr(attrs[m]),
        parse_attr_spec(attrs[m].tokens) == Some(AttrFormV::Word(w)),
        (w == "direct"@ && p == PolicyAttr::Direct) || (w == "as_option"@ && p
            == PolicyAttr::AsOption),
    ensures
        type_ann_upto(attrs, j) matches Ok(acc) ==> acc.policy == Some(p),
    decreases j,
{
    reveal_strlit("direct");
    reveal_strlit("as_option");
    assert("direct"@.len() == 6);
    assert("as_option"@.len() == 9);
    if j > m + 1 {
        lemma_type_policy_sticky(attrs, m, j - 1, w, p);
    }
}

/// A field-level annotation fold that sees both policy words fails.
proof fn lemma_field_fold_conflict(attrs: Seq<RawAttrV>, a1: int, a2: int)
    requires
        0 <= a1 < attrs.len(),
        0 <= a2 < attrs.len(),
        a1 != a2,
        is_patch_attr(attrs[a1]),
        is_patch_attr(attrs[a2]),
        parse_attr_spec(attrs[a1].tokens) == Some(AttrFormV::Word("direct"@)),
        parse_attr_spec(attrs[a2].tokens) == Some(AttrFormV::Word("as_option"@)),
    ensures
        field_ann_upto(attrs, attrs.len() as int) is Err,
{
    reveal_strlit("direct");
    reveal_strlit("as_option");
    assert("direct"@.len() == 6);
    assert("as_option"@.len() == 9);
    if a1 < a2 {
        match field_ann_upto(attrs, a2) {
            Result::Ok(acc) => {
                lemma_field_policy_sticky(attrs, a1, a2, "direct"@, PolicyAttr::Direct);
                assert(field_ann_upto(attrs, a2 + 1) is Err);
                lemma_field_ann_err(attrs, a2 + 1, attrs.len() as int);
            },
            Result::Err(e) => {
                lemma_field_ann_err(attrs, a2, attrs.len() as int);
            },
        }
    } else {
        match field_ann_upto(attrs, a1) {
            Result::Ok(acc) => {
                lemma_field_policy_sticky(attrs, a2, a1, "as_option"@, PolicyAttr::AsOption);
                assert(field_ann_upto(attrs, a1 + 1) is Err);
                lemma_field_ann_err(attrs, a1 + 1, attrs.len() as int);
            },
            Result::Err(e) => {
                lemma_field_ann_err(attrs, a1, attrs.len() as int);
            },
        }
    }
}

/// A failing field makes the whole field fold fail.
proof fn lemma_fields_err_at(s_fields: Seq<crate::schema::RawFieldV>, named: bool, fi: int)
    requires
        0 <= fi < s_fields.len(),
        extract_field_spec(field_name_spec(s_fields, named, fi), s_fields[fi]) is Err,
    ensures
        fields_upto(s_fields, named, s_fields.len() as int) is Err,
{
    assert(fields_upto(s_fields, named, fi + 1) is Err);
    lemma_fields_err(s_fields, named, fi + 1, s_fields.len() as int);
}

/// Mutual-exclusion law, field level: a declaration with a field that
/// carries both `direct` and `as_option` always fails extraction; neither
/// annotation is silently picked.
pub proof fn lemma_field_mutual_exclusion(d: RawDeclV, fi: int, a1: int, a2: int)
    requires
        0 <= fi < decl_fields(d.data).len(),
        0 <= a1 < decl_fields(d.data)[fi].attrs.len(),
        0 <= a2 < decl_fields(d.data)[fi].attrs.len(),
        a1 != a2,
        is_patch_attr(decl_fields(d.data)[fi].attrs[a1]),
        is_patch_attr(decl_fields(d.data)[fi].attrs[a2]),
        parse_attr_spec(decl_fields(d.data)[fi].attrs[a1].tokens) == Some(
            AttrFormV::Word("direct"@),
        ),
        parse_attr_spec(decl_fields(d.data)[fi].attrs[a2].tokens) == Some(
            AttrFormV::Word("as_option"@),
        ),
    ensures
        extract_spec(d) is Err,
{
    if !(d.data is Other) {
        match type_ann_upto(d.attrs, d.attrs.len() as int) {
            Result::Ok(ta) => {
                let fs = decl_fields(d.data);
                lemma_field_fold_conflict(fs[fi].attrs, a1, a2);
                assert(extract_field_spec(field_name_spec(fs, d.data is Named, fi), fs[fi])
                    is Err);
                lemma_fields_err_at(fs, d.data is Named, fi);
            },
            Result::Err(e) => {},
        }
    }
}

/// Mutual-exclusion law, type level: a declaration that carries both
/// `direct` and `as_option` at the type level always fails extraction;
/// neither annotation is silently picked.
pub proof fn lemma_type_mutual_exclusion(d: RawDeclV, a1: int, a2: int)
    requires
        0 <= a1 < d.attrs.len(),
        0 <= a2 < d.attrs.len(),
        a1 != a2,
        is_patch_attr(d.attrs[a1]),
        is_patch_attr(d.attrs[a2]),
        parse_attr_spec(d.attrs[a1].tokens) == Some(AttrFormV::Word("direct"@)),
        parse_attr_spec(d.attrs[a2].tokens) == Some(AttrFormV::Word("as_option"@)),
    ensures
        extract_spec(d) is Err,
{
    reveal_strlit("direct");
    reveal_strlit("as_option");
    assert("direct"@.len() == 6);
    assert("as_option"@.len() == 9);
    if !(d.data is Other) {
        if a1 < a2 {
            match type_ann_upto(d.attrs, a2) {
                Result::Ok(acc) => {
                    lemma_type_policy_sticky(d.attrs, a1, a2, "direct"@, PolicyAttr::Direct);
                    assert(type_ann_upto(d.attrs, a2 + 1) is Err);
                    lemma_type_ann_err(d.attrs, a2 + 1, d.attrs.len() as int);
                },
                Result::Err(e) => {
                    lemma_type_ann_err(d.attrs, a2, d.attrs.len() as int);
                },
            }
        } else {
            match type_ann_upto(d.attrs, a1) {
                Result::Ok(acc) => {
                    lemma_type_policy_sticky(d.attrs, a2, a1, "as_option"@, PolicyAttr::AsOption);
                    assert(type_ann_upto(d.attrs, a1 + 1) is Err);
                    lemma_type_ann_err(d.attrs, a1 + 1, d.attrs.len() as int);
                },
                Result::Err(e) => {
                    lemma_type_ann_err(d.attrs, a1, d.attrs.len() as int);
                },
            }
        }
    }
}

} // verus!
