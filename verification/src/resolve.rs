//! Merge-policy resolution: one policy per field, the first applicable rule
//! winning.  Resolution is total and deterministic, and never depends on the
//! target the schema is being bound to.

use vstd::prelude::*;
use crate::schema::FieldSchema;
use crate::schema::FieldSchemaV;
use crate::schema::MergePolicy;
use crate::schema::MergePolicyV;
use crate::schema::PolicyAttr;
use crate::schema::TypeSchema;
use crate::schema::TypeSchemaV;

verus! {

/// The policy for one field, given the type-level defaults.
///
/// The rules, first applicable wins: a skipped field is `Skip`; a field-level
/// custom merge reference gives `Custom`; field-level `direct` gives
/// `Overwrite`; field-level `as_option` gives `OverwriteOptionIfPresent`;
/// otherwise a type-level custom merge reference gives `Custom`; type-level
/// `direct` gives `Overwrite`; type-level `as_option` gives
/// `OverwriteOptionIfPresent`; with no annotation at all, an
/// optional-wrapped field gives `OverwriteIfOptionPresent` and any other
/// field gives `Overwrite`.
pub open spec fn resolve_spec(
    f: FieldSchemaV,
    type_policy: Option<PolicyAttr>,
    type_apply: Option<Seq<char>>,
) -> MergePolicyV {
    if f.skip {
        MergePolicyV::Skip
    } else if f.apply is Some {
        MergePolicyV::Custom(f.apply->0)
    } else if f.policy == Some(PolicyAttr::Direct) {
        MergePolicyV::Overwrite
    } else if f.policy == Some(PolicyAttr::AsOption) {
        MergePolicyV::OverwriteOptionIfPresent
    } else if type_apply is Some {
        MergePolicyV::Custom(type_apply->0)
    } else if type_policy == Some(PolicyAttr::Direct) {
        MergePolicyV::Overwrite
    } else if type_policy == Some(PolicyAttr::AsOption) {
        MergePolicyV::OverwriteOptionIfPresent
    } else if f.optional {
        MergePolicyV::OverwriteIfOptionPresent
    } else {
        MergePolicyV::Overwrite
    }
}

/// The policies of all of a schema's fields, in declaration order.
pub open spec fn resolve_all_spec(s: TypeSchemaV) -> Seq<MergePolicyV> {
    Seq::new(s.fields.len(), |i: int| resolve_spec(s.fields[i], s.policy, s.apply))
}

/// Resolve the policy of one field under the given type-level defaults.
pub fn resolve_field(
    f: &FieldSchema,
    type_policy: Option<PolicyAttr>,
    type_apply: &Option<String>,
) -> (r: MergePolicy)
    ensures
        r@ == resolve_spec(f@, type_policy, type_apply.deep_view()),
{
    if f.skip {
        MergePolicy::Skip
    } else if let Some(p) = &f.apply {
        MergePolicy::Custom(p.clone())
    } else if matches!(f.policy, Some(PolicyAttr::Direct)) {
        MergePolicy::Overwrite
    } else if matches!(f.policy, Some(PolicyAttr::AsOption)) {
        MergePolicy::OverwriteOptionIfPresent
    } else if let Some(p) = type_apply {
        MergePolicy::Custom(p.clone())
    } else if matches!(type_policy, Some(PolicyAttr::Direct)) {
        MergePolicy::Overwrite
    } else if matches!(type_policy, Some(PolicyAttr::AsOption)) {
        MergePolicy::OverwriteOptionIfPresent
    } else if f.optional {
        MergePolicy::OverwriteIfOptionPresent
    } else {
        MergePolicy::Overwrite
    }
}

/// Resolve the policies of all fields of a schema, in declaration order.
pub fn resolve_policies(s: &TypeSchema) -> (r: Vec<MergePolicy>)
    ensures
        r.deep_view() == resolve_all_spec(s@),
{
    let mut r: Vec<MergePolicy> = Vec::new();
    let n = s.fields.len();
    for i in 0..n
        invariant
            n == s.fields.len(),
            r.deep_view() =~= resolve_all_spec(s@).subrange(0, i as int),
    {
        let x = resolve_field(&s.fields[i], s.policy, &s.apply);
        let ghost gx = x;
        let ghost prev = r;
        r.push(x);
        proof {
            crate::util::lemma_deep_view_push(prev, r, gx);
            assert(r.deep_view() =~= resolve_all_spec(s@).subrange(0, i + 1));
        }
    }
    assert(resolve_all_spec(s@).subrange(0, n as int) =~= resolve_all_spec(s@));
    r
}

} // verus!
