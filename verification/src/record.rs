//! A value-level model of applying a patch: records of named field values,
//! and an interpreter of the resolved merge policies over them.
//!
//! Generated code merges concrete struct values; this model states the same
//! merge semantics over plain values, so that the merge laws can be stated
//! and proved, and so that a patch bound to a schema can be applied without
//! generated code.  Custom merge functions and `skip_if` guards are opaque
//! references that only generated code can call; the interpreter leaves
//! fields governed by a custom merge unchanged.

use vstd::prelude::*;
use crate::resolve::resolve_spec;
use crate::schema::FieldName;
use crate::schema::FieldNameV;
use crate::schema::MergePolicy;
use crate::schema::MergePolicyV;
use crate::schema::TypeSchema;
use crate::schema::TypeSchemaV;
use crate::text::string_eq_str;
use crate::Patch;

verus! {

/// A plain field payload: an integer or a text value.
#[derive(Debug, Clone, PartialEq, Eq)]
pub enum Scalar {
    Int(u64),
    Text(String),
}

/// Spec-level value of a [`Scalar`].
pub enum ScalarV {
    Int(u64),
    Text(Seq<char>),
}

impl View for Scalar {
    type V = ScalarV;

    open spec fn view(&self) -> ScalarV {
        match self {
            Scalar::Int(n) => ScalarV::Int(*n),
            Scalar::Text(s) => ScalarV::Text(s@),
        }
    }
}

impl DeepView for Scalar {
    type V = ScalarV;

    open spec fn deep_view(&self) -> ScalarV {
        self.view()
    }
}

/// One field's value: a plain payload, or an optional-wrapped payload.
#[derive(Debug, Clone, PartialEq, Eq)]
pub enum FieldValue {
    Plain(Scalar),
    Opt(Option<Scalar>),
}

/// Spec-level value of a [`FieldValue`].
pub enum FieldValueV {
    Plain(ScalarV),
    Opt(Option<ScalarV>),
}

impl View for FieldValue {
    type V = FieldValueV;

    open spec fn view(&self) -> FieldValueV {
        match self {
            FieldValue::Plain(s) => FieldValueV::Plain(s@),
            FieldValue::Opt(o) => FieldValueV::Opt(o.deep_view()),
        }
    }
}

impl DeepView for FieldValue {
    type V = FieldValueV;

    open spec fn deep_view(&self) -> FieldValueV {
        self.view()
    }
}

/// One named field of a record.
#[derive(Debug, Clone, PartialEq, Eq)]
pub struct RecordField {
    pub name: FieldName,
    pub value: FieldValue,
}

/// Spec-level value of a [`RecordField`].
pub struct RecordFieldV {
    pub name: FieldNameV,
    pub value: FieldValueV,
}

impl View for RecordField {
    type V = RecordFieldV;

    open spec fn view(&self) -> RecordFieldV {
        RecordFieldV { name: self.name@, value: self.value@ }
    }
}

impl DeepView for RecordField {
    type V = RecordFieldV;

    open spec fn deep_view(&self) -> RecordFieldV {
        self.view()
    }
}

/// A target value, modelled as its fields in declaration order.
#[derive(Debug, Clone, PartialEq, Eq)]
pub struct Record {
    pub fields: Vec<RecordField>,
}

impl View for Record {
    type V = Seq<RecordFieldV>;

    open spec fn view(&self) -> Seq<RecordFieldV> {
        self.fields.deep_view()
    }
}

impl DeepView for Record {
    type V = Seq<RecordFieldV>;

    open spec fn deep_view(&self) -> Seq<RecordFieldV> {
        self.view()
    }
}

/// The new value of one target field under one resolved policy.
///
/// `Overwrite` takes the whole patch value; `OverwriteIfOptionPresent`
/// unwraps a present optional and keeps the previous value otherwise;
/// `OverwriteOptionIfPresent` takes the whole optional when present; `Skip`
/// keeps the previous value, and so does a custom merge, which the
/// interpreter does not evaluate.
pub open spec fn apply_value_spec(
    p: MergePolicyV,
    patch: FieldValueV,
    prev: FieldValueV,
) -> FieldValueV {
    match p {
        MergePolicyV::Overwrite => patch,
        MergePolicyV::OverwriteIfOptionPresent => match patch {
            FieldValueV::Opt(Option::Some(v)) => FieldValueV::Plain(v),
            _ => prev,
        },
        MergePolicyV::OverwriteOptionIfPresent => match patch {
            FieldValueV::Opt(Option::Some(v)) => patch,
            _ => prev,
        },
        MergePolicyV::Custom(f) => prev,
        MergePolicyV::Skip => prev,
    }
}

/// The first field at or after `i` whose name is `n`.
pub open spec fn find_from(r: Seq<RecordFieldV>, n: FieldNameV, i: int) -> Option<int>
    decreases r.len() - i,
{
    if 0 <= i && i < r.len() {
        if r[i].name == n {
            Some(i)
        } else {
            find_from(r, n, i + 1)
        }
    } else {
        None
    }
}

/// Characterizes [`find_from`]: a hit is the first one, and a miss means no
/// field at or after `i` has the name.
pub proof fn lemma_find_from(r: Seq<RecordFieldV>, n: FieldNameV, i: int)
    requires
        0 <= i <= r.len(),
    ensures
        find_from(r, n, i) matches Some(j) ==> i <= j < r.len() && r[j].name == n && forall|k: int|
            i <= k < j ==> (#[trigger] r[k].name) != n,
        find_from(r, n, i) is None ==> forall|k: int| i <= k < r.len() ==> (#[trigger] r[k].name)
            != n,
    decreases r.len() - i,
{
    if i < r.len() && r[i].name != n {
        lemma_find_from(r, n, i + 1);
    }
}

/// Merge one patch field into the record: the first field named `n`, if
/// any, takes its new value; everything else is unchanged.
pub open spec fn set_field(
    r: Seq<RecordFieldV>,
    n: FieldNameV,
    p: MergePolicyV,
    pv: FieldValueV,
) -> Seq<RecordFieldV> {
    match find_from(r, n, 0) {
        Some(j) => r.update(
            j,
            RecordFieldV { name: r[j].name, value: apply_value_spec(p, pv, r[j].value) },
        ),
        None => r,
    }
}

/// Apply the patch fields from `i` on to the record, in declaration order.
pub open spec fn apply_from(
    s: TypeSchemaV,
    pvs: Seq<FieldValueV>,
    r: Seq<RecordFieldV>,
    i: int,
) -> Seq<RecordFieldV>
    decreases s.fields.len() - i,
{
    if 0 <= i && i < s.fields.len() {
        let f = s.fields[i];
        let r2 = set_field(r, f.name, resolve_spec(f, s.policy, s.apply), pvs[i]);
        apply_from(s, pvs, r2, i + 1)
    } else {
        r
    }
}

/// Apply a whole patch: every schema field merged into the record, in
/// declaration order.
pub open spec fn apply_spec(
    s: TypeSchemaV,
    pvs: Seq<FieldValueV>,
    r: Seq<RecordFieldV>,
) -> Seq<RecordFieldV> {
    apply_from(s, pvs, r, 0)
}

/// Whether two field names are the same.
pub fn field_name_eq(a: &FieldName, b: &FieldName) -> (r: bool)
    ensures
        r == (a@ == b@),
{
    match (a, b) {
        (FieldName::Ident(x), FieldName::Ident(y)) => *x == *y,
        (FieldName::Index(x), FieldName::Index(y)) => *x == *y,
        _ => false,
    }
}

/// Find the first field with the given name.
#[verifier::loop_isolation(false)]
pub fn find_field(fields: &Vec<RecordField>, n: &FieldName) -> (r: Option<usize>)
    ensures
        match r {
            Some(j) => find_from(fields.deep_view(), n@, 0) == Some(j as int),
            None => find_from(fields.deep_view(), n@, 0) is None,
        },
{
    let nf = fields.len();
    for k in 0..nf
        invariant
            find_from(fields.deep_view(), n@, 0) == find_from(fields.deep_view(), n@, k as int),
    {
        assert(fields.deep_view()[k as int] == fields@[k as int]@);
        if field_name_eq(&fields[k].name, n) {
            return Some(k);
        }
    }
    None
}

/// The new value of a target field computed from the policy and the patch
/// value alone: `Some` when the field is overwritten, `None` when every
/// previous value is kept.
fn merged_value(p: &MergePolicy, patch: FieldValue) -> (r: Option<FieldValue>)
    ensures
        r matches Some(v) ==> forall|prev: FieldValueV|
            apply_value_spec(p@, patch@, prev) == v@,
        r is None ==> forall|prev: FieldValueV| apply_value_spec(p@, patch@, prev) == prev,
{
    match p {
        MergePolicy::Overwrite => Some(patch),
        MergePolicy::OverwriteIfOptionPresent => match patch {
            FieldValue::Opt(Option::Some(v)) => Some(FieldValue::Plain(v)),
            _ => None,
        },
        MergePolicy::OverwriteOptionIfPresent => {
            if matches!(patch, FieldValue::Opt(Option::Some(_))) {
                Some(patch)
            } else {
                None
            }
        },
        MergePolicy::Custom(_) => None,
        MergePolicy::Skip => None,
    }
}

/// Apply the patch values, one per schema field, to the target record.
#[verifier::loop_isolation(false)]
pub fn apply_record(schema: &TypeSchema, values: Vec<FieldValue>, target: Record) -> (r: Record)
    requires
        values.deep_view().len() == schema@.fields.len(),
    ensures
        r@ == apply_spec(schema@, values.deep_view(), target@),
{
    let ghost sv = schema@;
    let ghost pvs = values.deep_view();
    let ghost orig = target@;
    let mut rest = values;
    let mut rec = target;
    let nf = schema.fields.len();
    for i in 0..nf
        invariant
            nf == sv.fields.len(),
            rest.deep_view() =~= pvs.subrange(i as int, pvs.len() as int),
            apply_from(sv, pvs, rec@, i as int) == apply_spec(sv, pvs, orig),
    {
        let ghost cur = rec@;
        let ghost prev_rest = rest;
        let v = rest.remove(0);
        proof {
            assert(v == prev_rest@[0]);
            assert(prev_rest.deep_view()[0] == pvs[i as int]);
            assert(v@ == pvs[i as int]);
            assert forall|k: int| 0 <= k < rest.deep_view().len() implies rest.deep_view()[k]
                == pvs.subrange(i as int + 1, pvs.len() as int)[k] by {
                assert(rest@[k] == prev_rest@[k + 1]);
                assert(prev_rest.deep_view()[k + 1] == pvs.subrange(
                    i as int,
                    pvs.len() as int,
                )[k + 1]);
            }
            assert(rest.deep_view() =~= pvs.subrange(i as int + 1, pvs.len() as int));
        }
        let f = &schema.fields[i];
        assert(f@ == sv.fields[i as int]);
        let p = crate::resolve::resolve_field(f, schema.policy, &schema.apply);
        match find_field(&rec.fields, &f.name) {
            Some(j) => {
                let ghost prev_fields = rec.fields;
                match merged_value(&p, v) {
                    Some(newv) => {
                        let ghost gnew = newv;
                        proof {
                            assert(find_from(cur, f@.name, 0) == Some(j as int));
                            lemma_find_from(cur, f@.name, 0);
                        }
                        rec.fields[j].value = newv;
                        proof {
                            crate::util::lemma_deep_view_update(
                                prev_fields,
                                rec.fields,
                                j as int,
                                RecordField { name: prev_fields@[j as int].name, value: gnew },
                            );
                            assert(rec@ =~= set_field(
                                cur,
                                f@.name,
                                resolve_spec(f@, sv.policy, sv.apply),
                                pvs[i as int],
                            ));
                        }
                    },
                    None => {
                        proof {
                            assert(find_from(cur, f@.name, 0) == Some(j as int));
                            lemma_find_from(cur, f@.name, 0);
                            assert(cur.update(j as int, cur[j as int]) =~= cur);
                            assert(rec@ =~= set_field(
                                cur,
                                f@.name,
                                resolve_spec(f@, sv.policy, sv.apply),
                                pvs[i as int],
                            ));
                        }
                    },
                }
            },
            None => {
                proof {
                    assert(rec@ == set_field(
                        cur,
                        f@.name,
                        resolve_spec(f@, sv.policy, sv.apply),
                        pvs[i as int],
                    ));
                }
            },
        }
        proof {
            assert(apply_from(sv, pvs, rec@, i as int + 1) == apply_from(sv, pvs, cur, i as int));
        }
    }
    rec
}

/// Spec-level value of a [`PatchInstance`].
pub struct PatchInstanceV {
    pub schema: TypeSchemaV,
    pub values: Seq<FieldValueV>,
}

/// A patch value bound to its schema: one field value per schema field.
#[derive(Debug)]
pub struct PatchInstance {
    schema: TypeSchema,
    values: Vec<FieldValue>,
}

impl View for PatchInstance {
    type V = PatchInstanceV;

    closed spec fn view(&self) -> PatchInstanceV {
        PatchInstanceV { schema: self.schema@, values: self.values.deep_view() }
    }
}

impl DeepView for PatchInstance {
    type V = PatchInstanceV;

    closed spec fn deep_view(&self) -> PatchInstanceV {
        self.view()
    }
}

impl PatchInstance {
    /// One field value per schema field.
    #[verifier::type_invariant]
    pub closed spec fn wf(self) -> bool {
        self.values.deep_view().len() == self.schema@.fields.len()
    }

    /// Bind a patch value to its schema.  There must be exactly one field
    /// value per schema field.
    pub fn new(schema: TypeSchema, values: Vec<FieldValue>) -> (r: Option<PatchInstance>)
        ensures
            (r is Some) == (values.deep_view().len() == schema@.fields.len()),
            r matches Some(p) ==> p@ == (PatchInstanceV {
                schema: schema@,
                values: values.deep_view(),
            }),
    {
        if values.len() == schema.fields.len() {
            Some(PatchInstance { schema, values })
        } else {
            None
        }
    }

    /// Apply this patch to a target record.
    pub fn apply_to(self, target: Record) -> (r: Record)
        ensures
            r@ == apply_spec(self@.schema, self@.values, target@),
    {
        proof {
            use_type_invariant(&self);
        }
        let PatchInstance { schema, values } = self;
        apply_record(&schema, values, target)
    }
}

impl Patch<Record> for PatchInstance {
    fn apply(self, target: Record) -> Record {
        self.apply_to(target)
    }
}

} // verus!
