use std::fmt::Debug;

use rust_patch::record::FieldValue;
use rust_patch::record::PatchInstance;
use rust_patch::record::Record;
use rust_patch::record::RecordField;
use rust_patch::record::Scalar;
use rust_patch::schema::FieldName;
use rust_patch::schema::FieldSchema;
use rust_patch::schema::PolicyAttr;
use rust_patch::schema::TypeSchema;
use rust_patch::Patch;

fn named_field(name: &str, optional: bool, policy: Option<PolicyAttr>) -> FieldSchema {
    FieldSchema {
        name: FieldName::Ident(name.to_string()),
        optional,
        policy,
        skip: false,
        skip_if: None,
        apply: None,
    }
}

fn indexed_field(index: usize, optional: bool) -> FieldSchema {
    FieldSchema {
        name: FieldName::Index(index),
        optional,
        policy: None,
        skip: false,
        skip_if: None,
        apply: None,
    }
}

fn schema(ident: &str, fields: Vec<FieldSchema>, targets: Vec<&str>) -> TypeSchema {
    TypeSchema {
        ident: ident.to_string(),
        fields,
        targets: targets.into_iter().map(|t| t.to_string()).collect(),
        policy: None,
        apply: None,
    }
}

fn int_record(fields: Vec<(&str, u32)>) -> Record {
    Record {
        fields: fields
            .into_iter()
            .map(|(n, v)| RecordField {
                name: FieldName::Ident(n.to_string()),
                value: FieldValue::Plain(Scalar::Int(v as u64)),
            })
            .collect(),
    }
}

fn opt_record(data: Option<u32>) -> Record {
    Record {
        fields: vec![RecordField {
            name: FieldName::Ident("data".to_string()),
            value: FieldValue::Opt(data.map(|v| Scalar::Int(v as u64))),
        }],
    }
}

/// The patch type `ItemPatch { data: Option<u32> }`, bound to `Item`,
/// `IdItem` and `item::ModItem`, with no annotations beyond the targets.
fn item_patch(data: Option<u32>) -> PatchInstance {
    let s = schema(
        "ItemPatch",
        vec![named_field("data", true, None)],
        vec!["Item", "IdItem", "item::ModItem"],
    );
    PatchInstance::new(s, vec![FieldValue::Opt(data.map(|v| Scalar::Int(v as u64)))]).unwrap()
}

/// The patch type `DataPatch { data: u32 }`, bound to `IdItem`.
fn data_patch(data: u32) -> PatchInstance {
    let s = schema("DataPatch", vec![named_field("data", false, None)], vec!["IdItem"]);
    PatchInstance::new(s, vec![FieldValue::Plain(Scalar::Int(data as u64))]).unwrap()
}

/// The patch type `UnnamedPatch(Option<u32>)`, bound to `UnnamedItem`.
fn unnamed_patch(data: Option<u32>) -> PatchInstance {
    let s = schema("UnnamedPatch", vec![indexed_field(0, true)], vec!["UnnamedItem"]);
    PatchInstance::new(s, vec![FieldValue::Opt(data.map(|v| Scalar::Int(v as u64)))]).unwrap()
}

/// The unit-like patch type `UnitPatch`, bound to several targets.
fn unit_patch() -> PatchInstance {
    let s = schema("UnitPatch", vec![], vec!["Item", "IdItem", "UnitItem"]);
    PatchInstance::new(s, vec![]).unwrap()
}

/// The patch type `DirectPatch { #[patch(direct)] data: Option<u32> }`,
/// bound to `OptItem`.
fn direct_patch(data: Option<u32>) -> PatchInstance {
    let s = schema(
        "DirectPatch",
        vec![named_field("data", true, Some(PolicyAttr::Direct))],
        vec!["OptItem"],
    );
    PatchInstance::new(s, vec![FieldValue::Opt(data.map(|v| Scalar::Int(v as u64)))]).unwrap()
}

/// The patch type `OptPatch { #[patch(as_option)] data: Option<u32> }`,
/// bound to `OptItem`.
fn opt_patch(data: Option<u32>) -> PatchInstance {
    let s = schema(
        "OptPatch",
        vec![named_field("data", true, Some(PolicyAttr::AsOption))],
        vec!["OptItem"],
    );
    PatchInstance::new(s, vec![FieldValue::Opt(data.map(|v| Scalar::Int(v as u64)))]).unwrap()
}

fn test_patch<T: PartialEq + Debug, P: Patch<T>>(data: T, patch: P, expected: T) {
    let res = patch.apply(data);
    assert_eq!(expected, res);
}

#[test]
fn basic() {
    test_patch(int_record(vec![("data", 0)]), item_patch(Some(1)), int_record(vec![("data", 1)]));
}

#[test]
fn empty_patch() {
    test_patch(int_record(vec![("data", 0)]), item_patch(None), int_record(vec![("data", 0)]));
}

#[test]
fn extra_field() {
    test_patch(
        int_record(vec![("id", 10), ("data", 0)]),
        item_patch(Some(1)),
        int_record(vec![("id", 10), ("data", 1)]),
    );
}

#[test]
fn mandatory_field() {
    test_patch(
        int_record(vec![("id", 10), ("data", 0)]),
        data_patch(1),
        int_record(vec![("id", 10), ("data", 1)]),
    );
}

#[test]
fn unnamed_struct() {
    let unnamed_item = |v: u32| Record {
        fields: vec![RecordField {
            name: FieldName::Index(0),
            value: FieldValue::Plain(Scalar::Int(v as u64)),
        }],
    };
    test_patch(unnamed_item(0), unnamed_patch(Some(1)), unnamed_item(1));
}

#[test]
fn unit_struct() {
    let unit_item = Record { fields: vec![] };
    test_patch(unit_item.clone(), unit_patch(), unit_item);
}

#[test]
fn patch_mod() {
    test_patch(int_record(vec![("data", 10)]), item_patch(Some(5)), int_record(vec![("data", 5)]))
}

#[test]
fn patch_direct() {
    test_patch(opt_record(Some(1)), direct_patch(None), opt_record(None));
    test_patch(opt_record(Some(1)), direct_patch(Some(0)), opt_record(Some(0)));
}

#[test]
fn patch_as_option() {
    test_patch(opt_record(Some(1)), opt_patch(None), opt_record(Some(1)));
    test_patch(opt_record(Some(1)), opt_patch(Some(0)), opt_record(Some(0)));
}
