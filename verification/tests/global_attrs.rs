use std::fmt::Debug;

use rust_patch::record::FieldValue;
use rust_patch::record::PatchInstance;
use rust_patch::record::Record;
use rust_patch::record::RecordField;
use rust_patch::record::Scalar;
use rust_patch::schema::FieldName;
use rust_patch::schema::FieldSchema;
use rust_patch::schema::PolicyAttr;
use rust_patch::schema::TypeSchema;
use rust_patch::Patch;

fn opt_item(data: Option<u32>) -> Record {
    Record {
        fields: vec![RecordField {
            name: FieldName::Ident("data".to_string()),
            value: FieldValue::Opt(data.map(|v| Scalar::Int(v as u64))),
        }],
    }
}

fn data_field() -> FieldSchema {
    FieldSchema {
        name: FieldName::Ident("data".to_string()),
        optional: true,
        policy: None,
        skip: false,
        skip_if: None,
        apply: None,
    }
}

/// `ItemPatchOption { data: Option<u32> }` with the type-level annotation
/// `as_option`, bound to `Item`.
fn item_patch_option(data: Option<u32>) -> PatchInstance {
    let s = TypeSchema {
        ident: "ItemPatchOption".to_string(),
        fields: vec![data_field()],
        targets: vec!["Item".to_string()],
        policy: Some(PolicyAttr::AsOption),
        apply: None,
    };
    PatchInstance::new(s, vec![FieldValue::Opt(data.map(|v| Scalar::Int(v as u64)))]).unwrap()
}

fn test_patch<T: PartialEq + Debug, P: Patch<T>>(data: T, patch: P, expected: T) {
    let res = patch.apply(data);
    assert_eq!(expected, res);
}

#[test]
fn as_option() {
    test_patch(opt_item(Some(0)), item_patch_option(Some(1)), opt_item(Some(1)));
}

#[test]
fn global_direct() {
    let s = TypeSchema {
        ident: "ItemPatchDirect".to_string(),
        fields: vec![data_field()],
        targets: vec!["Item".to_string()],
        policy: Some(PolicyAttr::Direct),
        apply: None,
    };
    let patch = PatchInstance::new(s, vec![FieldValue::Opt(None)]).unwrap();
    test_patch(opt_item(Some(1)), patch, opt_item(None));
}
