use rust_patch::emit::emit_guarded_stmt;
use rust_patch::emit::emit_impls;
use rust_patch::emit::generate;
use rust_patch::extract::extract_schema;
use rust_patch::parse::get_patch_attrs;
use rust_patch::parse::parse_attr;
use rust_patch::parse::AttrForm;
use rust_patch::record::FieldValue;
use rust_patch::record::PatchInstance;
use rust_patch::record::Record;
use rust_patch::record::RecordField;
use rust_patch::record::Scalar;
use rust_patch::resolve::resolve_field;
use rust_patch::resolve::resolve_policies;
use rust_patch::schema::ExtractError;
use rust_patch::schema::FieldName;
use rust_patch::schema::FieldSchema;
use rust_patch::schema::FlatToken;
use rust_patch::schema::MergePolicy;
use rust_patch::schema::PolicyAttr;
use rust_patch::schema::RawAttr;
use rust_patch::schema::RawData;
use rust_patch::schema::RawDecl;
use rust_patch::schema::RawField;
use rust_patch::schema::TypeSchema;
use rust_patch::text::path_ok_exec;
use rust_patch::text::render_index;
use rust_patch::Patch;

fn w(s: &str) -> FlatToken {
    FlatToken::Word(s.to_string())
}

fn sym(c: char) -> FlatToken {
    FlatToken::Sym(c)
}

fn lit(s: &str) -> FlatToken {
    FlatToken::LitStr(s.to_string())
}

fn patch_attr(tokens: Vec<FlatToken>) -> RawAttr {
    RawAttr { path: vec!["patch".to_string()], tokens }
}

fn named_raw(name: &str, ty: Vec<FlatToken>, attrs: Vec<RawAttr>) -> RawField {
    RawField { ident: Some(name.to_string()), ty, attrs }
}

fn opt_u32_ty() -> Vec<FlatToken> {
    vec![w("Option"), sym('<'), w("u32"), sym('>')]
}

fn plain_field(name: &str, optional: bool) -> FieldSchema {
    FieldSchema {
        name: FieldName::Ident(name.to_string()),
        optional,
        policy: None,
        skip: false,
        skip_if: None,
        apply: None,
    }
}

fn item_patch_decl() -> RawDecl {
    RawDecl {
        ident: "ItemPatch".to_string(),
        attrs: vec![
            patch_attr(vec![sym('='), lit("Item")]),
            patch_attr(vec![sym('='), lit("IdItem")]),
            patch_attr(vec![sym('='), lit("item::ModItem")]),
        ],
        data: RawData::Named(vec![named_raw("data", opt_u32_ty(), vec![])]),
    }
}

#[test]
fn extract_item_patch() {
    let s = extract_schema(item_patch_decl()).unwrap();
    assert_eq!(s.ident, "ItemPatch");
    assert_eq!(s.targets, vec!["Item".to_string(), "IdItem".to_string(), "item::ModItem".to_string()]);
    assert_eq!(s.fields.len(), 1);
    assert_eq!(s.fields[0].name, FieldName::Ident("data".to_string()));
    assert!(s.fields[0].optional);
    assert_eq!(s.fields[0].policy, None);
    assert!(!s.fields[0].skip);
    assert_eq!(s.policy, None);
    assert_eq!(s.apply, None);
}

#[test]
fn extract_field_annotations() {
    let decl = RawDecl {
        ident: "P".to_string(),
        attrs: vec![patch_attr(vec![sym('='), lit("T")])],
        data: RawData::Named(vec![
            named_raw("a", vec![w("u32")], vec![patch_attr(vec![sym('('), w("skip"), sym(')')])]),
            named_raw(
                "b",
                vec![w("u32")],
                vec![patch_attr(vec![
                    sym('('),
                    w("skip_if"),
                    sym('='),
                    w("is_zero"),
                    sym(')'),
                ])],
            ),
            named_raw(
                "c",
                vec![w("u32")],
                vec![patch_attr(vec![
                    sym('('),
                    w("apply"),
                    sym('='),
                    w("m"),
                    sym(':'),
                    sym(':'),
                    w("merge"),
                    sym(')'),
                ])],
            ),
        ]),
    };
    let s = extract_schema(decl).unwrap();
    assert!(s.fields[0].skip);
    assert_eq!(s.fields[1].skip_if, Some("is_zero".to_string()));
    assert_eq!(s.fields[2].apply, Some("m::merge".to_string()));
}

#[test]
fn extract_conflicting_policies() {
    let decl = RawDecl {
        ident: "P".to_string(),
        attrs: vec![patch_attr(vec![sym('='), lit("T")])],
        data: RawData::Named(vec![named_raw(
            "data",
            opt_u32_ty(),
            vec![
                patch_attr(vec![sym('('), w("direct"), sym(')')]),
                patch_attr(vec![sym('('), w("as_option"), sym(')')]),
            ],
        )]),
    };
    assert_eq!(extract_schema(decl), Err(ExtractError::ConflictingPolicies));
}

#[test]
fn extract_type_level_conflict() {
    let decl = RawDecl {
        ident: "P".to_string(),
        attrs: vec![
            patch_attr(vec![sym('('), w("as_option"), sym(')')]),
            patch_attr(vec![sym('('), w("direct"), sym(')')]),
        ],
        data: RawData::Unit,
    };
    assert_eq!(extract_schema(decl), Err(ExtractError::ConflictingPolicies));
}

#[test]
fn extract_unknown_annotation() {
    let decl = RawDecl {
        ident: "P".to_string(),
        attrs: vec![],
        data: RawData::Named(vec![named_raw(
            "data",
            opt_u32_ty(),
            vec![patch_attr(vec![sym('('), w("bogus"), sym(')')])],
        )]),
    };
    assert_eq!(extract_schema(decl), Err(ExtractError::UnknownAnnotation));
}

#[test]
fn extract_malformed_target_path() {
    let decl = RawDecl {
        ident: "P".to_string(),
        attrs: vec![patch_attr(vec![sym('='), lit("not a path!")])],
        data: RawData::Unit,
    };
    assert_eq!(extract_schema(decl), Err(ExtractError::MalformedTargetPath));
}

#[test]
fn extract_not_a_struct() {
    let decl = RawDecl { ident: "E".to_string(), attrs: vec![], data: RawData::Other };
    assert_eq!(extract_schema(decl), Err(ExtractError::NotAStruct));
}

#[test]
fn extract_unclassifiable_type() {
    let decl = RawDecl {
        ident: "P".to_string(),
        attrs: vec![],
        data: RawData::Named(vec![named_raw("r", vec![sym('&'), w("u32")], vec![])]),
    };
    assert_eq!(extract_schema(decl), Err(ExtractError::UnclassifiableFieldType));
}

#[test]
fn extract_duplicate_apply() {
    let decl = RawDecl {
        ident: "P".to_string(),
        attrs: vec![
            patch_attr(vec![sym('('), w("apply"), sym('='), w("f"), sym(')')]),
            patch_attr(vec![sym('('), w("apply"), sym('='), w("g"), sym(')')]),
        ],
        data: RawData::Unit,
    };
    assert_eq!(extract_schema(decl), Err(ExtractError::DuplicateAnnotation));
}

#[test]
fn extract_malformed_annotation() {
    let decl = RawDecl {
        ident: "P".to_string(),
        attrs: vec![patch_attr(vec![sym('='), FlatToken::LitOther("42".to_string())])],
        data: RawData::Unit,
    };
    assert_eq!(extract_schema(decl), Err(ExtractError::MalformedAnnotation));
}

#[test]
fn parse_attr_forms() {
    assert_eq!(
        parse_attr(&vec![sym('='), lit("a::b")]),
        Some(AttrForm::Target("a::b".to_string()))
    );
    assert_eq!(
        parse_attr(&vec![sym('('), w("direct"), sym(')')]),
        Some(AttrForm::Word("direct".to_string()))
    );
    assert_eq!(
        parse_attr(&vec![
            sym('('),
            w("apply"),
            sym('='),
            w("foo"),
            sym(':'),
            sym(':'),
            w("bar"),
            sym(')'),
        ]),
        Some(AttrForm::KeyPath("apply".to_string(), "foo::bar".to_string()))
    );
    assert_eq!(parse_attr(&vec![sym('('), lit("x"), sym(')')]), None);
    assert_eq!(parse_attr(&vec![sym('('), w("a"), sym('='), sym(')')]), None);
    assert_eq!(parse_attr(&vec![w("direct")]), None);
}

#[test]
fn patch_attr_selection() {
    let attrs = vec![
        RawAttr { path: vec!["derive".to_string()], tokens: vec![w("Clone")] },
        patch_attr(vec![sym('='), lit("T")]),
        RawAttr { path: vec!["doc".to_string()], tokens: vec![] },
        patch_attr(vec![sym('('), w("direct"), sym(')')]),
    ];
    let picked = get_patch_attrs(attrs);
    assert_eq!(picked.len(), 2);
    assert_eq!(picked[0], vec![sym('='), lit("T")]);
    assert_eq!(picked[1], vec![sym('('), w("direct"), sym(')')]);
}

#[test]
fn path_validation() {
    assert!(path_ok_exec("Item"));
    assert!(path_ok_exec("item::ModItem"));
    assert!(path_ok_exec("a::b::c"));
    assert!(!path_ok_exec(""));
    assert!(!path_ok_exec("::a"));
    assert!(!path_ok_exec("a::"));
    assert!(!path_ok_exec("9a"));
    assert!(!path_ok_exec("not a path!"));
}

#[test]
fn index_rendering() {
    assert_eq!(render_index(0), "0");
    assert_eq!(render_index(7), "7");
    assert_eq!(render_index(10), "10");
    assert_eq!(render_index(12034), "12034");
}

#[test]
fn resolution_precedence() {
    let mut f = plain_field("x", true);
    f.skip = true;
    f.apply = Some("m".to_string());
    assert_eq!(resolve_field(&f, None, &None), MergePolicy::Skip);

    let mut f = plain_field("x", true);
    f.apply = Some("m".to_string());
    f.policy = Some(PolicyAttr::Direct);
    assert_eq!(resolve_field(&f, None, &None), MergePolicy::Custom("m".to_string()));

    let mut f = plain_field("x", true);
    f.policy = Some(PolicyAttr::Direct);
    assert_eq!(resolve_field(&f, None, &Some("t".to_string())), MergePolicy::Overwrite);

    let f = plain_field("x", true);
    assert_eq!(
        resolve_field(&f, Some(PolicyAttr::Direct), &Some("t".to_string())),
        MergePolicy::Custom("t".to_string())
    );
    assert_eq!(
        resolve_field(&f, Some(PolicyAttr::Direct), &None),
        MergePolicy::Overwrite
    );
    assert_eq!(
        resolve_field(&f, Some(PolicyAttr::AsOption), &None),
        MergePolicy::OverwriteOptionIfPresent
    );
    assert_eq!(resolve_field(&f, None, &None), MergePolicy::OverwriteIfOptionPresent);

    let f = plain_field("x", false);
    assert_eq!(resolve_field(&f, None, &None), MergePolicy::Overwrite);
}

#[test]
fn resolve_whole_schema() {
    let s = TypeSchema {
        ident: "P".to_string(),
        fields: vec![plain_field("a", true), plain_field("b", false)],
        targets: vec!["T".to_string()],
        policy: None,
        apply: None,
    };
    assert_eq!(
        resolve_policies(&s),
        vec![MergePolicy::OverwriteIfOptionPresent, MergePolicy::Overwrite]
    );
}

#[test]
fn emit_item_patch() {
    let out = generate(item_patch_decl()).unwrap();
    let one = |t: &str| {
        format!(
            "impl ::rust_patch::Patch<{t}> for ItemPatch {{\n    fn apply(self, mut target: {t}) -> {t} {{\n        if let Some(val) = self.data {{ target.data = val; }}\n        target\n    }}\n}}\n"
        )
    };
    let expected = format!("{}{}{}", one("Item"), one("IdItem"), one("item::ModItem"));
    assert_eq!(out, expected);
}

#[test]
fn emit_unnamed_and_direct() {
    let decl = RawDecl {
        ident: "UnnamedPatch".to_string(),
        attrs: vec![patch_attr(vec![sym('='), lit("UnnamedItem")])],
        data: RawData::Unnamed(vec![RawField {
            ident: None,
            ty: opt_u32_ty(),
            attrs: vec![patch_attr(vec![sym('('), w("direct"), sym(')')])],
        }]),
    };
    let out = generate(decl).unwrap();
    let expected = "impl ::rust_patch::Patch<UnnamedItem> for UnnamedPatch {\n    fn apply(self, mut target: UnnamedItem) -> UnnamedItem {\n        target.0 = self.0;\n        target\n    }\n}\n";
    assert_eq!(out, expected);
}

#[test]
fn emit_skip_and_guard() {
    let s = TypeSchema {
        ident: "P".to_string(),
        fields: vec![
            FieldSchema {
                name: FieldName::Ident("a".to_string()),
                optional: false,
                policy: None,
                skip: true,
                skip_if: None,
                apply: None,
            },
            FieldSchema {
                name: FieldName::Ident("b".to_string()),
                optional: false,
                policy: None,
                skip: false,
                skip_if: Some("is_zero".to_string()),
                apply: None,
            },
        ],
        targets: vec!["T".to_string()],
        policy: None,
        apply: None,
    };
    let out = emit_impls(&s);
    let expected = "impl ::rust_patch::Patch<T> for P {\n    fn apply(self, mut target: T) -> T {\n        if !is_zero(&self.b) { target.b = self.b; }\n        target\n    }\n}\n";
    assert_eq!(out, expected);
}

#[test]
fn emit_custom_merge() {
    let name = "data".to_string();
    let stmt = emit_guarded_stmt(&name, &MergePolicy::Custom("my_merge".to_string()), &None);
    assert_eq!(stmt, "target.data = my_merge(target.data, self.data);");
    let as_opt = emit_guarded_stmt(&name, &MergePolicy::OverwriteOptionIfPresent, &None);
    assert_eq!(as_opt, "if self.data.is_some() { target.data = self.data; }");
}

#[test]
fn emit_unit_patch() {
    let decl = RawDecl {
        ident: "UnitPatch".to_string(),
        attrs: vec![patch_attr(vec![sym('='), lit("UnitItem")])],
        data: RawData::Unit,
    };
    let out = generate(decl).unwrap();
    let expected = "impl ::rust_patch::Patch<UnitItem> for UnitPatch {\n    fn apply(self, mut target: UnitItem) -> UnitItem {\n        target\n    }\n}\n";
    assert_eq!(out, expected);
}

#[test]
fn extract_type_level_defaults() {
    let decl = RawDecl {
        ident: "P".to_string(),
        attrs: vec![
            patch_attr(vec![sym('='), lit("Item")]),
            patch_attr(vec![sym('('), w("as_option"), sym(')')]),
        ],
        data: RawData::Named(vec![named_raw("data", opt_u32_ty(), vec![])]),
    };
    let s = extract_schema(decl).unwrap();
    assert_eq!(s.policy, Some(PolicyAttr::AsOption));
    assert_eq!(resolve_policies(&s), vec![MergePolicy::OverwriteOptionIfPresent]);
}

#[test]
fn emit_type_level_apply() {
    let decl = RawDecl {
        ident: "P".to_string(),
        attrs: vec![
            patch_attr(vec![sym('='), lit("T")]),
            patch_attr(vec![sym('('), w("apply"), sym('='), w("m"), sym(')')]),
        ],
        data: RawData::Named(vec![named_raw("a", vec![w("u32")], vec![])]),
    };
    let out = generate(decl).unwrap();
    let expected = "impl ::rust_patch::Patch<T> for P {\n    fn apply(self, mut target: T) -> T {\n        target.a = m(target.a, self.a);\n        target\n    }\n}\n";
    assert_eq!(out, expected);
}

#[test]
fn emit_no_targets() {
    let s = TypeSchema {
        ident: "P".to_string(),
        fields: vec![plain_field("a", true)],
        targets: vec![],
        policy: None,
        apply: None,
    };
    assert_eq!(emit_impls(&s), "");
}

#[test]
fn user_patch_scenario() {
    let text_field = |n: &str, v: &str| RecordField {
        name: FieldName::Ident(n.to_string()),
        value: FieldValue::Plain(Scalar::Text(v.to_string())),
    };
    let user = Record {
        fields: vec![
            text_field("id", "X"),
            text_field("name", "Max"),
            text_field("email", "old@x"),
        ],
    };
    let schema = TypeSchema {
        ident: "UserPatch".to_string(),
        fields: vec![plain_field("name", true), plain_field("email", true)],
        targets: vec!["User".to_string()],
        policy: None,
        apply: None,
    };
    let patch = PatchInstance::new(
        schema,
        vec![
            FieldValue::Opt(None),
            FieldValue::Opt(Some(Scalar::Text("new@x".to_string()))),
        ],
    )
    .unwrap();
    let result = patch.apply(user);
    let expected = Record {
        fields: vec![
            text_field("id", "X"),
            text_field("name", "Max"),
            text_field("email", "new@x"),
        ],
    };
    assert_eq!(result, expected);
}

#[test]
fn patch_instance_arity() {
    let s = TypeSchema {
        ident: "P".to_string(),
        fields: vec![plain_field("a", true)],
        targets: vec![],
        policy: None,
        apply: None,
    };
    assert!(PatchInstance::new(s, vec![]).is_none());
}

#[test]
fn direct_keeps_patch_value() {
    assert_eq!(rust_patch::apply::direct(1u32, 7u64), 7u64);
    assert_eq!(rust_patch::apply::direct("old", "new"), "new");
}
