use tiny_orm::attr::{FieldInput, MacroArg, StructData};
use tiny_orm::error::MacroError;
use tiny_orm::item::{
    derive_item, derive_source, struct_input, AttrItem, AttrText, FieldItem, FieldParts, ItemData,
    MetaItem, RawMeta, RawToken, StructItem,
};
use tiny_orm::set_option::SetOption;

fn clean(s: &str) -> String {
    s.replace([' ', '\n'], "")
}

#[test]
fn derive_source_writes_the_methods() {
    let src = r#"
        #[derive(Debug)]
        #[tiny_orm(table_name = "contacts", only = "get, create", db_type = "sqlite")]
        pub struct Contact {
            #[tiny_orm(primary_key(auto))]
            pub custom_id: i64,
            name: String,
        }
    "#;
    let out = derive_source(src).unwrap();
    let c = clean(&out);
    assert!(c.starts_with(
        "implContact{pubfntable_name<'a>()->&'astr{\"contacts\"}pubasyncfnget_by_id<'e,E>(db:E,id:&i64)"
    ));
    assert!(c.contains("qb.push(\"contacts\");"));
    assert!(c.contains("::sqlx::SqliteExecutor<'e>"));
    // the key that the database fills is not inserted
    assert!(!c.contains("fields_str.push(\"custom_id\")"));
    assert!(c.contains("fields_str.push(\"name\")"));
    assert!(c.contains("qb.push(\"RETURNING\");qb.push(\"custom_id\");"));
    assert!(!c.contains("fnlist_all"));
}

#[test]
fn derive_source_reads_return_object_and_set_options() {
    let src = r#"
        #[tiny_orm(return_object = "  Row ", only = "update")]
        struct UpdateRow {
            id: i32,
            note: SetOption<String>,
        }
    "#;
    let c = clean(&derive_source(src).unwrap());
    assert!(c.contains("->::sqlx::Result<Row>"));
    assert!(c.contains("ifself.note.is_set(){"));
}

#[test]
fn derive_source_refusals() {
    assert_eq!(derive_source("enum E { A }"), Err(MacroError::NotAStruct));
    assert_eq!(derive_source("struct T(i32);"), Err(MacroError::NotNamedFields));
    assert_eq!(
        derive_source("#[tiny_orm] struct S { id: i32 }"),
        Err(MacroError::InvalidAttribute)
    );
    assert_eq!(
        derive_source("#[tiny_orm(return_object = \"Self\")] struct S { id: i32 }"),
        Err(MacroError::ReturnObjectIsSelf)
    );
    assert!(matches!(derive_source("fn f() {}"), Err(MacroError::Unparsable(_))));
    // argument errors come before the shape of the fields
    assert_eq!(
        derive_source("#[tiny_orm(colour = \"red\")] struct T(i32);"),
        Err(MacroError::UnknownArgument)
    );
}

#[test]
fn derive_source_ignores_other_attributes() {
    let src = r#"
        #[serde(rename_all = "camelCase")]
        #[doc = "a row"]
        struct Note { #[serde(skip)] id: i32, text: String }
    "#;
    let c = clean(&derive_source(src).unwrap());
    assert!(c.starts_with("implNote{pubfntable_name"));
}

fn text(attrs: Vec<AttrItem>) -> AttrText {
    AttrText { text: "#[..]".to_string(), attrs: Some(attrs) }
}

fn meta(arg: MacroArg) -> MetaItem {
    match arg {
        MacroArg::Path { path } => MetaItem { meta: Some(RawMeta::Path { path }), str_value: None },
        MacroArg::List { path, first } => {
            MetaItem { meta: Some(RawMeta::List { path, first }), str_value: None }
        }
        MacroArg::NameValue { path, text, str_value } => {
            MetaItem { meta: Some(RawMeta::NameValue { path, value: text }), str_value }
        }
    }
}

/// An attribute read from the given arguments and tokens.
fn attr(path: &str, args: Option<Vec<MacroArg>>, tokens: Option<Vec<RawToken>>) -> AttrItem {
    AttrItem {
        path: Some(path.to_string()),
        metas: args.map(|v| v.into_iter().map(meta).collect()),
        tokens,
    }
}

fn id(s: &str) -> RawToken {
    RawToken::Ident(s.to_string())
}

fn comma() -> RawToken {
    RawToken::Punct(',', false)
}

fn eq() -> RawToken {
    RawToken::Punct('=', false)
}

fn group(parens: bool, first: Option<&str>) -> RawToken {
    RawToken::Group(parens, first.map(|s| s.to_string()))
}

fn field(name: Option<&str>, vis: &str, ty: &str, attrs: Vec<AttrItem>) -> FieldItem {
    FieldItem {
        text: "field".to_string(),
        parts: Some(FieldParts {
            name: name.map(|s| s.to_string()),
            vis: vis.to_string(),
            ty: ty.to_string(),
            attrs: vec![text(attrs)],
        }),
    }
}

#[test]
fn struct_input_reads_key_markers() {
    let item = StructItem {
        name: "Thing".to_string(),
        vis: "pub".to_string(),
        attrs: vec![text(vec![
            attr("derive", None, None),
            attr("tiny_orm", Some(vec![MacroArg::Path { path: Some("all".to_string()) }]), None),
        ])],
        data: ItemData::Named(vec![
            field(
                Some("a"),
                "pub (crate)",
                "u32",
                vec![attr("tiny_orm", None, Some(vec![id("primary_key"), group(true, Some("auto"))]))],
            ),
            field(
                Some("b"),
                "",
                "u32",
                vec![
                    attr("other", None, Some(vec![id("primary_key"), group(true, Some("auto"))])),
                    attr("tiny_orm", None, Some(vec![id("primary_key"), group(true, Some("manual"))])),
                ],
            ),
            field(Some("c"), "", "u32", vec![attr("tiny_orm", None, None)]),
        ]),
    };
    let input = struct_input(item).unwrap();
    assert_eq!(input.name, "Thing");
    assert_eq!(input.vis, "pub");
    assert_eq!(input.args, vec![MacroArg::Path { path: Some("all".to_string()) }]);
    let fields = match input.data {
        StructData::Named(f) => f,
        _ => panic!("named fields expected"),
    };
    assert_eq!(
        fields,
        vec![
            FieldInput {
                name: "a".to_string(),
                vis: "pub (crate)".to_string(),
                ty: "u32".to_string(),
                primary_key: true,
                auto_increment: true,
            },
            FieldInput {
                name: "b".to_string(),
                vis: String::new(),
                ty: "u32".to_string(),
                primary_key: true,
                auto_increment: false,
            },
            FieldInput {
                name: "c".to_string(),
                vis: String::new(),
                ty: "u32".to_string(),
                primary_key: false,
                auto_increment: false,
            },
        ]
    );
}

#[test]
fn struct_input_refusals() {
    // a `#[tiny_orm]` without an argument list
    let item = StructItem {
        name: "S".to_string(),
        vis: String::new(),
        attrs: vec![text(vec![attr("tiny_orm", None, None)])],
        data: ItemData::NotStruct,
    };
    assert_eq!(struct_input(item).unwrap_err(), MacroError::InvalidAttribute);
    // an item of the list that syn refused
    let item = StructItem {
        name: "S".to_string(),
        vis: String::new(),
        attrs: vec![text(vec![AttrItem {
            path: Some("tiny_orm".to_string()),
            metas: Some(vec![MetaItem { meta: None, str_value: None }]),
            tokens: None,
        }])],
        data: ItemData::NotNamed,
    };
    assert_eq!(struct_input(item).unwrap_err(), MacroError::InvalidAttribute);
    let item = StructItem {
        name: "S".to_string(),
        vis: String::new(),
        attrs: vec![],
        data: ItemData::Named(vec![field(None, "", "u8", vec![])]),
    };
    assert_eq!(struct_input(item).unwrap_err(), MacroError::MissingFieldName);
    // texts that syn refused come first, the item's attributes before its fields
    let item = StructItem {
        name: "S".to_string(),
        vis: String::new(),
        attrs: vec![
            text(vec![attr("tiny_orm", None, None)]),
            AttrText { text: "#[x".to_string(), attrs: None },
        ],
        data: ItemData::Named(vec![FieldItem { text: "y:".to_string(), parts: None }]),
    };
    assert_eq!(struct_input(item).unwrap_err(), MacroError::Unparsable("#[x".to_string()));
    let item = StructItem {
        name: "S".to_string(),
        vis: String::new(),
        attrs: vec![text(vec![attr("tiny_orm", None, None)])],
        data: ItemData::Named(vec![
            field(None, "", "u8", vec![]),
            FieldItem { text: "y:".to_string(), parts: None },
        ]),
    };
    assert_eq!(struct_input(item).unwrap_err(), MacroError::Unparsable("y:".to_string()));
}

#[test]
fn derive_item_on_a_read_item() {
    let item = StructItem {
        name: "Note".to_string(),
        vis: String::new(),
        attrs: vec![text(vec![attr(
            "tiny_orm",
            Some(vec![MacroArg::NameValue {
                path: Some("only".to_string()),
                text: "\"list\"".to_string(),
                str_value: Some("list".to_string()),
            }]),
            None,
        )])],
        data: ItemData::Named(vec![field(Some("id"), "", "i32", vec![])]),
    };
    let out = derive_item(item).unwrap();
    assert!(out.starts_with("impl Note {\npub fn table_name<'a>() -> &'a str {\n\"note\"\n}\n"));
    assert!(out.contains("pub async fn list_all"));
    assert!(!out.contains("get_by_id"));
}

#[test]
fn set_option_default_is_not_set() {
    let s: SetOption<i32> = SetOption::default();
    assert_eq!(s, SetOption::NotSet);
}

fn marks_of(fields: Vec<FieldItem>) -> Vec<(bool, bool)> {
    let item = StructItem {
        name: "Row".to_string(),
        vis: String::new(),
        attrs: vec![],
        data: ItemData::Named(fields),
    };
    match struct_input(item).unwrap().data {
        StructData::Named(f) => f.iter().map(|f| (f.primary_key, f.auto_increment)).collect(),
        _ => panic!("named fields expected"),
    }
}

fn marked(name: &str, tokens: Vec<RawToken>) -> FieldItem {
    field(Some(name), "", "i64", vec![attr("tiny_orm", None, Some(tokens))])
}

#[test]
fn key_marker_reading_stops_where_syn_stops() {
    let marks = marks_of(vec![
        // the reading stops at `foo = 1`, before `primary_key`
        marked("a", vec![id("foo"), eq(), RawToken::Literal, comma(), id("primary_key")]),
        // `primary_key = 1` marks the key, then the reading stops
        marked(
            "b",
            vec![id("primary_key"), eq(), RawToken::Literal, comma(), id("primary_key"), group(true, Some("auto"))],
        ),
        // a list under another name stops the reading too
        marked("c", vec![id("other"), group(true, None), comma(), id("primary_key")]),
        // a plain name, and a path joined by `::`, do not stop it
        marked(
            "d",
            vec![
                id("other"),
                comma(),
                id("a"),
                RawToken::Punct(':', true),
                RawToken::Punct(':', false),
                id("b"),
                comma(),
                id("primary_key"),
                group(true, Some("auto")),
            ],
        ),
        // a `primary_key` list in brackets marks the key, then stops
        marked("e", vec![id("primary_key"), group(false, Some("auto")), comma(), id("primary_key"), group(true, Some("auto"))]),
        // an item that has no name stops it, keeping what was read before
        marked("f", vec![id("primary_key"), comma(), RawToken::Literal, comma(), id("primary_key"), group(true, Some("auto"))]),
        // a path with a leading `::` is not `primary_key`
        marked("g", vec![RawToken::Punct(':', true), RawToken::Punct(':', false), id("primary_key")]),
    ]);
    assert_eq!(
        marks,
        vec![(false, false), (true, false), (false, false), (true, true), (true, false), (true, false), (false, false)]
    );
}

#[test]
fn key_markers_of_several_attributes_add_up() {
    let item = field(
        Some("k"),
        "",
        "i64",
        vec![
            attr("tiny_orm", None, Some(vec![id("x"), RawToken::Punct('=', false), RawToken::Literal, comma(), id("primary_key")])),
            attr("tiny_orm", None, Some(vec![id("primary_key"), group(true, Some("auto"))])),
        ],
    );
    assert_eq!(marks_of(vec![item]), vec![(true, true)]);
}

#[test]
fn derive_source_key_marker_after_name_value_is_not_read() {
    let src = r#"
        #[tiny_orm(only = "get")]
        struct Row {
            #[tiny_orm(rename = "x", primary_key)]
            code: i64,
            note: String,
        }
    "#;
    assert_eq!(derive_source(src), Err(MacroError::MissingPrimaryKeyForGet));
}

#[test]
fn derive_source_reads_the_key_list_delimiter() {
    let src = r#"
        #[tiny_orm(only = "create", db_type = "sqlite")]
        struct Row {
            #[tiny_orm(primary_key[auto])]
            code: i64,
            note: String,
        }
    "#;
    let c = clean(&derive_source(src).unwrap());
    // the key is marked, but not as filled by the database
    assert!(c.contains("fields_str.push(\"code\");"));
    assert!(c.contains("qb.push(\"RETURNING\");qb.push(\"code\");"));
    let src = src.replace("primary_key[auto]", "primary_key(auto)");
    let c = clean(&derive_source(&src).unwrap());
    assert!(!c.contains("fields_str.push(\"code\");"));
}

#[test]
fn derive_source_keeps_the_key_marked_before_an_unreadable_item() {
    let src = r#"
        #[tiny_orm(only = "get")]
        struct Row {
            #[tiny_orm(primary_key, 123)]
            code: i64,
            note: String,
        }
    "#;
    let c = clean(&derive_source(src).unwrap());
    // `code` is the key: the marker before the literal is kept
    assert!(c.contains("qb.push(\"code\");qb.push(\"=\");qb.push_bind(id);"));
    let src = r#"
        #[tiny_orm(only = "create", db_type = "sqlite")]
        struct Row {
            code: i64,
            #[tiny_orm(other::name, primary_key(auto), 1 + 2)]
            note: i64,
        }
    "#;
    let c = clean(&derive_source(src).unwrap());
    // the path `other::name` is read past; `note` is a key the database fills
    assert!(c.contains("qb.push(\"RETURNING\");qb.push(\"note\");"));
    assert!(!c.contains("fields_str.push(\"note\");"));
}
