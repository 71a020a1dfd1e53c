//! Tests of the run driver: the marker header, type aliases, constants,
//! multi-file accumulation, determinism, the unprocessed list and the
//! overwrite guard.

use tsync::items::{generate_output, process_source_items};
use tsync::model::{
    Attr, AttrArgs, AttrPayload, BuildSettings, ConstDecl, ConstExpr, EnumDecl, EnumVariant,
    FieldList, GenericArg, NameValue, NamedField, PathArgs, SourceItem, StructDecl, TupleField,
    TypeAliasDecl, TypeExpr,
};
use tsync::output::{overwrite_allowed, BuildState};

fn s(x: &str) -> String {
    x.to_string()
}

fn dts() -> BuildSettings {
    BuildSettings { uses_type_interface: true, enable_const_enums: false }
}

fn module_mode() -> BuildSettings {
    BuildSettings { uses_type_interface: false, enable_const_enums: false }
}

fn plain_attr(name: &str) -> Attr {
    Attr { segments: vec![s(name)], payload: AttrPayload::Plain }
}

fn doc_attr(text: &str) -> Attr {
    Attr {
        segments: vec![s("doc")],
        payload: AttrPayload::NameValue { literals: vec![format!("\"{}\"", text)] },
    }
}

fn serde_nv(pairs: &[(&str, &str)]) -> Attr {
    Attr {
        segments: vec![s("serde")],
        payload: AttrPayload::List {
            args: AttrArgs::NameValues {
                pairs: pairs
                    .iter()
                    .map(|(k, v)| NameValue { name: s(k), value: format!("\"{}\"", v) })
                    .collect(),
            },
        },
    }
}

fn path_ty(name: &str) -> TypeExpr {
    TypeExpr::Path { ident: s(name), args: PathArgs::NoArgs }
}

fn generic_ty(name: &str, args: Vec<TypeExpr>) -> TypeExpr {
    TypeExpr::Path {
        ident: s(name),
        args: PathArgs::Angle {
            args: args.into_iter().map(|t| GenericArg::Ty { ty: t }).collect(),
        },
    }
}

fn field(name: &str, ty: TypeExpr) -> NamedField {
    NamedField { name: s(name), ty, attrs: vec![] }
}

fn lines(ls: &[&str]) -> String {
    ls.join("\n") + "\n"
}

#[test]
fn test_type() {
    let items = vec![
        SourceItem::TypeAlias {
            decl: TypeAliasDecl {
                name: s("UTC"),
                attrs: vec![plain_attr("tsync"), doc_attr(" Time in UTC seconds")],
                ty: path_ty("usize"),
            },
        },
        SourceItem::TypeAlias {
            decl: TypeAliasDecl {
                name: s("MyMap"),
                attrs: vec![
                    doc_attr(" make sure HashMap is converted correctly to a typescript Record<> type"),
                    plain_attr("tsync"),
                ],
                ty: generic_ty(
                    "HashMap",
                    vec![path_ty("String"), generic_ty("Option", vec![path_ty("usize")])],
                ),
            },
        },
    ];
    let out = generate_output(items, &dts());
    let expected = lines(&[
        "/* This file is generated and managed by tsync */",
        "",
        "/** Time in UTC seconds */",
        "type UTC = number",
        "",
        "/** make sure HashMap is converted correctly to a typescript Record<> type */",
        "type MyMap = Record<string, number | undefined>",
    ]);
    assert_eq!(out.types, expected);
}

fn const_items() -> Vec<SourceItem> {
    vec![
        SourceItem::Const {
            decl: ConstDecl {
                name: s("CONST_TEST_1"),
                attrs: vec![plain_attr("tsync"), doc_attr(" Test integer")],
                expr: ConstExpr::Literal { text: s("0") },
            },
        },
        SourceItem::Const {
            decl: ConstDecl {
                name: s("CONST_TEST_2"),
                attrs: vec![plain_attr("tsync"), doc_attr(" Shouldn't compile but should convert")],
                expr: ConstExpr::Literal { text: s("0.0") },
            },
        },
        SourceItem::Const {
            decl: ConstDecl {
                name: s("SERDE_JSON_1"),
                attrs: vec![plain_attr("tsync"), doc_attr(" Test serde_json")],
                expr: ConstExpr::MacroCall {
                    segments: vec![s("serde_json"), s("json")],
                    tokens: s("{ \"a\" : \"b\" }"),
                },
            },
        },
        SourceItem::Const {
            decl: ConstDecl {
                name: s("SERDE_JSON_2"),
                attrs: vec![plain_attr("tsync")],
                expr: ConstExpr::MacroCall {
                    segments: vec![s("json")],
                    tokens: s("{ \"a\" : \"b\" }"),
                },
            },
        },
        // Anything that is neither a literal nor a recognized JSON macro
        // is skipped.
        SourceItem::Const {
            decl: ConstDecl {
                name: s("COMPUTED"),
                attrs: vec![plain_attr("tsync")],
                expr: ConstExpr::Other,
            },
        },
        SourceItem::Const {
            decl: ConstDecl {
                name: s("OTHER_MACRO"),
                attrs: vec![plain_attr("tsync")],
                expr: ConstExpr::MacroCall { segments: vec![s("vec")], tokens: s("[1, 2]") },
            },
        },
    ]
}

#[test]
fn test_const() {
    // Ambient declaration mode writes no constants at all.
    let out = generate_output(const_items(), &dts());
    assert_eq!(out.types, "/* This file is generated and managed by tsync */\n");

    // Module mode writes the literals and the JSON-literal macros.
    let out = generate_output(const_items(), &module_mode());
    let expected = lines(&[
        "/* This file is generated and managed by tsync */",
        "",
        "/** Test integer */",
        "export const CONST_TEST_1 = 0;",
        "",
        "/** Shouldn't compile but should convert */",
        "export const CONST_TEST_2 = 0.0;",
        "",
        "/** Test serde_json */",
        "export const SERDE_JSON_1 = { \"a\" : \"b\" };",
        "",
        "export const SERDE_JSON_2 = { \"a\" : \"b\" };",
    ]);
    assert_eq!(out.types, expected);
}

fn book_file_items() -> Vec<SourceItem> {
    vec![SourceItem::Struct {
        decl: StructDecl {
            name: s("Book"),
            generics: vec![],
            attrs: vec![doc_attr(" Doc comments are preserved too!"), plain_attr("tsync")],
            fields: FieldList::Named {
                fields: vec![
                    field("name", path_ty("String")),
                    field("chapters", generic_ty("Vec", vec![path_ty("Chapter")])),
                ],
            },
        },
    }]
}

fn chapter_file_items() -> Vec<SourceItem> {
    vec![SourceItem::Struct {
        decl: StructDecl {
            name: s("Chapter"),
            generics: vec![],
            attrs: vec![plain_attr("tsync")],
            fields: FieldList::Named {
                fields: vec![field("title", path_ty("String")), field("pages", path_ty("u32"))],
            },
        },
    }]
}

#[test]
fn test_directory_input() {
    // Files are drained into one buffer in traversal order; declaration
    // order within each file is preserved.
    let settings = dts();
    let mut state = BuildState::new();
    state.push_header();
    process_source_items(book_file_items(), &mut state, &settings);
    process_source_items(chapter_file_items(), &mut state, &settings);
    let expected = lines(&[
        "/* This file is generated and managed by tsync */",
        "",
        "/** Doc comments are preserved too! */",
        "interface Book {",
        "  name: string;",
        "  chapters: Array<Chapter>;",
        "}",
        "",
        "interface Chapter {",
        "  title: string;",
        "  pages: number;",
        "}",
    ]);
    assert_eq!(state.types, expected);
    assert!(state.unprocessed_files.is_empty());
}

#[test]
fn regeneration_is_byte_for_byte() {
    // The same declarations under the same settings give the same bytes.
    let first = generate_output(book_file_items(), &dts());
    let second = generate_output(book_file_items(), &dts());
    assert_eq!(first.types, second.types);

    let first = generate_output(const_items(), &module_mode());
    let second = generate_output(const_items(), &module_mode());
    assert_eq!(first.types, second.types);
}

#[test]
fn unprocessed_files_accumulate() {
    // One valid input and one nonexistent path: the run carries on, the
    // valid declarations appear, and the missing path is recorded exactly
    // once.
    let settings = dts();
    let mut state = BuildState::new();
    state.push_header();
    process_source_items(book_file_items(), &mut state, &settings);
    state.record_unprocessed(s("does/not/exist.rs"));
    process_source_items(chapter_file_items(), &mut state, &settings);
    assert!(state.types.contains("interface Book {"));
    assert!(state.types.contains("interface Chapter {"));
    assert_eq!(state.unprocessed_files, vec![s("does/not/exist.rs")]);
}

#[test]
fn output_guard() {
    // A first line carrying the marker, with or without surrounding
    // whitespace, allows the overwrite.
    assert!(overwrite_allowed("/* This file is generated and managed by tsync */"));
    assert!(overwrite_allowed("/* This file is generated and managed by tsync */\n"));
    assert!(overwrite_allowed("  /* This file is generated and managed by tsync */  "));
    // Anything else refuses it.
    assert!(!overwrite_allowed("// my hand-written types"));
    assert!(!overwrite_allowed(""));
    assert!(!overwrite_allowed("/* This file is generated and managed by tsync"));
}

#[test]
fn capture_configuration_samples() {
    // The sample declarations, translated: struct variants and newtype
    // variants under internal tagging with a lowercase rename rule.
    let items = vec![
        SourceItem::Enum {
            decl: EnumDecl {
                name: s("CaptureConfigurationStruct"),
                generics: vec![],
                attrs: vec![
                    serde_nv(&[("tag", "type"), ("rename_all", "lowercase")]),
                    plain_attr("tsync"),
                ],
                variants: vec![
                    EnumVariant {
                        name: s("Video"),
                        fields: FieldList::Named {
                            fields: vec![
                                field("height", path_ty("u32")),
                                field("width", path_ty("u32")),
                            ],
                        },
                        discriminant: None,
                        attrs: vec![],
                    },
                    EnumVariant {
                        name: s("Redirect"),
                        fields: FieldList::Unit,
                        discriminant: None,
                        attrs: vec![],
                    },
                ],
            },
        },
        SourceItem::Enum {
            decl: EnumDecl {
                name: s("CaptureConfigurationNewtype"),
                generics: vec![],
                attrs: vec![
                    serde_nv(&[("tag", "type"), ("rename_all", "lowercase")]),
                    plain_attr("tsync"),
                ],
                variants: vec![
                    EnumVariant {
                        name: s("Video"),
                        fields: FieldList::Unnamed {
                            fields: vec![TupleField {
                                ty: path_ty("VideoCaptureConfiguration"),
                                attrs: vec![],
                            }],
                        },
                        discriminant: None,
                        attrs: vec![],
                    },
                    EnumVariant {
                        name: s("Redirect"),
                        fields: FieldList::Unnamed {
                            fields: vec![TupleField {
                                ty: path_ty("RedirectCaptureConfiguration"),
                                attrs: vec![],
                            }],
                        },
                        discriminant: None,
                        attrs: vec![],
                    },
                ],
            },
        },
        SourceItem::Struct {
            decl: StructDecl {
                name: s("VideoCaptureConfiguration"),
                generics: vec![],
                attrs: vec![plain_attr("tsync")],
                fields: FieldList::Named {
                    fields: vec![field("height", path_ty("u32")), field("width", path_ty("u32"))],
                },
            },
        },
        SourceItem::Struct {
            decl: StructDecl {
                name: s("RedirectCaptureConfiguration"),
                generics: vec![],
                attrs: vec![plain_attr("tsync")],
                fields: FieldList::Named { fields: vec![] },
            },
        },
    ];
    let out = generate_output(items, &dts());
    let expected = lines(&[
        "/* This file is generated and managed by tsync */",
        "",
        "type CaptureConfigurationStruct =",
        "  | CaptureConfigurationStruct__Video",
        "  | CaptureConfigurationStruct__Redirect;",
        "",
        "type CaptureConfigurationStruct__Video = {",
        "  type: \"video\";",
        "  height: number;",
        "  width: number;",
        "};",
        "type CaptureConfigurationStruct__Redirect = {",
        "  type: \"redirect\";",
        "};",
        "",
        "type CaptureConfigurationNewtype =",
        "  | CaptureConfigurationNewtype__Video",
        "  | CaptureConfigurationNewtype__Redirect;",
        "",
        "type CaptureConfigurationNewtype__Video = {",
        "  type: \"video\"} & VideoCaptureConfiguration",
        "type CaptureConfigurationNewtype__Redirect = {",
        "  type: \"redirect\"} & RedirectCaptureConfiguration",
        "",
        "interface VideoCaptureConfiguration {",
        "  height: number;",
        "  width: number;",
        "}",
        "",
        "interface RedirectCaptureConfiguration {",
        "  [key: PropertyKey]: never;",
        "}",
    ]);
    assert_eq!(out.types, expected);

    // The library's sample types mirror these declarations.
    let video = tsync::samples::VideoCaptureConfiguration { height: 720, width: 1280 };
    let cfg = tsync::samples::CaptureConfigurationNewtype::Video(video);
    match cfg {
        tsync::samples::CaptureConfigurationNewtype::Video(v) => assert_eq!(v.height, 720),
        tsync::samples::CaptureConfigurationNewtype::Redirect(_) => panic!("wrong variant"),
    }
    let st = tsync::samples::CaptureConfigurationStruct::Video { height: 1, width: 2 };
    assert!(matches!(
        st,
        tsync::samples::CaptureConfigurationStruct::Video { height: 1, width: 2 }
    ));
}

#[test]
fn module_mode_exports_every_declaration_kind() {
    // One run over a struct, an enum of each simple kind, a type alias and
    // a constant, written as a module file.
    let items = vec![
        SourceItem::Struct {
            decl: StructDecl {
                name: s("Chapter"),
                generics: vec![],
                attrs: vec![plain_attr("tsync")],
                fields: FieldList::Named {
                    fields: vec![field("title", path_ty("String")), field("pages", path_ty("u32"))],
                },
            },
        },
        SourceItem::Enum {
            decl: EnumDecl {
                name: s("Animal"),
                generics: vec![],
                attrs: vec![plain_attr("tsync")],
                variants: vec![
                    EnumVariant {
                        name: s("Dog"),
                        fields: FieldList::Unit,
                        discriminant: None,
                        attrs: vec![],
                    },
                    EnumVariant {
                        name: s("Cat"),
                        fields: FieldList::Unit,
                        discriminant: None,
                        attrs: vec![],
                    },
                ],
            },
        },
        SourceItem::Enum {
            decl: EnumDecl {
                name: s("Message"),
                generics: vec![],
                attrs: vec![plain_attr("tsync"), serde_nv(&[("tag", "last_precedent")])],
                variants: vec![EnumVariant {
                    name: s("UnitCaseLeft"),
                    fields: FieldList::Unit,
                    discriminant: None,
                    attrs: vec![],
                }],
            },
        },
        SourceItem::TypeAlias {
            decl: TypeAliasDecl {
                name: s("UTC"),
                attrs: vec![plain_attr("tsync")],
                ty: path_ty("usize"),
            },
        },
        SourceItem::Const {
            decl: ConstDecl {
                name: s("CONST_TEST_1"),
                attrs: vec![plain_attr("tsync")],
                expr: ConstExpr::Literal { text: s("0") },
            },
        },
        SourceItem::Other,
    ];
    let out = generate_output(items, &module_mode());
    let expected = lines(&[
        "/* This file is generated and managed by tsync */",
        "",
        "export interface Chapter {",
        "  title: string;",
        "  pages: number;",
        "}",
        "",
        "export type Animal =",
        "  | \"Dog\" | \"Cat\";",
        "",
        "export type Message =",
        "  | Message__UnitCaseLeft;",
        "",
        "type Message__UnitCaseLeft = {",
        "  last_precedent: \"UnitCaseLeft\";",
        "};",
        "",
        "export type UTC = number",
        "",
        "export const CONST_TEST_1 = 0;",
    ]);
    assert_eq!(out.types, expected);
}
