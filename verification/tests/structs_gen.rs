//! Generation tests for struct declarations: interfaces, case-converted
//! fields, generics, flattening and tuple structs.

use tsync::items::generate_output;
use tsync::model::{
    Attr, AttrArgs, AttrPayload, BuildSettings, FieldList, GenericArg, NameValue, NamedField,
    PathArgs, SourceItem, StructDecl, TupleField, TypeExpr,
};

fn s(x: &str) -> String {
    x.to_string()
}

fn dts() -> BuildSettings {
    BuildSettings { uses_type_interface: true, enable_const_enums: false }
}

fn module_mode() -> BuildSettings {
    BuildSettings { uses_type_interface: false, enable_const_enums: false }
}

fn plain_attr(name: &str) -> Attr {
    Attr { segments: vec![s(name)], payload: AttrPayload::Plain }
}

fn doc_attr(text: &str) -> Attr {
    Attr {
        segments: vec![s("doc")],
        payload: AttrPayload::NameValue { literals: vec![format!("\"{}\"", text)] },
    }
}

fn serde_nv(pairs: &[(&str, &str)]) -> Attr {
    Attr {
        segments: vec![s("serde")],
        payload: AttrPayload::List {
            args: AttrArgs::NameValues {
                pairs: pairs
                    .iter()
                    .map(|(k, v)| NameValue { name: s(k), value: format!("\"{}\"", v) })
                    .collect(),
            },
        },
    }
}

fn serde_bare(items: &[&str]) -> Attr {
    Attr {
        segments: vec![s("serde")],
        payload: AttrPayload::List {
            args: AttrArgs::Exprs { idents: items.iter().map(|x| Some(s(x))).collect() },
        },
    }
}

fn derive_attr(items: &[&str]) -> Attr {
    Attr {
        segments: vec![s("derive")],
        payload: AttrPayload::List {
            args: AttrArgs::Exprs { idents: items.iter().map(|x| Some(s(x))).collect() },
        },
    }
}

fn path_ty(name: &str) -> TypeExpr {
    TypeExpr::Path { ident: s(name), args: PathArgs::NoArgs }
}

fn generic_ty(name: &str, args: Vec<TypeExpr>) -> TypeExpr {
    TypeExpr::Path {
        ident: s(name),
        args: PathArgs::Angle {
            args: args.into_iter().map(|t| GenericArg::Ty { ty: t }).collect(),
        },
    }
}

fn field(name: &str, ty: TypeExpr) -> NamedField {
    NamedField { name: s(name), ty, attrs: vec![] }
}

fn field_doc(name: &str, ty: TypeExpr, docs: &[&str]) -> NamedField {
    NamedField { name: s(name), ty, attrs: docs.iter().map(|d| doc_attr(d)).collect() }
}

fn named_struct(name: &str, attrs: Vec<Attr>, fields: Vec<NamedField>) -> SourceItem {
    SourceItem::Struct {
        decl: StructDecl {
            name: s(name),
            generics: vec![],
            attrs,
            fields: FieldList::Named { fields },
        },
    }
}

fn generic_struct(
    name: &str,
    generics: &[&str],
    attrs: Vec<Attr>,
    fields: Vec<NamedField>,
) -> SourceItem {
    SourceItem::Struct {
        decl: StructDecl {
            name: s(name),
            generics: generics.iter().map(|g| s(g)).collect(),
            attrs,
            fields: FieldList::Named { fields },
        },
    }
}

fn lines(ls: &[&str]) -> String {
    ls.join("\n") + "\n"
}

fn book_items() -> Vec<SourceItem> {
    vec![
        named_struct(
            "Book",
            vec![doc_attr(" Doc comments are preserved too!"), plain_attr("tsync")],
            vec![
                field_doc("name", path_ty("String"), &[" Name of the book."]),
                field_doc(
                    "chapters",
                    generic_ty("Vec", vec![path_ty("Chapter")]),
                    &[" Chapters of the book."],
                ),
                field_doc(
                    "user_reviews",
                    generic_ty("Option", vec![generic_ty("Vec", vec![path_ty("String")])]),
                    &[" Reviews of the book", " by users."],
                ),
            ],
        ),
        named_struct(
            "BookCamel",
            vec![
                plain_attr("tsync"),
                derive_attr(&["Serialize"]),
                serde_nv(&[("rename_all", "camelCase")]),
                doc_attr(" Book struct with camelCase field names."),
            ],
            vec![
                field_doc("name", path_ty("String"), &[" Name of the book."]),
                field_doc(
                    "chapters",
                    generic_ty("Vec", vec![path_ty("Chapter")]),
                    &[" Chapters of the book."],
                ),
                field_doc(
                    "user_reviews",
                    generic_ty("Option", vec![generic_ty("Vec", vec![path_ty("String")])]),
                    &[" Reviews of the book", " by users."],
                ),
            ],
        ),
        named_struct(
            "Chapter",
            vec![
                doc_attr(" Multiple line comments"),
                doc_attr(" are formatted on"),
                doc_attr(" separate lines"),
                plain_attr("tsync"),
            ],
            vec![field("title", path_ty("String")), field("pages", path_ty("u32"))],
        ),
        generic_struct(
            "PaginationResult",
            &["T"],
            vec![plain_attr("tsync"), doc_attr(" Generic struct test")],
            vec![
                field("items", generic_ty("Vec", vec![path_ty("T")])),
                field("total_items", path_ty("number")),
            ],
        ),
        generic_struct(
            "PaginationResultCamel",
            &["T"],
            vec![
                plain_attr("tsync"),
                derive_attr(&["Serialize"]),
                serde_nv(&[("rename_all", "camelCase")]),
                doc_attr(" Generic struct test with camelCase field names."),
            ],
            vec![
                field("items", generic_ty("Vec", vec![path_ty("T")])),
                field("total_items", path_ty("number")),
            ],
        ),
    ]
}

#[test]
fn test_struct() {
    let out = generate_output(book_items(), &dts());
    let expected = lines(&[
        "/* This file is generated and managed by tsync */",
        "",
        "/** Doc comments are preserved too! */",
        "interface Book {",
        "  /** Name of the book. */",
        "  name: string;",
        "  /** Chapters of the book. */",
        "  chapters: Array<Chapter>;",
        "  /**",
        "   * Reviews of the book",
        "   * by users.",
        "   */",
        "  user_reviews?: Array<string>;",
        "}",
        "",
        "/** Book struct with camelCase field names. */",
        "interface BookCamel {",
        "  /** Name of the book. */",
        "  name: string;",
        "  /** Chapters of the book. */",
        "  chapters: Array<Chapter>;",
        "  /**",
        "   * Reviews of the book",
        "   * by users.",
        "   */",
        "  userReviews?: Array<string>;",
        "}",
        "",
        "/**",
        " * Multiple line comments",
        " * are formatted on",
        " * separate lines",
        " */",
        "interface Chapter {",
        "  title: string;",
        "  pages: number;",
        "}",
        "",
        "/** Generic struct test */",
        "interface PaginationResult<T> {",
        "  items: Array<T>;",
        "  total_items: number;",
        "}",
        "",
        "/** Generic struct test with camelCase field names. */",
        "interface PaginationResultCamel<T> {",
        "  items: Array<T>;",
        "  totalItems: number;",
        "}",
    ]);
    assert_eq!(out.types, expected);
    assert!(out.unprocessed_files.is_empty());

    // Module mode prefixes every declaration with the export keyword.
    let module_out = generate_output(book_items(), &module_mode());
    assert!(module_out.types.contains("export interface Book {"));
    assert!(module_out.types.contains("export interface PaginationResultCamel<T> {"));
}

#[test]
fn case_conversion_applies_to_field_names() {
    // A struct with rename_all = "camelCase" and a field literally named
    // user_reviews emits the field as userReviews.
    let item = named_struct(
        "Reviews",
        vec![plain_attr("tsync"), serde_nv(&[("rename_all", "camelCase")])],
        vec![field("user_reviews", generic_ty("Vec", vec![path_ty("String")]))],
    );
    let out = generate_output(vec![item], &dts());
    let expected = lines(&[
        "/* This file is generated and managed by tsync */",
        "",
        "interface Reviews {",
        "  userReviews: Array<string>;",
        "}",
    ]);
    assert_eq!(out.types, expected);
}

#[test]
fn test_generic() {
    let flatten_field = NamedField {
        name: s("data"),
        ty: generic_ty("Vec", vec![path_ty("T")]),
        attrs: vec![serde_bare(&["flatten"])],
    };
    let items = vec![
        named_struct(
            "Folder",
            vec![plain_attr("tsync")],
            vec![
                field("name", path_ty("String")),
                field("children", generic_ty("Paginated", vec![path_ty("Folder")])),
            ],
        ),
        generic_struct(
            "Paginated",
            &["T"],
            vec![plain_attr("tsync")],
            vec![
                field("data", generic_ty("Vec", vec![path_ty("T")])),
                field("page", path_ty("u32")),
                field("total_pages", path_ty("u32")),
            ],
        ),
        generic_struct(
            "Flatten",
            &["T"],
            vec![plain_attr("tsync")],
            vec![field("name", path_ty("String")), flatten_field],
        ),
    ];
    let out = generate_output(items, &dts());
    let expected = lines(&[
        "/* This file is generated and managed by tsync */",
        "",
        "interface Folder {",
        "  name: string;",
        "  children: Paginated<Folder>;",
        "}",
        "",
        "interface Paginated<T> {",
        "  data: Array<T>;",
        "  page: number;",
        "  total_pages: number;",
        "}",
        "",
        "type Flatten<T> = Array<T> & {",
        "  name: string;",
        "}",
    ]);
    assert_eq!(out.types, expected);
}

#[test]
fn tuple_structs_become_tuple_aliases() {
    let items = vec![
        SourceItem::Struct {
            decl: StructDecl {
                name: s("IsTuple"),
                generics: vec![],
                attrs: vec![plain_attr("tsync")],
                fields: FieldList::Unnamed {
                    fields: vec![
                        TupleField { ty: path_ty("i32"), attrs: vec![] },
                        TupleField { ty: path_ty("String"), attrs: vec![] },
                    ],
                },
            },
        },
        SourceItem::Struct {
            decl: StructDecl {
                name: s("Wrapper"),
                generics: vec![],
                attrs: vec![plain_attr("tsync")],
                fields: FieldList::Unnamed {
                    fields: vec![TupleField { ty: path_ty("String"), attrs: vec![] }],
                },
            },
        },
    ];
    let out = generate_output(items, &dts());
    let expected = lines(&[
        "/* This file is generated and managed by tsync */",
        "",
        "type IsTuple = [ number, string ]",
        "",
        "type Wrapper = string",
    ]);
    assert_eq!(out.types, expected);
}

#[test]
fn flattened_tuple_structs_are_skipped() {
    // Flattening is undefined for positional fields: the declaration is
    // dropped, only its blank line and comments remain.
    let item = SourceItem::Struct {
        decl: StructDecl {
            name: s("Impossible"),
            generics: vec![],
            attrs: vec![plain_attr("tsync")],
            fields: FieldList::Unnamed {
                fields: vec![TupleField {
                    ty: path_ty("Other"),
                    attrs: vec![serde_bare(&["flatten"])],
                }],
            },
        },
    };
    let out = generate_output(vec![item], &dts());
    assert_eq!(out.types, "/* This file is generated and managed by tsync */\n\n");
}

#[test]
fn empty_structs_render_a_closed_object() {
    let item = named_struct("RedirectCaptureConfiguration", vec![plain_attr("tsync")], vec![]);
    let out = generate_output(vec![item], &dts());
    let expected = lines(&[
        "/* This file is generated and managed by tsync */",
        "",
        "interface RedirectCaptureConfiguration {",
        "  [key: PropertyKey]: never;",
        "}",
    ]);
    assert_eq!(out.types, expected);
}

#[test]
fn flatten_builds_an_intersection() {
    // The camera-control shape: the flattened action joins the interface
    // as an intersection prefix.
    let action_field = NamedField {
        name: s("action"),
        ty: path_ty("Action"),
        attrs: vec![serde_bare(&["flatten"])],
    };
    let item = named_struct(
        "CameraControl",
        vec![derive_attr(&["Serialize", "Deserialize"]), plain_attr("tsync")],
        vec![field("camera_uuid", path_ty("String")), action_field],
    );
    let out = generate_output(vec![item], &dts());
    let expected = lines(&[
        "/* This file is generated and managed by tsync */",
        "",
        "type CameraControl = Action & {",
        "  camera_uuid: string;",
        "}",
    ]);
    assert_eq!(out.types, expected);

    // The sample types this declaration describes stay constructible.
    let settings = tsync::samples::VideoParameterSettings { frame_rate: Some(30) };
    let action = tsync::samples::Action::GetVideoParameterSettings(settings);
    let control = tsync::samples::CameraControl { camera_uuid: s("front-door"), action };
    assert_eq!(control.camera_uuid, "front-door");
}
