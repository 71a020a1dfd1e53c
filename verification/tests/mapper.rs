//! Tests of the type mapper: the primitive table, the container rules and
//! the pass-through of nominal references.

use tsync::model::{GenericArg, PathArgs, TypeExpr};
use tsync::numbers::{i32_to_string, parse_i32};
use tsync::typescript::convert_type;

fn s(x: &str) -> String {
    x.to_string()
}

fn path_ty(name: &str) -> TypeExpr {
    TypeExpr::Path { ident: s(name), args: PathArgs::NoArgs }
}

fn generic_ty(name: &str, args: Vec<TypeExpr>) -> TypeExpr {
    TypeExpr::Path {
        ident: s(name),
        args: PathArgs::Angle {
            args: args.into_iter().map(|t| GenericArg::Ty { ty: t }).collect(),
        },
    }
}

#[test]
fn primitive_table_round_trip() {
    let number = [
        "i8", "u8", "i16", "u16", "i32", "u32", "i64", "u64", "i128", "u128", "isize", "usize",
        "f32", "f64",
    ];
    for name in number {
        let t = convert_type(&path_ty(name));
        assert_eq!(t.ts_type, "number");
        assert!(!t.is_optional);
    }
    for name in ["char", "str", "String", "Uuid"] {
        let t = convert_type(&path_ty(name));
        assert_eq!(t.ts_type, "string");
        assert!(!t.is_optional);
    }
    let t = convert_type(&path_ty("bool"));
    assert_eq!(t.ts_type, "boolean");
    assert!(!t.is_optional);
    for name in ["NaiveDateTime", "DateTime"] {
        let t = convert_type(&path_ty(name));
        assert_eq!(t.ts_type, "Date");
        assert!(!t.is_optional);
    }
}

#[test]
fn optional_flattening_in_arrays() {
    // Array<Option<T>> renders the element widened with undefined, and the
    // array itself is not optional.
    let inner = generic_ty("Option", vec![path_ty("String")]);
    let arr = generic_ty("Vec", vec![inner]);
    let t = convert_type(&arr);
    assert_eq!(t.ts_type, "Array<string | undefined>");
    assert!(!t.is_optional);
}

#[test]
fn option_is_optional_at_the_outer_level_only() {
    let t = convert_type(&generic_ty("Option", vec![path_ty("u32")]));
    assert!(t.is_optional);
    assert_eq!(t.ts_type, "number");

    // An Option nested under a map value is flattened, not propagated.
    let m = generic_ty(
        "HashMap",
        vec![path_ty("String"), generic_ty("Option", vec![path_ty("usize")])],
    );
    let t = convert_type(&m);
    assert!(!t.is_optional);
    assert_eq!(t.ts_type, "Record<string, number | undefined>");
}

#[test]
fn references_are_transparent() {
    let t = convert_type(&TypeExpr::Ref { inner: Box::new(path_ty("str")) });
    assert_eq!(t.ts_type, "string");
    assert!(!t.is_optional);
    let t = convert_type(&TypeExpr::Ref {
        inner: Box::new(generic_ty("Option", vec![path_ty("bool")])),
    });
    assert!(t.is_optional);
    assert_eq!(t.ts_type, "boolean");
}

#[test]
fn tuples_render_fixed_length() {
    let t = convert_type(&TypeExpr::Tuple { elems: vec![path_ty("String"), path_ty("i32")] });
    assert_eq!(t.ts_type, "[string, number]");
    assert!(!t.is_optional);

    // An optional element inside a tuple is widened in place.
    let t = convert_type(&TypeExpr::Tuple {
        elems: vec![generic_ty("Option", vec![path_ty("String")]), path_ty("i32")],
    });
    assert_eq!(t.ts_type, "[string | undefined, number]");

    // Nested tuples recurse.
    let t = convert_type(&TypeExpr::Tuple {
        elems: vec![
            path_ty("i32"),
            path_ty("String"),
            TypeExpr::Tuple { elems: vec![path_ty("String"), TypeExpr::Tuple {
                elems: vec![path_ty("i32"), path_ty("i32")],
            }] },
        ],
    });
    assert_eq!(t.ts_type, "[number, string, [string, [number, number]]]");
}

#[test]
fn custom_types_pass_through_with_generics() {
    let t = convert_type(&path_ty("Chapter"));
    assert_eq!(t.ts_type, "Chapter");
    let t = convert_type(&generic_ty("Paginated", vec![path_ty("Folder")]));
    assert_eq!(t.ts_type, "Paginated<Folder>");
    let t = convert_type(&generic_ty("Either", vec![path_ty("i8"), path_ty("String")]));
    assert_eq!(t.ts_type, "Either<number, string>");
}

#[test]
fn cow_maps_to_its_second_argument_or_string() {
    // Cow<'a, str>: the lifetime is not a type argument.
    let cow = TypeExpr::Path {
        ident: s("Cow"),
        args: PathArgs::Angle {
            args: vec![GenericArg::NotType, GenericArg::Ty { ty: path_ty("str") }],
        },
    };
    let t = convert_type(&cow);
    assert_eq!(t.ts_type, "string");
    assert!(!t.is_optional);

    // A bare Cow defaults to the string type, by substring match.
    let t = convert_type(&path_ty("Cow"));
    assert_eq!(t.ts_type, "string");
    let t = convert_type(&path_ty("MyCowType"));
    assert_eq!(t.ts_type, "string");
}

#[test]
fn unsupported_constructs_degrade_to_unknown() {
    let t = convert_type(&TypeExpr::Opaque);
    assert_eq!(t.ts_type, "unknown");
    assert!(!t.is_optional);

    // A parenthesized argument list is not supported.
    let t = convert_type(&TypeExpr::Path { ident: s("Fn"), args: PathArgs::Paren });
    assert_eq!(t.ts_type, "unknown");

    // Option with a parenthesized argument form falls back to unknown but
    // stays optional.
    let t = convert_type(&TypeExpr::Path { ident: s("Option"), args: PathArgs::Paren });
    assert_eq!(t.ts_type, "unknown");
    assert!(t.is_optional);
}

#[test]
fn numeric_parsing_of_discriminant_tokens() {
    assert_eq!(parse_i32("123"), Some(123));
    assert_eq!(parse_i32("0"), Some(0));
    assert_eq!(parse_i32("-17"), Some(-17));
    assert_eq!(parse_i32("+42"), Some(42));
    assert_eq!(parse_i32("2147483647"), Some(2147483647));
    assert_eq!(parse_i32("2147483648"), None);
    assert_eq!(parse_i32("-2147483648"), Some(-2147483648));
    assert_eq!(parse_i32("-2147483649"), None);
    assert_eq!(parse_i32("0007"), Some(7));
    assert_eq!(parse_i32(""), None);
    assert_eq!(parse_i32("-"), None);
    assert_eq!(parse_i32("12a"), None);
    assert_eq!(parse_i32("- 1"), None);
    assert_eq!(parse_i32("1_000"), None);
}

#[test]
fn decimal_rendering() {
    assert_eq!(i32_to_string(0), "0");
    assert_eq!(i32_to_string(124), "124");
    assert_eq!(i32_to_string(-1), "-1");
    assert_eq!(i32_to_string(i32::MAX), "2147483647");
    assert_eq!(i32_to_string(i32::MIN), "-2147483648");
}
