//! Tests of the attribute inspector and the case conversions.

use tsync::attrs::{get_attribute_arg, get_comments, has_attribute, has_attribute_arg};
use tsync::casing::{convert_to_case, parse_serde_case, CaseConvention};
use tsync::model::{Attr, AttrArgs, AttrPayload, NameValue};
use tsync::strings::{check_extension, contains_cow, strip_edges, trim_str, unraw};

fn s(x: &str) -> String {
    x.to_string()
}

fn plain_attr(name: &str) -> Attr {
    Attr { segments: vec![s(name)], payload: AttrPayload::Plain }
}

fn doc_attr(text: &str) -> Attr {
    Attr {
        segments: vec![s("doc")],
        payload: AttrPayload::NameValue { literals: vec![format!("\"{}\"", text)] },
    }
}

fn serde_nv(pairs: &[(&str, &str)]) -> Attr {
    Attr {
        segments: vec![s("serde")],
        payload: AttrPayload::List {
            args: AttrArgs::NameValues {
                pairs: pairs
                    .iter()
                    .map(|(k, v)| NameValue { name: s(k), value: format!("\"{}\"", v) })
                    .collect(),
            },
        },
    }
}

fn derive_attr(items: &[&str]) -> Attr {
    Attr {
        segments: vec![s("derive")],
        payload: AttrPayload::List {
            args: AttrArgs::Exprs { idents: items.iter().map(|x| Some(s(x))).collect() },
        },
    }
}

#[test]
fn marker_detection() {
    let attrs = vec![doc_attr("a comment"), plain_attr("tsync")];
    assert!(has_attribute("tsync", &attrs));
    assert!(!has_attribute("serde", &attrs));
    assert!(!has_attribute("tsync", &vec![]));
}

#[test]
fn last_attribute_wins() {
    // The calibration scenario: a later duplicate attribute overrides an
    // earlier one, and only the last matching attribute is consulted.
    let attrs = vec![
        serde_nv(&[("tag", "somethingelse")]),
        serde_nv(&[("renameAll", "kebab-case")]),
        serde_nv(&[("tag", "last_precedent")]),
    ];
    assert_eq!(get_attribute_arg("serde", "tag", &attrs), Some(s("last_precedent")));
    // renameAll only stands in an earlier attribute; the last one wins and
    // does not hold it.
    assert_eq!(get_attribute_arg("serde", "renameAll", &attrs), None);
}

#[test]
fn values_and_bare_arguments() {
    let attrs = vec![serde_nv(&[("rename_all", "UPPERCASE"), ("tag", "type")])];
    assert_eq!(get_attribute_arg("serde", "rename_all", &attrs), Some(s("UPPERCASE")));
    assert_eq!(get_attribute_arg("serde", "tag", &attrs), Some(s("type")));
    assert_eq!(get_attribute_arg("serde", "content", &attrs), None);

    // A bare identifier in a derive list yields its own name.
    let attrs = vec![derive_attr(&["Serialize_repr"])];
    assert_eq!(
        get_attribute_arg("derive", "Serialize_repr", &attrs),
        Some(s("Serialize_repr"))
    );
    assert!(has_attribute_arg("derive", "Serialize_repr", &attrs));
    assert!(!has_attribute_arg("derive", "Deserialize", &attrs));
}

#[test]
fn bare_list_reading_stops_at_the_first_non_path() {
    let attrs = vec![Attr {
        segments: vec![s("serde")],
        payload: AttrPayload::List {
            args: AttrArgs::Exprs { idents: vec![Some(s("default")), None, Some(s("flatten"))] },
        },
    }];
    assert!(has_attribute_arg("serde", "default", &attrs));
    // flatten stands after an entry that is not a plain path, so reading
    // never reaches it.
    assert!(!has_attribute_arg("serde", "flatten", &attrs));
}

#[test]
fn doc_comment_extraction() {
    let attrs = vec![
        doc_attr(" Name of the book."),
        plain_attr("tsync"),
        doc_attr("   padded   "),
    ];
    let comments = get_comments(&attrs);
    assert_eq!(comments, vec![s("Name of the book."), s("padded")]);
    let none: Vec<String> = get_comments(&vec![plain_attr("tsync")]);
    assert!(none.is_empty());
}

#[test]
fn rename_rule_table() {
    assert_eq!(parse_serde_case(&Some(s("lowercase"))), Some(CaseConvention::Lower));
    assert_eq!(parse_serde_case(&Some(s("UPPERCASE"))), Some(CaseConvention::Upper));
    assert_eq!(parse_serde_case(&Some(s("PascalCase"))), Some(CaseConvention::Pascal));
    assert_eq!(parse_serde_case(&Some(s("camelCase"))), Some(CaseConvention::Camel));
    assert_eq!(parse_serde_case(&Some(s("snake_case"))), Some(CaseConvention::Snake));
    assert_eq!(
        parse_serde_case(&Some(s("SCREAMING_SNAKE_CASE"))),
        Some(CaseConvention::ScreamingSnake)
    );
    assert_eq!(parse_serde_case(&Some(s("kebab-case"))), Some(CaseConvention::Kebab));
    assert_eq!(parse_serde_case(&Some(s("SCREAMING-KEBAB-CASE"))), None);
    assert_eq!(parse_serde_case(&Some(s("camelcase"))), None);
    assert_eq!(parse_serde_case(&None), None);
}

#[test]
fn case_conversions_change_their_input() {
    let name = "user_reviews";
    assert_eq!(convert_to_case(name, &Some(CaseConvention::Camel)), "userReviews");
    assert_eq!(convert_to_case(name, &Some(CaseConvention::Pascal)), "UserReviews");
    assert_eq!(convert_to_case(name, &Some(CaseConvention::Upper)), "USER REVIEWS");
    assert_eq!(convert_to_case(name, &Some(CaseConvention::Kebab)), "user-reviews");
    assert_eq!(
        convert_to_case(name, &Some(CaseConvention::ScreamingSnake)),
        "USER_REVIEWS"
    );
    assert_eq!(convert_to_case("UserReviews", &Some(CaseConvention::Snake)), "user_reviews");
    assert_eq!(convert_to_case("UserReviews", &Some(CaseConvention::Lower)), "user reviews");
    assert_eq!(convert_to_case("UserReviews", &None), "UserReviews");
}

#[test]
fn string_utilities() {
    assert_eq!(unraw("r#type"), "type");
    assert_eq!(unraw("normal"), "normal");
    assert_eq!(unraw("r#"), "");
    assert_eq!(trim_str("  both ends \t"), "both ends");
    assert_eq!(trim_str(""), "");
    assert_eq!(strip_edges("\"quoted\""), "quoted");
    assert_eq!(strip_edges("x"), "x");
    assert!(contains_cow("Cow"));
    assert!(contains_cow("MyCowType"));
    assert!(!contains_cow("Vec"));
    assert!(!contains_cow("cow"));
    assert!(check_extension("rs"));
    assert!(check_extension("RS"));
    assert!(check_extension("Rs"));
    assert!(!check_extension("rsx"));
    assert!(!check_extension("ts"));
    assert_eq!(tsync::build_indentation(4), "    ");
    assert_eq!(tsync::build_indentation(0), "");
    assert_eq!(tsync::build_indentation(-2), "");
}
