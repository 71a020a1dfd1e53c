//! The attribute inspector: marker detection, named-argument lookup with
//! last-attribute-wins precedence, and doc-comment extraction.

use vstd::prelude::*;
use crate::model::{Attr, AttrArgs, AttrPayload, NameValue};
use crate::strings::{spec_strip_edges, spec_trim, str_eq, strip_edges, trim_str};

verus! {

/// True iff any segment of the attribute's path equals `needle`.
pub open spec fn attr_path_matches(a: Attr, needle: Seq<char>) -> bool {
    exists|i: int| 0 <= i < a.segments@.len() && #[trigger] a.segments@[i]@ == needle
}

fn attr_matches(a: &Attr, needle: &str) -> (r: bool)
    ensures
        r == attr_path_matches(*a, needle@),
{
    let n = a.segments.len();
    let mut i: usize = 0;
    while i < n
        invariant
            0 <= i <= n,
            n == a.segments@.len(),
            forall|j: int| 0 <= j < i ==> #[trigger] a.segments@[j]@ != needle@,
        decreases n - i,
    {
        if str_eq(a.segments[i].as_str(), needle) {
            return true;
        }
        i = i + 1;
    }
    false
}

/// True iff some attribute's path mentions `needle`.
pub open spec fn spec_has_attribute(attrs: Seq<Attr>, needle: Seq<char>) -> bool {
    exists|i: int| 0 <= i < attrs.len() && attr_path_matches(#[trigger] attrs[i], needle)
}

/// Answers whether any attribute's path mentions `needle`.
pub fn has_attribute(needle: &str, attributes: &Vec<Attr>) -> (r: bool)
    ensures
        r == spec_has_attribute(attributes@, needle@),
{
    let n = attributes.len();
    let mut i: usize = 0;
    while i < n
        invariant
            0 <= i <= n,
            n == attributes@.len(),
            forall|j: int| 0 <= j < i ==> !attr_path_matches(#[trigger] attributes@[j], needle@),
        decreases n - i,
    {
        if attr_matches(&attributes[i], needle) {
            return true;
        }
        i = i + 1;
    }
    false
}

/// The last attribute whose path mentions `needle`: when one attribute
/// repeats, the later one wins.
pub open spec fn spec_get_attribute(attrs: Seq<Attr>, needle: Seq<char>) -> Option<Attr>
    decreases attrs.len(),
{
    if attrs.len() == 0 {
        None
    } else if attr_path_matches(attrs.last(), needle) {
        Some(attrs.last())
    } else {
        spec_get_attribute(attrs.drop_last(), needle)
    }
}

/// Finds the attribute matching `needle`, searching from the last
/// attribute backwards.
pub fn get_attribute<'a>(needle: &str, attributes: &'a Vec<Attr>) -> (r: Option<&'a Attr>)
    ensures
        match r {
            Some(a) => spec_get_attribute(attributes@, needle@) == Some(*a),
            None => spec_get_attribute(attributes@, needle@) is None,
        },
{
    let n = attributes.len();
    proof {
        assert(attributes@.take(n as int) =~= attributes@);
    }
    let mut i: usize = n;
    while i > 0
        invariant
            0 <= i <= n,
            n == attributes@.len(),
            spec_get_attribute(attributes@, needle@) == spec_get_attribute(
                attributes@.take(i as int),
                needle@,
            ),
        decreases i,
    {
        proof {
            assert(attributes@.take(i as int).drop_last() =~= attributes@.take(i - 1));
            assert(attributes@.take(i as int).last() == attributes@[i - 1]);
        }
        if attr_matches(&attributes[i - 1], needle) {
            return Some(&attributes[i - 1]);
        }
        i = i - 1;
    }
    proof {
        assert(attributes@.take(0) =~= Seq::<Attr>::empty());
    }
    None
}

/// The value of the first `name = value` pair whose name equals `key`,
/// with the value's delimiting quote characters removed.
pub open spec fn spec_nv_lookup(pairs: Seq<NameValue>, key: Seq<char>) -> Option<Seq<char>>
    decreases pairs.len(),
{
    if pairs.len() == 0 {
        None
    } else if pairs.first().name@ == key {
        Some(spec_strip_edges(pairs.first().value@))
    } else {
        spec_nv_lookup(pairs.drop_first(), key)
    }
}

/// True iff a bare-expression list names `key`; entries are read in order
/// and reading stops at the first entry that is not a plain path.
pub open spec fn spec_exprs_contain(idents: Seq<Option<String>>, key: Seq<char>) -> bool
    decreases idents.len(),
{
    if idents.len() == 0 {
        false
    } else {
        match idents.first() {
            Some(id) => id@ == key || spec_exprs_contain(idents.drop_first(), key),
            None => false,
        }
    }
}

/// What an attribute's argument list yields for `key`: the associated
/// value for a `name = value` list, or the key itself for a bare list
/// that names it.
pub open spec fn spec_arg_lookup(args: AttrArgs, key: Seq<char>) -> Option<Seq<char>> {
    match args {
        AttrArgs::NameValues { pairs } => spec_nv_lookup(pairs@, key),
        AttrArgs::Exprs { idents } => if spec_exprs_contain(idents@, key) {
            Some(key)
        } else {
            None
        },
        AttrArgs::Unparsed => None,
    }
}

/// What one attribute yields for `key`: only a parenthesized list can
/// yield anything.
pub open spec fn spec_payload_lookup(p: AttrPayload, key: Seq<char>) -> Option<Seq<char>> {
    match p {
        AttrPayload::List { args } => spec_arg_lookup(args, key),
        _ => None,
    }
}

fn nv_lookup(pairs: &Vec<NameValue>, key: &str) -> (r: Option<String>)
    ensures
        match r {
            Some(v) => spec_nv_lookup(pairs@, key@) == Some(v@),
            None => spec_nv_lookup(pairs@, key@) is None,
        },
{
    let n = pairs.len();
    proof {
        assert(pairs@.skip(0) =~= pairs@);
    }
    let mut i: usize = 0;
    while i < n
        invariant
            0 <= i <= n,
            n == pairs@.len(),
            spec_nv_lookup(pairs@, key@) == spec_nv_lookup(pairs@.skip(i as int), key@),
        decreases n - i,
    {
        proof {
            assert(pairs@.skip(i as int).first() == pairs@[i as int]);
            assert(pairs@.skip(i as int).drop_first() =~= pairs@.skip(i + 1));
        }
        if str_eq(pairs[i].name.as_str(), key) {
            return Some(strip_edges(pairs[i].value.as_str()));
        }
        i = i + 1;
    }
    proof {
        assert(pairs@.skip(n as int) =~= Seq::<NameValue>::empty());
    }
    None
}

fn exprs_contain(idents: &Vec<Option<String>>, key: &str) -> (r: bool)
    ensures
        r == spec_exprs_contain(idents@, key@),
{
    let n = idents.len();
    proof {
        assert(idents@.skip(0) =~= idents@);
    }
    let mut i: usize = 0;
    while i < n
        invariant
            0 <= i <= n,
            n == idents@.len(),
            spec_exprs_contain(idents@, key@) == spec_exprs_contain(
                idents@.skip(i as int),
                key@,
            ),
        decreases n - i,
    {
        proof {
            assert(idents@.skip(i as int).first() == idents@[i as int]);
            assert(idents@.skip(i as int).drop_first() =~= idents@.skip(i + 1));
        }
        match &idents[i] {
            Some(id) => {
                if str_eq(id.as_str(), key) {
                    return true;
                }
            },
            None => {
                return false;
            },
        }
        i = i + 1;
    }
    proof {
        assert(idents@.skip(n as int) =~= Seq::<Option<String>>::empty());
    }
    false
}

/// The value matching an attribute and argument combination: the last
/// attribute whose path mentions `needle` is inspected, and yields the
/// value paired with `arg`, or `arg` itself when it stands bare in the
/// list.
pub open spec fn spec_get_attribute_arg(
    attrs: Seq<Attr>,
    needle: Seq<char>,
    arg: Seq<char>,
) -> Option<Seq<char>> {
    match spec_get_attribute(attrs, needle) {
        Some(a) => spec_payload_lookup(a.payload, arg),
        None => None,
    }
}

/// Gets the value matching an attribute and argument combination.
pub fn get_attribute_arg(needle: &str, arg: &str, attributes: &Vec<Attr>) -> (r: Option<String>)
    ensures
        match r {
            Some(v) => spec_get_attribute_arg(attributes@, needle@, arg@) == Some(v@),
            None => spec_get_attribute_arg(attributes@, needle@, arg@) is None,
        },
{
    match get_attribute(needle, attributes) {
        None => None,
        Some(a) => match &a.payload {
            AttrPayload::List { args } => match args {
                AttrArgs::NameValues { pairs } => nv_lookup(pairs, arg),
                AttrArgs::Exprs { idents } => {
                    if exprs_contain(idents, arg) {
                        Some(arg.to_owned())
                    } else {
                        None
                    }
                },
                AttrArgs::Unparsed => None,
            },
            _ => None,
        },
    }
}

/// Answers whether the attribute and argument combination is present.
pub fn has_attribute_arg(needle: &str, arg: &str, attributes: &Vec<Attr>) -> (r: bool)
    ensures
        r == (spec_get_attribute_arg(attributes@, needle@, arg@) is Some),
{
    get_attribute_arg(needle, arg, attributes).is_some()
}

/// The comment lines one attribute contributes: a doc attribute yields
/// each literal of its value, quotes removed and whitespace trimmed.
pub open spec fn spec_doc_literals(a: Attr) -> Seq<Seq<char>> {
    if attr_path_matches(a, "doc"@) {
        match a.payload {
            AttrPayload::NameValue { literals } => literals@.map_values(
                |l: String| spec_trim(spec_strip_edges(l@)),
            ),
            _ => Seq::empty(),
        }
    } else {
        Seq::empty()
    }
}

/// The doc-comment lines of an attribute list, in declaration order.
pub open spec fn spec_get_comments(attrs: Seq<Attr>) -> Seq<Seq<char>>
    decreases attrs.len(),
{
    if attrs.len() == 0 {
        Seq::empty()
    } else {
        spec_get_comments(attrs.drop_last()) + spec_doc_literals(attrs.last())
    }
}

/// Extracts the doc-comment text of an attribute list, in order.
pub fn get_comments(attributes: &Vec<Attr>) -> (r: Vec<String>)
    ensures
        r.deep_view() == spec_get_comments(attributes@),
{
    let n = attributes.len();
    let mut out: Vec<String> = Vec::new();
    proof {
        assert(attributes@.take(0) =~= Seq::<Attr>::empty());
        assert(out.deep_view() =~~= spec_get_comments(attributes@.take(0)));
    }
    let mut i: usize = 0;
    while i < n
        invariant
            0 <= i <= n,
            n == attributes@.len(),
            out.deep_view() == spec_get_comments(attributes@.take(i as int)),
        decreases n - i,
    {
        proof {
            assert(attributes@.take(i + 1).drop_last() =~= attributes@.take(i as int));
            assert(attributes@.take(i + 1).last() == attributes@[i as int]);
        }
        let a = &attributes[i];
        if attr_matches(a, "doc") {
            match &a.payload {
                AttrPayload::NameValue { literals } => {
                    let m = literals.len();
                    let mut j: usize = 0;
                    while j < m
                        invariant
                            0 <= j <= m,
                            m == literals@.len(),
                            attr_path_matches(*a, "doc"@),
                            a.payload == (AttrPayload::NameValue { literals: *literals }),
                            out.deep_view() == spec_get_comments(attributes@.take(i as int))
                                + literals@.map_values(
                                |l: String| spec_trim(spec_strip_edges(l@)),
                            ).take(j as int),
                        decreases m - j,
                    {
                        let ghost dv0 = out.deep_view();
                        let ghost v0 = out@;
                        let lit = strip_edges(literals[j].as_str());
                        let line = trim_str(lit.as_str());
                        out.push(line);
                        proof {
                            let mapped = literals@.map_values(
                                |l: String| spec_trim(spec_strip_edges(l@)),
                            );
                            assert(mapped.take(j + 1) =~= mapped.take(j as int).push(
                                mapped[j as int],
                            ));
                            assert(line@ == mapped[j as int]);
                            assert(out@ == v0.push(line));
                            assert forall|k: int| 0 <= k < v0.len() implies #[trigger] out@[k]
                                == v0[k] by {}
                            assert(out.deep_view() =~~= dv0.push(line@));
                            assert(out.deep_view() =~~= spec_get_comments(
                                attributes@.take(i as int),
                            ) + mapped.take(j + 1));
                        }
                        j = j + 1;
                    }
                    proof {
                        let mapped = literals@.map_values(
                            |l: String| spec_trim(spec_strip_edges(l@)),
                        );
                        assert(mapped.take(m as int) =~= mapped);
                        assert(spec_doc_literals(attributes@[i as int]) == mapped);
                        assert(out.deep_view() =~~= spec_get_comments(attributes@.take(i + 1)));
                    }
                },
                _ => {
                    proof {
                        assert(spec_doc_literals(attributes@[i as int]) =~= Seq::<Seq<char>>::empty());
                        assert(out.deep_view() =~~= spec_get_comments(attributes@.take(i + 1)));
                    }
                },
            }
        } else {
            proof {
                assert(spec_doc_literals(attributes@[i as int]) =~= Seq::<Seq<char>>::empty());
                assert(out.deep_view() =~~= spec_get_comments(attributes@.take(i + 1)));
            }
        }
        i = i + 1;
    }
    proof {
        assert(attributes@.take(n as int) =~= attributes@);
    }
    out
}

} // verus!
