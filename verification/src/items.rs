//! The driver over parsed declarations: only items carrying the marker
//! attribute are translated, in encounter order.

use vstd::prelude::*;
use crate::attrs::{has_attribute, spec_has_attribute};
use crate::model::Attr;
use crate::emit_enums::enum_text;
use crate::emit_rest::{const_text, type_alias_text};
use crate::emit_structs::struct_text;
use crate::model::{BuildSettings, SourceItem};
use crate::output::{header_text, BuildState};
use crate::to_typescript::ToTypescript;

verus! {

/// Answers whether a declaration carries the marker attribute that opts
/// it into translation.
pub fn has_tsync_attribute(attributes: &Vec<Attr>) -> (r: bool)
    ensures
        r == spec_has_attribute(attributes@, "tsync"@),
{
    has_attribute("tsync", attributes)
}

/// The text one source item contributes: nothing unless it carries the
/// marker attribute.
pub open spec fn item_text(it: SourceItem, s: BuildSettings) -> Seq<char> {
    match it {
        SourceItem::Struct { decl } => if spec_has_attribute(decl.attrs@, "tsync"@) {
            struct_text(decl, s)
        } else {
            Seq::empty()
        },
        SourceItem::Enum { decl } => if spec_has_attribute(decl.attrs@, "tsync"@) {
            enum_text(decl, s)
        } else {
            Seq::empty()
        },
        SourceItem::TypeAlias { decl } => if spec_has_attribute(decl.attrs@, "tsync"@) {
            type_alias_text(decl, s)
        } else {
            Seq::empty()
        },
        SourceItem::Const { decl } => if spec_has_attribute(decl.attrs@, "tsync"@) {
            const_text(decl, s)
        } else {
            Seq::empty()
        },
        SourceItem::Other => Seq::empty(),
    }
}

/// The text a sequence of source items contributes, in order.
pub open spec fn items_text(items: Seq<SourceItem>, s: BuildSettings) -> Seq<char>
    decreases items.len(),
{
    if items.len() == 0 {
        Seq::empty()
    } else {
        items_text(items.drop_last(), s) + item_text(items.last(), s)
    }
}

/// The whole output for one run over a stream of declarations: the marker
/// line, then each marked declaration's translation in encounter order.
pub open spec fn generated_output(items: Seq<SourceItem>, s: BuildSettings) -> Seq<char> {
    header_text() + items_text(items, s)
}

/// Translates one source item, when it carries the marker attribute.
pub fn process_source_item(item: SourceItem, state: &mut BuildState, settings: &BuildSettings)
    ensures
        final(state).types@ == old(state).types@ + item_text(item, *settings),
        final(state).unprocessed_files == old(state).unprocessed_files,
{
    match item {
        SourceItem::Struct { decl } => {
            if has_tsync_attribute(&decl.attrs) {
                decl.convert_to_ts(state, settings);
            }
        },
        SourceItem::Enum { decl } => {
            if has_tsync_attribute(&decl.attrs) {
                decl.convert_to_ts(state, settings);
            }
        },
        SourceItem::TypeAlias { decl } => {
            if has_tsync_attribute(&decl.attrs) {
                decl.convert_to_ts(state, settings);
            }
        },
        SourceItem::Const { decl } => {
            if has_tsync_attribute(&decl.attrs) {
                decl.convert_to_ts(state, settings);
            }
        },
        SourceItem::Other => {},
    }
}

/// Translates a stream of source items in order.
pub fn process_source_items(items: Vec<SourceItem>, state: &mut BuildState, settings: &BuildSettings)
    ensures
        final(state).types@ == old(state).types@ + items_text(items@, *settings),
        final(state).unprocessed_files == old(state).unprocessed_files,
{
    let ghost items0 = items@;
    let ghost base = state.types@;
    let mut rest = items;
    let ghost mut i: int = 0;
    proof {
        assert(items0.take(0) =~= Seq::<SourceItem>::empty());
        assert(rest@ =~= items0.skip(0));
        assert(state.types@ =~= base + items_text(items0.take(0), *settings));
    }
    while rest.len() > 0
        invariant
            0 <= i <= items0.len(),
            rest@ == items0.skip(i),
            state.types@ == base + items_text(items0.take(i), *settings),
            state.unprocessed_files == old(state).unprocessed_files,
        decreases rest@.len(),
    {
        let item = rest.remove(0);
        proof {
            assert(items0.skip(i)[0] == items0[i]);
            assert(item == items0[i]);
            assert(rest@ =~= items0.skip(i + 1));
        }
        process_source_item(item, state, settings);
        proof {
            assert(items0.take(i + 1).drop_last() =~= items0.take(i));
            assert(items0.take(i + 1).last() == items0[i]);
            assert(state.types@ =~= base + items_text(items0.take(i + 1), *settings));
            i = i + 1;
        }
    }
    proof {
        assert(items0.take(items0.len() as int) =~= items0);
    }
}

/// Runs one whole generation: a fresh buffer, the marker line, then the
/// declarations.
pub fn generate_output(items: Vec<SourceItem>, settings: &BuildSettings) -> (r: BuildState)
    ensures
        r.types@ == generated_output(items@, *settings),
        r.unprocessed_files@ == Seq::<String>::empty(),
{
    let ghost items0 = items@;
    let mut state = BuildState::new();
    state.push_header();
    process_source_items(items, &mut state, settings);
    proof {
        assert(state.types@ =~= generated_output(items0, *settings));
    }
    state
}

} // verus!
