//! The type alias and constant emitters.

use vstd::prelude::*;
use crate::attrs::{get_comments, spec_get_comments};
use crate::emit::{append_export, export_kw};
use crate::model::{BuildSettings, ConstDecl, ConstExpr, TypeAliasDecl};
use crate::output::{comments_block, BuildState};
use crate::strings::{spec_unraw, str_eq, unraw};
use crate::to_typescript::ToTypescript;
use crate::typescript::{convert_type, map_type};

verus! {

/// The full fragment of a type alias: a blank line, its comments, and an
/// alias of its mapped type.
pub open spec fn type_alias_text(d: TypeAliasDecl, s: BuildSettings) -> Seq<char> {
    "\n"@ + comments_block(spec_get_comments(d.attrs@), 0) + export_kw(s.uses_type_interface)
        + "type "@ + spec_unraw(d.name@) + " = "@ + map_type(d.ty).text + "\n"@
}

impl ToTypescript for TypeAliasDecl {
    open spec fn ts_fragment(self, settings: BuildSettings) -> Seq<char> {
        type_alias_text(self, settings)
    }

    fn convert_to_ts(self, state: &mut BuildState, settings: &BuildSettings) {
        let ghost this = self;
        state.types.append("\n");
        let name = unraw(self.name.as_str());
        let ty = convert_type(&self.ty);
        let comments = get_comments(&self.attrs);
        state.write_comments(&comments, 0);
        append_export(state, settings.uses_type_interface);
        state.types.append("type ");
        state.types.append(name.as_str());
        state.types.append(" = ");
        state.types.append(ty.ts_type.as_str());
        state.types.append("\n");
        proof {
            assert(state.types@ =~= old(state).types@ + type_alias_text(this, *settings));
        }
    }
}

/// True iff any segment of the macro path is the JSON-literal macro name.
pub open spec fn is_json_macro(segments: Seq<String>) -> bool {
    exists|i: int| 0 <= i < segments.len() && #[trigger] segments[i]@ == "json"@
}

/// The emitted body of a constant: a literal token verbatim, the raw
/// argument tokens of a recognized JSON-literal macro, and nothing
/// otherwise.
pub open spec fn const_body(e: ConstExpr) -> Option<Seq<char>> {
    match e {
        ConstExpr::Literal { text } => Some(text@),
        ConstExpr::MacroCall { segments, tokens } => if is_json_macro(segments@) {
            Some(tokens@)
        } else {
            None
        },
        ConstExpr::Other => None,
    }
}

/// The full fragment of a constant: nothing in ambient declaration mode
/// or for unsupported expressions; otherwise a blank line, its comments,
/// and an exported constant binding.
pub open spec fn const_text(d: ConstDecl, s: BuildSettings) -> Seq<char> {
    if s.uses_type_interface {
        Seq::empty()
    } else {
        match const_body(d.expr) {
            Some(body) => "\n"@ + comments_block(spec_get_comments(d.attrs@), 0)
                + "export const "@ + d.name@ + " = "@ + body + ";"@ + "\n"@,
            None => Seq::empty(),
        }
    }
}

fn segments_name_json(segments: &Vec<String>) -> (r: bool)
    ensures
        r == is_json_macro(segments@),
{
    let n = segments.len();
    let mut i: usize = 0;
    while i < n
        invariant
            0 <= i <= n,
            n == segments@.len(),
            forall|j: int| 0 <= j < i ==> #[trigger] segments@[j]@ != "json"@,
        decreases n - i,
    {
        if str_eq(segments[i].as_str(), "json") {
            return true;
        }
        i = i + 1;
    }
    false
}

impl ToTypescript for ConstDecl {
    open spec fn ts_fragment(self, settings: BuildSettings) -> Seq<char> {
        const_text(self, settings)
    }

    fn convert_to_ts(self, state: &mut BuildState, settings: &BuildSettings) {
        let ghost this = self;
        // Constants are only written in module mode.
        if settings.uses_type_interface {
            return;
        }
        let body: Option<&String> = match &self.expr {
            ConstExpr::Literal { text } => Some(text),
            ConstExpr::MacroCall { segments, tokens } => {
                if segments_name_json(segments) {
                    Some(tokens)
                } else {
                    None
                }
            },
            ConstExpr::Other => None,
        };
        proof {
            match body {
                Some(b) => {
                    assert(const_body(this.expr) == Some(b@));
                },
                None => {
                    assert(const_body(this.expr) is None);
                },
            }
        }
        match body {
            Some(b) => {
                state.types.append("\n");
                let comments = get_comments(&self.attrs);
                state.write_comments(&comments, 0);
                state.types.append("export const ");
                state.types.append(self.name.as_str());
                state.types.append(" = ");
                state.types.append(b.as_str());
                state.types.append(";");
                state.types.append("\n");
                proof {
                    assert(state.types@ =~= old(state).types@ + const_text(this, *settings));
                }
            },
            None => {
                // Unsupported constant expressions are skipped.
            },
        }
    }
}

} // verus!
