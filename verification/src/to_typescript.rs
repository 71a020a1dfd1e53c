//! The translation interface: every declaration kind that can appear in
//! the output implements it, stating exactly what text it appends.

use vstd::prelude::*;
use crate::model::BuildSettings;
use crate::output::BuildState;

verus! {

/// One declaration's translation.  `ts_fragment` is the exact text the
/// declaration contributes, and `convert_to_ts` appends it.
pub trait ToTypescript: Sized {
    /// The text this declaration appends under the given settings.
    spec fn ts_fragment(self, settings: BuildSettings) -> Seq<char>;

    /// Appends this declaration's translation to the output buffer.
    fn convert_to_ts(self, state: &mut BuildState, settings: &BuildSettings)
        ensures
            final(state).types@ == old(state).types@ + self.ts_fragment(*settings),
            final(state).unprocessed_files == old(state).unprocessed_files,
    ;
}

} // verus!
