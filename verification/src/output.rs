//! The output buffer: an append-only string owned by the driver, the list
//! of inputs that could not be processed, the leading marker line, and the
//! guard that protects hand-maintained files from being overwritten.

use vstd::prelude::*;
use crate::strings::{spaces, spec_trim, str_eq, trim_str, build_indentation};

verus! {

/// The marker that opens every generated file.
pub open spec fn marker_line() -> Seq<char> {
    "/* This file is generated and managed by tsync */"@
}

/// The first line of the output: the marker and its newline.
pub open spec fn header_text() -> Seq<char> {
    marker_line() + "\n"@
}

/// A doc-comment block: nothing for no comments, a one-line block for a
/// single comment, and a multi-line block otherwise.
pub open spec fn comments_block(cs: Seq<Seq<char>>, indent: int) -> Seq<char> {
    if cs.len() == 0 {
        Seq::empty()
    } else if cs.len() == 1 {
        spaces(indent) + "/** "@ + cs[0] + " */\n"@
    } else {
        spaces(indent) + "/**\n"@ + comment_lines(cs, indent) + spaces(indent) + " */\n"@
    }
}

/// The inner lines of a multi-line comment block, one per comment.
pub open spec fn comment_lines(cs: Seq<Seq<char>>, indent: int) -> Seq<char>
    decreases cs.len(),
{
    if cs.len() == 0 {
        Seq::empty()
    } else {
        comment_lines(cs.drop_last(), indent) + spaces(indent) + " * "@ + cs.last() + "\n"@
    }
}

/// The state a run accumulates: the generated text, and the input paths
/// that could not be read or parsed.
pub struct BuildState {
    pub types: String,
    pub unprocessed_files: Vec<String>,
}

impl BuildState {
    /// A fresh state: empty text, nothing unprocessed.
    pub fn new() -> (r: BuildState)
        ensures
            r.types@ == Seq::<char>::empty(),
            r.unprocessed_files@ == Seq::<String>::empty(),
    {
        BuildState { types: String::new(), unprocessed_files: Vec::new() }
    }

    /// Appends the marker line that opens every generated file.
    pub fn push_header(&mut self)
        ensures
            final(self).types@ == old(self).types@ + header_text(),
            final(self).unprocessed_files == old(self).unprocessed_files,
    {
        self.types.append("/* This file is generated and managed by tsync */");
        self.types.append("\n");
    }

    /// Appends a doc-comment block at the given indentation.
    pub fn write_comments(&mut self, comments: &Vec<String>, indentation_amount: i8)
        ensures
            final(self).types@ == old(self).types@ + comments_block(
                comments.deep_view(),
                indentation_amount as int,
            ),
            final(self).unprocessed_files == old(self).unprocessed_files,
    {
        let indentation = build_indentation(indentation_amount);
        let n = comments.len();
        if n == 0 {
        } else if n == 1 {
            self.types.append(indentation.as_str());
            self.types.append("/** ");
            self.types.append(comments[0].as_str());
            self.types.append(" */\n");
            proof {
                assert(comments.deep_view()[0] == comments@[0]@);
                assert(self.types@ =~= old(self).types@ + comments_block(
                    comments.deep_view(),
                    indentation_amount as int,
                ));
            }
        } else {
            self.types.append(indentation.as_str());
            self.types.append("/**\n");
            let ghost base = self.types@;
            let mut i: usize = 0;
            proof {
                assert(comment_lines(comments.deep_view().take(0), indentation_amount as int)
                    =~= Seq::<char>::empty());
                assert(self.types@ =~= base + comment_lines(
                    comments.deep_view().take(0),
                    indentation_amount as int,
                ));
            }
            while i < n
                invariant
                    0 <= i <= n,
                    n == comments@.len(),
                    comments.deep_view().len() == n,
                    indentation@ == spaces(indentation_amount as int),
                    self.types@ == base + comment_lines(
                        comments.deep_view().take(i as int),
                        indentation_amount as int,
                    ),
                    self.unprocessed_files == old(self).unprocessed_files,
                decreases n - i,
            {
                self.types.append(indentation.as_str());
                self.types.append(" * ");
                self.types.append(comments[i].as_str());
                self.types.append("\n");
                proof {
                    let dv = comments.deep_view();
                    assert(dv[i as int] == comments@[i as int]@);
                    assert(dv.take(i + 1).drop_last() =~= dv.take(i as int));
                    assert(dv.take(i + 1).last() == dv[i as int]);
                    assert(self.types@ =~= base + comment_lines(
                        dv.take(i + 1),
                        indentation_amount as int,
                    ));
                }
                i = i + 1;
            }
            self.types.append(indentation.as_str());
            self.types.append(" */\n");
            proof {
                let dv = comments.deep_view();
                assert(dv.take(n as int) =~= dv);
                assert(self.types@ =~= old(self).types@ + comments_block(
                    dv,
                    indentation_amount as int,
                ));
            }
        }
    }

    /// Records an input path that could not be processed.
    pub fn record_unprocessed(&mut self, path: String)
        ensures
            final(self).unprocessed_files@ == old(self).unprocessed_files@.push(path),
            final(self).types == old(self).types,
    {
        self.unprocessed_files.push(path);
    }
}

/// Decides whether an existing output file may be overwritten: only when
/// its first line, once trimmed, is exactly the marker.
pub fn overwrite_allowed(first_line: &str) -> (r: bool)
    ensures
        r == (spec_trim(first_line@) == marker_line()),
{
    let trimmed = trim_str(first_line);
    str_eq(trimmed.as_str(), "/* This file is generated and managed by tsync */")
}

} // verus!
