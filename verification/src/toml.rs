//! The TOML-specific formatter: turns structural events (enter a section,
//! leaf field with or without a default, comment line) into correctly
//! indented, correctly commented TOML text.

use crate::format::Options;
use crate::literal::print_expr;
use crate::meta::{doc_view, Expr, Meta};
use crate::render::{assignment_text, render_document};
use crate::text::{
    comment_block, comment_line, header_line, dotted_path, indentation, newlines, spaces,
    trailing_newlines, with_gap,
};
use vstd::prelude::*;
use vstd::string::{StrSliceExecFns, StringExecFns};

verus! {

/// Options for generating a TOML template.
#[derive(Clone, Copy)]
pub struct FormatOptions {
    /// Indentation for nested tables.  Default: 0.
    pub indent: u8,
    /// Options that do not depend on the output format.
    pub general: Options,
}

impl Default for FormatOptions {
    /// No indentation; comments on; one blank line before nested sections.
    fn default() -> (o: Self)
        ensures
            o.indent == 0,
            o.general.comments == true,
            o.general.nested_field_gap == 1,
    {
        FormatOptions { indent: 0, general: Options { comments: true, nested_field_gap: 1 } }
    }
}

/// The view of the optional default value handed to `disabled_field`.
pub open spec fn expr_view(value: Option<&Expr>) -> Option<Expr> {
    match value {
        Option::Some(e) => Option::Some(*e),
        Option::None => Option::None,
    }
}

/// The stateful TOML formatter: an append-only output buffer and the
/// nesting stack of section names from the root to the current section.
/// It is constructed once per formatting run, driven by the traversal in
/// [`crate::format`], and consumed by [`TomlFormatter::finish`].
pub struct TomlFormatter {
    indent: u8,
    buffer: String,
    stack: Vec<String>,
}

impl TomlFormatter {
    /// The text accumulated so far.
    pub closed spec fn out(&self) -> Seq<char> {
        self.buffer@
    }

    /// The section names from the root to the current section.
    pub closed spec fn path(&self) -> Seq<Seq<char>> {
        self.stack@.map_values(|s: String| s@)
    }

    /// The configured indentation width, in spaces per nesting level.
    pub closed spec fn indent_opt(&self) -> u8 {
        self.indent
    }

    /// The current nesting depth.
    pub open spec fn depth(&self) -> nat {
        self.path().len()
    }

    /// A fresh formatter: empty buffer, empty stack.
    pub fn new(options: &FormatOptions) -> (f: Self)
        ensures
            f.out() == Seq::<char>::empty(),
            f.path() == Seq::<Seq<char>>::empty(),
            f.indent_opt() == options.indent,
    {
        let f = TomlFormatter { indent: options.indent, buffer: String::new(), stack: Vec::new() };
        proof {
            assert(f.path() =~= Seq::<Seq<char>>::empty());
        }
        f
    }

    /// Appends the indentation prefix for the current depth: stack depth
    /// times the indentation width many spaces; none at the top level.
    pub fn emit_indentation(&mut self)
        ensures
            final(self).out() == old(self).out() + indentation(
                old(self).depth(),
                old(self).indent_opt(),
            ),
            final(self).path() == old(self).path(),
            final(self).indent_opt() == old(self).indent_opt(),
    {
        let depth: usize = self.stack.len();
        let width: u8 = self.indent;
        let mut i: usize = 0;
        while i < depth
            invariant
                self.stack == old(self).stack,
                self.indent == old(self).indent,
                width == self.indent,
                depth == self.stack@.len(),
                i <= depth,
                self.buffer@ == old(self).buffer@ + spaces((i * width) as nat),
            decreases depth - i,
        {
            let mut j: u8 = 0;
            while j < width
                invariant
                    self.stack == old(self).stack,
                    self.indent == old(self).indent,
                    width == self.indent,
                    j <= width,
                    self.buffer@ == old(self).buffer@ + spaces((i * width + j) as nat),
                decreases width - j,
            {
                self.buffer.push(' ');
                proof {
                    assert(self.buffer@ =~= old(self).buffer@ + spaces((i * width + j + 1) as nat));
                }
                j = j + 1;
            }
            proof {
                assert((i + 1) * width == i * width + width) by (nonlinear_arith);
            }
            i = i + 1;
        }
        proof {
            assert(old(self).depth() == depth);
            assert(final(self).out() =~= old(self).out() + indentation(
                old(self).depth(),
                old(self).indent_opt(),
            ));
        }
    }

    /// Writes one comment line: the indentation prefix, the leader `#`, the
    /// text, and a newline.  Callable in any state; never touches the stack.
    pub fn comment(&mut self, text: &str)
        ensures
            final(self).out() == old(self).out() + comment_line(
                old(self).depth(),
                old(self).indent_opt(),
                text@,
            ),
            final(self).path() == old(self).path(),
            final(self).indent_opt() == old(self).indent_opt(),
    {
        self.emit_indentation();
        self.buffer.push('#');
        self.buffer.append(text);
        self.buffer.push('\n');
        proof {
            assert(final(self).out() =~= old(self).out() + comment_line(
                old(self).depth(),
                old(self).indent_opt(),
                text@,
            ));
        }
    }

    /// Renders a field as a disabled assignment: a commented-out `name =`
    /// line, with the default's TOML literal after the `=` when a default
    /// exists.  A template suggests values, it never sets them.
    pub fn disabled_field(&mut self, name: &str, value: Option<&Expr>)
        ensures
            final(self).out() == old(self).out() + comment_line(
                old(self).depth(),
                old(self).indent_opt(),
                assignment_text(name@, expr_view(value)),
            ),
            final(self).path() == old(self).path(),
            final(self).indent_opt() == old(self).indent_opt(),
    {
        let mut line: String = String::from_str(name);
        match value {
            Option::None => {
                line.append(" =");
            },
            Option::Some(e) => {
                line.append(" = ");
                let printed = print_expr(e);
                line.append(printed.as_str());
            },
        }
        proof {
            assert(line@ =~= assignment_text(name@, expr_view(value)));
        }
        self.comment(line.as_str());
    }

    /// Enters a section: pushes its name, writes its documentation lines at
    /// the new depth, then the header naming the full dotted path from the
    /// root — `[log.file]`, never `[file]` — so arbitrarily deep nesting
    /// keeps its ancestor chain.
    pub fn start_nested(&mut self, name: &str, doc: &Vec<String>)
        ensures
            final(self).path() == old(self).path().push(name@),
            final(self).indent_opt() == old(self).indent_opt(),
            final(self).out() == old(self).out() + comment_block(
                old(self).depth() + 1,
                old(self).indent_opt(),
                doc_view(doc@),
                doc@.len(),
            ) + header_line(
                old(self).depth() + 1,
                old(self).indent_opt(),
                old(self).path().push(name@),
            ),
    {
        self.stack.push(name.to_owned());
        proof {
            assert(self.path() =~= old(self).path().push(name@));
        }
        let ghost path2 = self.path();
        let ghost depth2 = old(self).depth() + 1;
        let ghost width = old(self).indent_opt();
        let ghost buf0 = old(self).out();

        let mut k: usize = 0;
        while k < doc.len()
            invariant
                self.path() == path2,
                self.indent_opt() == width,
                path2 == old(self).path().push(name@),
                depth2 == path2.len(),
                k <= doc@.len(),
                self.out() == buf0 + comment_block(depth2 as nat, width, doc_view(doc@), k as nat),
            decreases doc@.len() - k,
        {
            self.comment(doc[k].as_str());
            proof {
                assert(doc_view(doc@)[k as int] == doc@[k as int]@);
                assert(self.out() =~= buf0 + comment_block(
                    depth2 as nat,
                    width,
                    doc_view(doc@),
                    (k + 1) as nat,
                ));
            }
            k = k + 1;
        }

        let ghost buf1 = self.out();
        self.emit_indentation();
        self.buffer.push('[');
        let m: usize = self.stack.len();
        let mut t: usize = 0;
        while t < m
            invariant
                self.path() == path2,
                self.indent_opt() == width,
                m == self.stack@.len(),
                m == path2.len(),
                m >= 1,
                t <= m,
                self.out() == buf1 + indentation(depth2 as nat, width) + seq!['['] + dotted_path(
                    path2.take(t as int),
                ),
            decreases m - t,
        {
            if t > 0 {
                self.buffer.push('.');
            }
            let piece: &str = self.stack[t].as_str();
            self.buffer.append(piece);
            proof {
                assert(path2[t as int] == self.stack@[t as int]@);
                assert(path2.take(t + 1).drop_last() =~= path2.take(t as int));
                assert(path2.take(t + 1).last() == path2[t as int]);
                if t == 0 {
                    assert(dotted_path(path2.take(1)) == path2[0]);
                }
                assert(self.out() =~= buf1 + indentation(depth2 as nat, width) + seq!['[']
                    + dotted_path(path2.take(t + 1)));
            }
            t = t + 1;
        }
        self.buffer.push(']');
        self.buffer.push('\n');
        proof {
            assert(path2.take(m as int) =~= path2);
            assert(final(self).out() =~= old(self).out() + comment_block(
                old(self).depth() + 1,
                old(self).indent_opt(),
                doc_view(doc@),
                doc@.len(),
            ) + header_line(
                old(self).depth() + 1,
                old(self).indent_opt(),
                old(self).path().push(name@),
            ));
        }
    }

    /// Exits the current section: pops the name on top of the nesting
    /// stack.  An exit without a matching enter — a pop with the stack
    /// already empty — is a traversal bug and is ruled out by contract.
    pub fn end_nested(&mut self)
        requires
            old(self).depth() > 0,
        ensures
            final(self).path() == old(self).path().drop_last(),
            final(self).out() == old(self).out(),
            final(self).indent_opt() == old(self).indent_opt(),
    {
        let _ = self.stack.pop();
        proof {
            assert(final(self).path() =~= old(self).path().drop_last());
        }
    }

    /// The hook run once before the first top-level field: emits a single
    /// blank-line gap as a visual separator before the top-level content.
    pub fn start_main(&mut self)
        ensures
            final(self).out() == with_gap(old(self).out(), 1),
            final(self).path() == old(self).path(),
            final(self).indent_opt() == old(self).indent_opt(),
    {
        self.make_gap(1);
    }

    /// Appends just enough newlines that the buffer ends with `size` blank
    /// lines.  Never removes text, and never lets gaps accumulate: a buffer
    /// that already ends with enough newlines is left unchanged.
    pub fn make_gap(&mut self, size: u8)
        ensures
            final(self).out() == with_gap(old(self).out(), size as nat),
            final(self).path() == old(self).path(),
            final(self).indent_opt() == old(self).indent_opt(),
    {
        let len: usize = self.buffer.as_str().unicode_len();
        let mut have: usize = 0;
        proof {
            assert(self.out().take(len as int) =~= self.out());
        }
        while have < len && self.buffer.as_str().get_char(len - 1 - have) == '\n'
            invariant
                self.stack == old(self).stack,
                self.indent == old(self).indent,
                self.buffer@ == old(self).buffer@,
                len == self.buffer@.len(),
                have <= len,
                trailing_newlines(self.out()) == have + trailing_newlines(
                    self.out().take((len - have) as int),
                ),
            decreases len - have,
        {
            proof {
                let s = self.out();
                let r = (len - have) as int;
                assert(s.take(r).len() == r);
                assert(s.take(r).last() == s[r - 1]);
                assert(s.take(r).drop_last() =~= s.take(r - 1));
            }
            have = have + 1;
        }
        proof {
            let s = self.out();
            let r = (len - have) as int;
            if have == len {
                assert(s.take(0).len() == 0);
            } else {
                assert(s.take(r).len() == r);
                assert(s.take(r).last() == s[r - 1]);
            }
            assert(trailing_newlines(s) == have);
        }
        let goal: usize = if have == len {
            size as usize
        } else {
            size as usize + 1
        };
        if have < goal {
            let need: usize = goal - have;
            let mut p: usize = 0;
            while p < need
                invariant
                    self.stack == old(self).stack,
                    self.indent == old(self).indent,
                    p <= need,
                    self.buffer@ == old(self).buffer@ + newlines(p as nat),
                decreases need - p,
            {
                self.buffer.push('\n');
                proof {
                    assert(self.buffer@ =~= old(self).buffer@ + newlines((p + 1) as nat));
                }
                p = p + 1;
            }
        } else {
            proof {
                assert(old(self).buffer@ + newlines(0) =~= old(self).buffer@);
            }
        }
        proof {
            assert(final(self).out() =~= with_gap(old(self).out(), size as nat));
        }
    }

    /// Consumes the formatter and returns the rendered text.  Finishing
    /// mid-section — with a non-empty nesting stack — is a traversal bug
    /// and is ruled out by contract: every entered section must have been
    /// exited first.
    pub fn finish(self) -> (s: String)
        requires
            self.depth() == 0,
        ensures
            s@ == self.out(),
    {
        self.buffer
    }
}

/// Formats the configuration description `meta` as a TOML template.
///
/// The result starts with the schema's documentation and a blank line, then
/// lists every field in declaration order: its documentation and status
/// comments, its disabled `#name = value` assignment, and a bracketed,
/// dot-joined header for every nested section.  The exact text is the one
/// [`render_document`] defines.
pub fn format(meta: &Meta, options: FormatOptions) -> (out: String)
    ensures
        out@ == render_document(Seq::<char>::empty(), *meta, options.indent, options.general),
{
    let mut f = TomlFormatter::new(&options);
    crate::format::format(&mut f, meta, options.general);
    f.finish()
}

} // verus!
