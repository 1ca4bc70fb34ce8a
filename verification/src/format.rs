//! The format-independent side of a formatting run: the general options and
//! the schema traversal that drives a formatter's event methods.

use crate::literal::print_expr;
use crate::meta::{doc_view, Field, FieldKind, Meta};
use crate::render::{render_document, render_field, render_fields};
use crate::text::comment_block;
use crate::toml::TomlFormatter;
use vstd::prelude::*;
use vstd::string::StringExecFns;

verus! {

/// Options that do not depend on the output format.
#[derive(Clone, Copy)]
pub struct Options {
    /// Emit documentation and status comments.  Default: `true`.
    pub comments: bool,
    /// Blank lines before a nested section.  Default: 1.
    pub nested_field_gap: u8,
}

impl Default for Options {
    /// Comments on, one blank line before nested sections.
    fn default() -> (o: Self)
        ensures
            o.comments == true,
            o.nested_field_gap == 1,
    {
        Options { comments: true, nested_field_gap: 1 }
    }
}

/// Walks the schema depth-first, in declaration order, and drives the
/// formatter's event methods: the traversal decides what commentary and
/// which fields to emit, the formatter alone decides the syntax.  The
/// result is exactly the text [`render_document`] defines; in particular
/// the traversal leaves the nesting stack as it found it — empty — so the
/// run can always finish.
pub fn format(out: &mut TomlFormatter, meta: &Meta, options: Options)
    requires
        old(out).path().len() == 0,
    ensures
        final(out).out() == render_document(
            old(out).out(),
            *meta,
            old(out).indent_opt(),
            options,
        ),
        final(out).path() == old(out).path(),
        final(out).indent_opt() == old(out).indent_opt(),
{
    let ghost buf0 = out.out();
    let ghost path0 = out.path();
    let ghost w = out.indent_opt();
    if options.comments {
        let mut k: usize = 0;
        while k < meta.doc.len()
            invariant
                out.path() == path0,
                path0.len() == 0,
                out.indent_opt() == w,
                k <= meta.doc@.len(),
                out.out() == buf0 + comment_block(0, w, doc_view(meta.doc@), k as nat),
            decreases meta.doc@.len() - k,
        {
            out.comment(meta.doc[k].as_str());
            proof {
                assert(doc_view(meta.doc@)[k as int] == meta.doc@[k as int]@);
                assert(out.out() =~= buf0 + comment_block(
                    0,
                    w,
                    doc_view(meta.doc@),
                    (k + 1) as nat,
                ));
            }
            k = k + 1;
        }
    } else {
        proof {
            assert(out.out() =~= buf0 + comment_block(0, w, Seq::<Seq<char>>::empty(), 0));
        }
    }
    out.start_main();
    format_fields(out, &meta.fields, options);
    proof {
        assert(path0 =~= Seq::<Seq<char>>::empty());
        assert(final(out).out() =~= render_document(buf0, *meta, w, options));
    }
}

/// Emits every field of `fields` in declaration order at the formatter's
/// current depth and path, which it preserves.
fn format_fields(out: &mut TomlFormatter, fields: &Vec<Field>, options: Options)
    ensures
        final(out).out() == render_fields(
            old(out).out(),
            fields@,
            fields@.len(),
            old(out).path(),
            old(out).indent_opt(),
            options,
        ),
        final(out).path() == old(out).path(),
        final(out).indent_opt() == old(out).indent_opt(),
    decreases fields@,
{
    let ghost buf0 = out.out();
    let ghost path0 = out.path();
    let ghost w = out.indent_opt();
    let n: usize = fields.len();
    let mut i: usize = 0;
    while i < n
        invariant
            n == fields@.len(),
            i <= n,
            out.path() == path0,
            out.indent_opt() == w,
            out.out() == render_fields(buf0, fields@, i as nat, path0, w, options),
        decreases n - i,
    {
        proof {
            assert(decreases_to!(fields@ => fields@[i as int]));
        }
        format_field(out, &fields[i], i == 0, options);
        proof {
            assert(out.out() == render_fields(buf0, fields@, (i + 1) as nat, path0, w, options));
        }
        i = i + 1;
    }
}

/// Emits one field: its gap (unless it opens its section), its commentary
/// when comments are on, and its assignment line or — for a nested section
/// — its header and, one level deeper, its own fields.
#[verifier::rlimit(80)]
fn format_field(out: &mut TomlFormatter, f: &Field, is_first: bool, options: Options)
    ensures
        final(out).out() == render_field(
            old(out).out(),
            *f,
            is_first,
            old(out).path(),
            old(out).indent_opt(),
            options,
        ),
        final(out).path() == old(out).path(),
        final(out).indent_opt() == old(out).indent_opt(),
    decreases *f,
{
    let ghost buf0 = out.out();
    let ghost path0 = out.path();
    let ghost w = out.indent_opt();
    let ghost d = path0.len();
    if !is_first {
        let g: u8 = match &f.kind {
            FieldKind::Nested { .. } => options.nested_field_gap,
            FieldKind::Leaf { .. } => if options.comments {
                1
            } else {
                0
            },
        };
        out.make_gap(g);
    }
    let ghost b = out.out();
    match &f.kind {
        FieldKind::Leaf { optional, env, default } => {
            if options.comments {
                let mut k: usize = 0;
                while k < f.doc.len()
                    invariant
                        out.path() == path0,
                        out.indent_opt() == w,
                        d == path0.len(),
                        k <= f.doc@.len(),
                        out.out() == b + comment_block(d, w, doc_view(f.doc@), k as nat),
                    decreases f.doc@.len() - k,
                {
                    out.comment(f.doc[k].as_str());
                    proof {
                        assert(doc_view(f.doc@)[k as int] == f.doc@[k as int]@);
                        assert(out.out() =~= b + comment_block(
                            d,
                            w,
                            doc_view(f.doc@),
                            (k + 1) as nat,
                        ));
                    }
                    k = k + 1;
                }
                let ghost c1 = out.out();
                let has_status: bool = env.is_some() || default.is_some() || !*optional;
                if f.doc.len() > 0 && has_status {
                    out.comment("");
                    proof {
                        reveal_strlit("");
                        assert(""@ =~= Seq::<char>::empty());
                    }
                }
                let ghost c2 = out.out();
                match env {
                    Option::Some(ev) => {
                        let mut line: String = String::from_str(
                            " Can also be specified via environment variable `",
                        );
                        line.append(ev.as_str());
                        line.append("`.");
                        out.comment(line.as_str());
                    },
                    Option::None => {},
                }
                let ghost c3 = out.out();
                match default {
                    Option::Some(e) => {
                        let mut line: String = String::from_str(" Default value: ");
                        let printed = print_expr(e);
                        line.append(printed.as_str());
                        out.comment(line.as_str());
                    },
                    Option::None => {
                        if !*optional {
                            out.comment(" Required! This value must be specified.");
                        }
                    },
                }
                proof {
                    let doc = doc_view(f.doc@);
                    let envv = crate::render::env_view(*env);
                    let sep: Seq<char> = if doc.len() > 0 && (envv.is_some() || default.is_some()
                        || !*optional) {
                        crate::text::comment_line(d, w, Seq::<char>::empty())
                    } else {
                        Seq::<char>::empty()
                    };
                    let envline: Seq<char> = match envv {
                        Option::Some(v) => crate::text::comment_line(
                            d,
                            w,
                            crate::render::env_text(v),
                        ),
                        Option::None => Seq::<char>::empty(),
                    };
                    let statusline: Seq<char> = match default {
                        Option::Some(e) => crate::text::comment_line(
                            d,
                            w,
                            crate::render::default_text(*e),
                        ),
                        Option::None => if !*optional {
                            crate::text::comment_line(d, w, crate::render::required_text())
                        } else {
                            Seq::<char>::empty()
                        },
                    };
                    assert(c1 == b + comment_block(d, w, doc, doc.len()));
                    assert(c2 =~= c1 + sep);
                    assert(c3 =~= c2 + envline);
                    assert(out.out() =~= c3 + statusline);
                    assert(out.out() =~= b + crate::render::leaf_comments(
                        d,
                        w,
                        doc_view(f.doc@),
                        *optional,
                        crate::render::env_view(*env),
                        *default,
                    ));
                }
            }
            out.disabled_field(f.name.as_str(), default.as_ref());
            proof {
                assert(final(out).out() =~= render_field(buf0, *f, is_first, path0, w, options));
            }
        },
        FieldKind::Nested { meta } => {
            if options.comments {
                out.start_nested(f.name.as_str(), &f.doc);
            } else {
                let no_doc: Vec<String> = Vec::new();
                out.start_nested(f.name.as_str(), &no_doc);
                proof {
                    assert(doc_view(no_doc@) =~= Seq::<Seq<char>>::empty());
                }
            }
            proof {
                assert(decreases_to!(*f => (*f).kind));
                assert(decreases_to!((*f).kind => (*f).kind->Nested_meta));
                assert((*f).kind->Nested_meta == *meta);
                assert(decreases_to!(*meta => (*meta).fields));
                assert(decreases_to!((*meta).fields => (*meta).fields@));
                assert(decreases_to!(*f => (*meta).fields@));
            }
            format_fields(out, &meta.fields, options);
            out.end_nested();
            proof {
                assert(final(out).path() =~= path0);
                assert(final(out).out() =~= render_field(buf0, *f, is_first, path0, w, options));
            }
        },
    }
}

} // verus!
