//! The mathematical model of a whole formatting run: what the rendered
//! template looks like for a given schema and set of options.

use crate::format::Options;
use crate::literal::toml_literal;
use crate::meta::{doc_view, Expr, Field, FieldKind, Meta};
use crate::text::{comment_block, comment_line, header_line, with_gap};
use vstd::prelude::*;

verus! {

/// The status comment naming the environment variable a field can be set
/// through.
pub open spec fn env_text(env: Seq<char>) -> Seq<char> {
    " Can also be specified via environment variable `"@ + env + "`."@
}

/// The status comment giving a field's default value.
pub open spec fn default_text(e: Expr) -> Seq<char> {
    " Default value: "@ + toml_literal(e)
}

/// The status comment marking a field that must be specified.
pub open spec fn required_text() -> Seq<char> {
    " Required! This value must be specified."@
}

/// The disabled assignment for a field: `name =` alone when there is no
/// default, `name = <literal>` when there is one.  The line is always
/// rendered as a comment: a template suggests values, it never sets them.
pub open spec fn assignment_text(name: Seq<char>, default: Option<Expr>) -> Seq<char> {
    match default {
        Option::None => name + " ="@,
        Option::Some(e) => name + " = "@ + toml_literal(e),
    }
}

/// The view of an optional environment-variable name.
pub open spec fn env_view(env: Option<String>) -> Option<Seq<char>> {
    match env {
        Option::Some(s) => Option::Some(s@),
        Option::None => Option::None,
    }
}

/// The comment lines above a leaf field: its documentation lines; a bare
/// `#` separator when documentation and status lines are both present; the
/// environment-variable note; and the default or requirement note.  A field
/// that is optional and has no default gets no default/requirement note.
pub open spec fn leaf_comments(
    depth: nat,
    indent: u8,
    doc: Seq<Seq<char>>,
    optional: bool,
    env: Option<Seq<char>>,
    default: Option<Expr>,
) -> Seq<char> {
    let has_status = env.is_some() || default.is_some() || !optional;
    comment_block(depth, indent, doc, doc.len()) + (if doc.len() > 0 && has_status {
        comment_line(depth, indent, Seq::<char>::empty())
    } else {
        Seq::<char>::empty()
    }) + (match env {
        Option::Some(v) => comment_line(depth, indent, env_text(v)),
        Option::None => Seq::<char>::empty(),
    }) + (match default {
        Option::Some(e) => comment_line(depth, indent, default_text(e)),
        Option::None => if !optional {
            comment_line(depth, indent, required_text())
        } else {
            Seq::<char>::empty()
        },
    })
}

/// The blank-line gap made before a field: `nested_field_gap` lines before
/// a nested section; one line before a leaf when comments are emitted, to
/// set its comment block apart; none before a bare leaf line.
pub open spec fn field_gap(f: Field, o: Options) -> nat {
    match f.kind {
        FieldKind::Nested { .. } => o.nested_field_gap as nat,
        FieldKind::Leaf { .. } => if o.comments {
            1
        } else {
            0
        },
    }
}

/// `buf` extended with the rendering of the field `f` under the section
/// path `path` (the names from the root to the enclosing section, whose
/// length is the nesting depth).  The first field of a section gets no gap
/// before it.  A leaf renders as its comment lines (when comments are
/// emitted) and its disabled assignment.  A nested section renders as its
/// documentation, a header naming the full dotted path, and its own fields,
/// one level deeper.
pub open spec fn render_field(
    buf: Seq<char>,
    f: Field,
    is_first: bool,
    path: Seq<Seq<char>>,
    indent: u8,
    o: Options,
) -> Seq<char>
    decreases f, 0nat,
{
    let depth = path.len();
    let b = if is_first {
        buf
    } else {
        with_gap(buf, field_gap(f, o))
    };
    match f.kind {
        FieldKind::Leaf { optional, env, default } => {
            let b2 = if o.comments {
                b + leaf_comments(depth, indent, doc_view(f.doc@), optional, env_view(env), default)
            } else {
                b
            };
            b2 + comment_line(depth, indent, assignment_text(f.name@, default))
        },
        FieldKind::Nested { meta } => {
            let path2 = path.push(f.name@);
            let docs = if o.comments {
                doc_view(f.doc@)
            } else {
                Seq::<Seq<char>>::empty()
            };
            let b2 = b + comment_block(depth + 1, indent, docs, docs.len()) + header_line(
                depth + 1,
                indent,
                path2,
            );
            render_fields(b2, meta.fields@, meta.fields@.len(), path2, indent, o)
        },
    }
}

/// `buf` extended with the renderings of the first `n` of `fields`, in
/// declaration order.
pub open spec fn render_fields(
    buf: Seq<char>,
    fields: Seq<Field>,
    n: nat,
    path: Seq<Seq<char>>,
    indent: u8,
    o: Options,
) -> Seq<char>
    decreases fields, n,
{
    if n == 0 || fields.len() < n {
        buf
    } else {
        render_field(
            render_fields(buf, fields, (n - 1) as nat, path, indent, o),
            fields[n - 1],
            n == 1,
            path,
            indent,
            o,
        )
    }
}

/// `buf` extended with the whole rendered template for the schema `meta`:
/// the root documentation (when comments are emitted), one blank-line gap
/// before the top-level content, then every field of the schema in
/// declaration order, starting at depth 0 with an empty section path.
pub open spec fn render_document(buf: Seq<char>, meta: Meta, indent: u8, o: Options) -> Seq<char> {
    let docs = if o.comments {
        doc_view(meta.doc@)
    } else {
        Seq::<Seq<char>>::empty()
    };
    let b1 = buf + comment_block(0, indent, docs, docs.len());
    let b2 = with_gap(b1, 1);
    render_fields(b2, meta.fields@, meta.fields@.len(), Seq::<Seq<char>>::empty(), indent, o)
}

/// Whether two fields agree on everything the template's uncommented text
/// is made of: name, kind, optionality and default value — documentation
/// lines and environment-variable bindings may differ freely.
pub open spec fn same_field_ignoring_docs(f1: Field, f2: Field) -> bool
    decreases f1, 0nat,
{
    f1.name@ == f2.name@ && match (f1.kind, f2.kind) {
        (
            FieldKind::Leaf { optional: o1, default: d1, .. },
            FieldKind::Leaf { optional: o2, default: d2, .. },
        ) => o1 == o2 && d1 == d2,
        (FieldKind::Nested { meta: m1 }, FieldKind::Nested { meta: m2 }) => same_meta_ignoring_docs(
            m1,
            m2,
        ),
        _ => false,
    }
}

/// Whether two schemas agree field by field, ignoring documentation and
/// environment-variable bindings throughout.
pub open spec fn same_meta_ignoring_docs(m1: Meta, m2: Meta) -> bool
    decreases m1, 1nat,
{
    m1.fields@.len() == m2.fields@.len() && forall|i: int|
        0 <= i < m1.fields@.len() ==> same_field_ignoring_docs(m1.fields@[i], m2.fields@[i])
}

/// Comment suppression, for one field: with comments off, its rendering
/// keeps the assignment line (for a leaf) or the section header and inner
/// fields (for a nested section), and depends on nothing else — fields that
/// differ only in documentation or environment bindings render identically.
pub proof fn lemma_render_field_ignores_docs(
    buf: Seq<char>,
    f1: Field,
    f2: Field,
    is_first: bool,
    path: Seq<Seq<char>>,
    indent: u8,
    o: Options,
)
    requires
        !o.comments,
        same_field_ignoring_docs(f1, f2),
    ensures
        render_field(buf, f1, is_first, path, indent, o) == render_field(
            buf,
            f2,
            is_first,
            path,
            indent,
            o,
        ),
    decreases f1, 0nat,
{
    match (f1.kind, f2.kind) {
        (FieldKind::Leaf { .. }, FieldKind::Leaf { .. }) => {
        },
        (FieldKind::Nested { meta: m1 }, FieldKind::Nested { meta: m2 }) => {
            let b = if is_first {
                buf
            } else {
                with_gap(buf, field_gap(f1, o))
            };
            let path2 = path.push(f1.name@);
            let b2 = b + comment_block(
                path.len() + 1,
                indent,
                Seq::<Seq<char>>::empty(),
                0,
            ) + header_line(path.len() + 1, indent, path2);
            lemma_render_fields_ignore_docs(
                b2,
                m1.fields@,
                m2.fields@,
                m1.fields@.len(),
                path2,
                indent,
                o,
            );
        },
        _ => {
        },
    }
}

/// Comment suppression, for a list of fields, front to back.
pub proof fn lemma_render_fields_ignore_docs(
    buf: Seq<char>,
    fs1: Seq<Field>,
    fs2: Seq<Field>,
    n: nat,
    path: Seq<Seq<char>>,
    indent: u8,
    o: Options,
)
    requires
        !o.comments,
        fs1.len() == fs2.len(),
        n <= fs1.len(),
        forall|i: int| 0 <= i < fs1.len() ==> same_field_ignoring_docs(fs1[i], fs2[i]),
    ensures
        render_fields(buf, fs1, n, path, indent, o) == render_fields(buf, fs2, n, path, indent, o),
    decreases fs1, n,
{
    if n > 0 {
        lemma_render_fields_ignore_docs(buf, fs1, fs2, (n - 1) as nat, path, indent, o);
        lemma_render_field_ignores_docs(
            render_fields(buf, fs1, (n - 1) as nat, path, indent, o),
            fs1[n - 1],
            fs2[n - 1],
            n == 1,
            path,
            indent,
            o,
        );
    }
}

/// Comment suppression: with `comments` off the rendered template contains
/// none of the documentation or status commentary — two schemas that differ
/// only in documentation and environment-variable bindings render to
/// byte-identical text — while every assignment line and section header is
/// kept, since each field's rendering contributes them regardless.
pub proof fn lemma_render_ignores_docs(buf: Seq<char>, m1: Meta, m2: Meta, indent: u8, o: Options)
    requires
        !o.comments,
        same_meta_ignoring_docs(m1, m2),
    ensures
        render_document(buf, m1, indent, o) == render_document(buf, m2, indent, o),
{
    let b1 = buf + comment_block(0, indent, Seq::<Seq<char>>::empty(), 0);
    let b2 = with_gap(b1, 1);
    lemma_render_fields_ignore_docs(
        b2,
        m1.fields@,
        m2.fields@,
        m1.fields@.len(),
        Seq::<Seq<char>>::empty(),
        indent,
        o,
    );
}

/// Idempotence: the rendered template is a pure function of the schema and
/// the options — two runs over the same schema with the same options yield
/// byte-identical text, and no state is carried from one run to the next.
pub proof fn lemma_format_deterministic(
    meta: Meta,
    indent: u8,
    o: Options,
    out1: Seq<char>,
    out2: Seq<char>,
)
    requires
        out1 == render_document(Seq::<char>::empty(), meta, indent, o),
        out2 == render_document(Seq::<char>::empty(), meta, indent, o),
    ensures
        out1 == out2,
{
}

} // verus!
