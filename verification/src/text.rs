//! The mathematical model of the emitted text: indentation, comment lines,
//! blank-line gaps, and dotted table-path headers.

use vstd::prelude::*;

verus! {

/// `n` space characters.
pub open spec fn spaces(n: nat) -> Seq<char>
    decreases n,
{
    if n == 0 {
        Seq::<char>::empty()
    } else {
        spaces((n - 1) as nat).push(' ')
    }
}

/// `n` newline characters.
pub open spec fn newlines(n: nat) -> Seq<char>
    decreases n,
{
    if n == 0 {
        Seq::<char>::empty()
    } else {
        newlines((n - 1) as nat).push('\n')
    }
}

/// The indentation prefix at nesting depth `depth` under an indentation
/// width of `indent` spaces per level: `depth * indent` spaces.
pub open spec fn indentation(depth: nat, indent: u8) -> Seq<char> {
    spaces((depth * indent) as nat)
}

/// How many newline characters `s` ends with.
pub open spec fn trailing_newlines(s: Seq<char>) -> nat
    decreases s.len(),
{
    if s.len() == 0 || s.last() != '\n' {
        0
    } else {
        1 + trailing_newlines(s.drop_last())
    }
}

/// `buf` extended with just enough newline characters that it ends with
/// `size` blank lines.  A buffer consisting only of newlines (in particular
/// an empty buffer) needs `size` trailing newlines; any other buffer needs
/// one more, to terminate its last content line.  A buffer that already ends
/// with enough newlines is left unchanged, so gaps never accumulate.
pub open spec fn with_gap(buf: Seq<char>, size: nat) -> Seq<char> {
    let have = trailing_newlines(buf);
    let goal: nat = if buf.len() == have {
        size
    } else {
        size + 1
    };
    if have >= goal {
        buf
    } else {
        buf + newlines((goal - have) as nat)
    }
}

/// One comment line: the indentation prefix, the comment leader `#`, the
/// text, and a newline.
pub open spec fn comment_line(depth: nat, indent: u8, text: Seq<char>) -> Seq<char> {
    indentation(depth, indent) + seq!['#'] + text + seq!['\n']
}

/// The first `n` of `lines`, each rendered as a comment line.
pub open spec fn comment_block(depth: nat, indent: u8, lines: Seq<Seq<char>>, n: nat) -> Seq<char>
    decreases n,
{
    if n == 0 {
        Seq::<char>::empty()
    } else {
        comment_block(depth, indent, lines, (n - 1) as nat) + comment_line(
            depth,
            indent,
            lines[n - 1],
        )
    }
}

/// The elements of `path` joined with `.`.
pub open spec fn dotted_path(path: Seq<Seq<char>>) -> Seq<char>
    decreases path.len(),
{
    if path.len() == 0 {
        Seq::<char>::empty()
    } else if path.len() == 1 {
        path[0]
    } else {
        dotted_path(path.drop_last()) + seq!['.'] + path.last()
    }
}

/// One section header line: the indentation prefix, then the dot-joined
/// path from the root to the current section in brackets, and a newline.
pub open spec fn header_line(depth: nat, indent: u8, path: Seq<Seq<char>>) -> Seq<char> {
    indentation(depth, indent) + seq!['['] + dotted_path(path) + seq![']'] + seq!['\n']
}

/// Indentation determinism: the indentation prefix at nesting depth `depth`
/// is made of space characters alone and is exactly `depth * indent`
/// characters long; depth 0 always has an empty prefix.
pub proof fn lemma_indentation_len(depth: nat, indent: u8)
    ensures
        indentation(depth, indent).len() == depth * indent,
        forall|i: int|
            0 <= i < depth * indent ==> indentation(depth, indent)[i] == ' ',
        indentation(0, indent) == Seq::<char>::empty(),
{
    lemma_spaces_len((depth * indent) as nat);
}

/// `spaces(n)` is `n` space characters.
pub proof fn lemma_spaces_len(n: nat)
    ensures
        spaces(n).len() == n,
        forall|i: int| 0 <= i < n ==> spaces(n)[i] == ' ',
    decreases n,
{
    if n > 0 {
        lemma_spaces_len((n - 1) as nat);
    }
}

/// Dotted-path correctness: entering a section extends the dotted path of
/// its ancestors; the path joined for `ancestors + [name]` is the join for
/// `ancestors`, a dot, and `name` — never `name` alone — so a section `b`
/// nested inside `a` is headed `a.b`.
pub proof fn lemma_dotted_push(path: Seq<Seq<char>>, name: Seq<char>)
    requires
        path.len() > 0,
    ensures
        dotted_path(path.push(name)) == dotted_path(path) + seq!['.'] + name,
{
    assert(path.push(name).drop_last() =~= path);
    assert(path.push(name).last() == name);
}

} // verus!
