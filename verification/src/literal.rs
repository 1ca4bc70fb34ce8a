//! The expression printer: turns a typed default value into its TOML
//! literal syntax.  The spec functions define the syntax character by
//! character; the executable printer is proved to produce exactly that.

use crate::meta::Expr;
use vstd::prelude::*;
use vstd::string::{StrSliceExecFns, StringExecFns};

verus! {

/// The decimal digit character for `d`.
pub open spec fn digit(d: nat) -> char {
    if d == 0 {
        '0'
    } else if d == 1 {
        '1'
    } else if d == 2 {
        '2'
    } else if d == 3 {
        '3'
    } else if d == 4 {
        '4'
    } else if d == 5 {
        '5'
    } else if d == 6 {
        '6'
    } else if d == 7 {
        '7'
    } else if d == 8 {
        '8'
    } else {
        '9'
    }
}

/// The uppercase hexadecimal digit character for `d`.
pub open spec fn hex_digit(d: nat) -> char {
    if d < 10 {
        digit(d)
    } else if d == 10 {
        'A'
    } else if d == 11 {
        'B'
    } else if d == 12 {
        'C'
    } else if d == 13 {
        'D'
    } else if d == 14 {
        'E'
    } else {
        'F'
    }
}

/// The decimal notation of `n`, most significant digit first.
pub open spec fn dec_nat(n: nat) -> Seq<char>
    decreases n,
{
    if n < 10 {
        seq![digit(n)]
    } else {
        dec_nat(n / 10).push(digit(n % 10))
    }
}

/// The TOML notation of the integer `v`: its decimal digits, preceded by a
/// minus sign when `v` is negative.
pub open spec fn int_literal(v: int) -> Seq<char> {
    if v >= 0 {
        dec_nat(v as nat)
    } else {
        seq!['-'] + dec_nat((-v) as nat)
    }
}

/// How one character appears inside a TOML basic string: the backslash
/// escapes of the TOML grammar, `\u00XX` for the remaining control
/// characters, and the character itself otherwise.
pub open spec fn escape_char(c: char) -> Seq<char> {
    if c == '"' {
        seq!['\\', '"']
    } else if c == '\\' {
        seq!['\\', '\\']
    } else if c == '\u{8}' {
        seq!['\\', 'b']
    } else if c == '\t' {
        seq!['\\', 't']
    } else if c == '\n' {
        seq!['\\', 'n']
    } else if c == '\u{c}' {
        seq!['\\', 'f']
    } else if c == '\r' {
        seq!['\\', 'r']
    } else if (c as u32) < 0x20 || c as u32 == 0x7f {
        seq!['\\', 'u', '0', '0', hex_digit((c as u32) as nat / 16), hex_digit(
            (c as u32) as nat % 16,
        )]
    } else {
        seq![c]
    }
}

/// The first `n` characters of `s`, each escaped for a TOML basic string.
pub open spec fn escape_seq(s: Seq<char>, n: nat) -> Seq<char>
    decreases n,
{
    if n == 0 {
        Seq::<char>::empty()
    } else {
        escape_seq(s, (n - 1) as nat) + escape_char(s[n - 1])
    }
}

/// The TOML basic-string notation of `s`: quoted and escaped.
pub open spec fn str_literal(s: Seq<char>) -> Seq<char> {
    seq!['"'] + escape_seq(s, s.len()) + seq!['"']
}

/// The TOML literal syntax of the value `e`.
pub open spec fn toml_literal(e: Expr) -> Seq<char>
    decreases e, 0nat,
{
    match e {
        Expr::Bool(b) => if b {
            "true"@
        } else {
            "false"@
        },
        Expr::Integer(v) => int_literal(v as int),
        Expr::Str(s) => str_literal(s@),
        Expr::Array(items) => seq!['['] + array_items(items@, items@.len()) + seq![']'],
    }
}

/// The TOML literals of the first `n` of `items`, joined with `, `.
pub open spec fn array_items(items: Seq<Expr>, n: nat) -> Seq<char>
    decreases items, n,
{
    if n == 0 || items.len() < n {
        Seq::<char>::empty()
    } else if n == 1 {
        toml_literal(items[0])
    } else {
        array_items(items, (n - 1) as nat) + ", "@ + toml_literal(items[n - 1])
    }
}

/// The decimal digit character for `d`.
fn digit_char(d: u64) -> (c: char)
    requires
        d < 10,
    ensures
        c == digit(d as nat),
{
    if d == 0 {
        '0'
    } else if d == 1 {
        '1'
    } else if d == 2 {
        '2'
    } else if d == 3 {
        '3'
    } else if d == 4 {
        '4'
    } else if d == 5 {
        '5'
    } else if d == 6 {
        '6'
    } else if d == 7 {
        '7'
    } else if d == 8 {
        '8'
    } else {
        '9'
    }
}

/// The uppercase hexadecimal digit character for `d`.
fn hex_digit_char(d: u32) -> (c: char)
    requires
        d < 16,
    ensures
        c == hex_digit(d as nat),
{
    if d < 10 {
        digit_char(d as u64)
    } else if d == 10 {
        'A'
    } else if d == 11 {
        'B'
    } else if d == 12 {
        'C'
    } else if d == 13 {
        'D'
    } else if d == 14 {
        'E'
    } else {
        'F'
    }
}

/// Appends the decimal notation of `n` to `out`.
fn push_dec(out: &mut String, n: u64)
    ensures
        final(out)@ == old(out)@ + dec_nat(n as nat),
    decreases n,
{
    if n < 10 {
        out.push(digit_char(n));
    } else {
        push_dec(out, n / 10);
        out.push(digit_char(n % 10));
    }
    assert(out@ =~= old(out)@ + dec_nat(n as nat));
}

/// Appends the TOML notation of the integer `v` to `out`.
fn push_int(out: &mut String, v: i64)
    ensures
        final(out)@ == old(out)@ + int_literal(v as int),
{
    if v >= 0 {
        push_dec(out, v as u64);
    } else {
        out.push('-');
        let magnitude: u64 = if v == i64::MIN {
            9223372036854775808u64
        } else {
            (-v) as u64
        };
        assert(magnitude == -(v as int));
        push_dec(out, magnitude);
        assert(out@ =~= old(out)@ + int_literal(v as int));
    }
}

/// Appends the escape of one character to `out`.
fn push_escaped(out: &mut String, c: char)
    ensures
        final(out)@ == old(out)@ + escape_char(c),
{
    if c == '"' {
        out.push('\\');
        out.push('"');
    } else if c == '\\' {
        out.push('\\');
        out.push('\\');
    } else if c == '\u{8}' {
        out.push('\\');
        out.push('b');
    } else if c == '\t' {
        out.push('\\');
        out.push('t');
    } else if c == '\n' {
        out.push('\\');
        out.push('n');
    } else if c == '\u{c}' {
        out.push('\\');
        out.push('f');
    } else if c == '\r' {
        out.push('\\');
        out.push('r');
    } else if (c as u32) < 0x20 || c as u32 == 0x7f {
        out.push('\\');
        out.push('u');
        out.push('0');
        out.push('0');
        out.push(hex_digit_char((c as u32) / 16));
        out.push(hex_digit_char((c as u32) % 16));
    } else {
        out.push(c);
    }
    assert(out@ =~= old(out)@ + escape_char(c));
}

/// Appends the TOML basic-string notation of `s` to `out`.
fn push_str_literal(out: &mut String, s: &str)
    ensures
        final(out)@ == old(out)@ + str_literal(s@),
{
    out.push('"');
    let n: usize = s.unicode_len();
    let mut i: usize = 0;
    while i < n
        invariant
            n == s@.len(),
            i <= n,
            out@ == old(out)@ + seq!['"'] + escape_seq(s@, i as nat),
        decreases n - i,
    {
        let c = s.get_char(i);
        push_escaped(out, c);
        i = i + 1;
        assert(out@ =~= old(out)@ + seq!['"'] + escape_seq(s@, i as nat));
    }
    out.push('"');
    assert(out@ =~= old(out)@ + str_literal(s@));
}

/// Converts a typed default value into its TOML literal text, exactly as
/// [`toml_literal`] defines it.
pub fn print_expr(e: &Expr) -> (out: String)
    ensures
        out@ == toml_literal(*e),
    decreases *e,
{
    match e {
        Expr::Bool(b) => {
            if *b {
                String::from_str("true")
            } else {
                String::from_str("false")
            }
        },
        Expr::Integer(v) => {
            let mut out = String::new();
            push_int(&mut out, *v);
            out
        },
        Expr::Str(s) => {
            let mut out = String::new();
            push_str_literal(&mut out, s.as_str());
            assert(out@ =~= toml_literal(*e));
            out
        },
        Expr::Array(items) => {
            let mut out = String::new();
            out.push('[');
            let n: usize = items.len();
            let mut i: usize = 0;
            while i < n
                invariant
                    *e == Expr::Array(*items),
                    n == items@.len(),
                    i <= n,
                    out@ == seq!['['] + array_items(items@, i as nat),
                decreases n - i,
            {
                if i > 0 {
                    out.append(", ");
                }
                proof {
                    assert(decreases_to!(*e => (*e)->Array_0));
                    assert((*e)->Array_0 == *items);
                    assert(decreases_to!(*items => items@));
                    assert(decreases_to!(items@ => items@[i as int]));
                    assert(decreases_to!(*e => items@[i as int]));
                }
                let piece = print_expr(&items[i]);
                out.append(piece.as_str());
                i = i + 1;
                assert(out@ =~= seq!['['] + array_items(items@, i as nat));
            }
            out.push(']');
            assert(out@ =~= toml_literal(*e));
            out
        },
    }
}

} // verus!
