//! The C++ header backend.
use vstd::prelude::*;

use crate::file_builder::{opt_chars, opt_nat, FileBuilder};
use crate::hex::{append_hex_digits, hex_literal, lemma_hex_round_trip, parse_hex_literal};

verus! {

/// A builder for C++ header files.
#[derive(Clone, Copy, Debug, PartialEq, Eq, Structural)]
pub struct CppFileBuilder;

/// The inline comment ` // c` when there is one, else nothing.
pub open spec fn cpp_comment_suffix(comment: Option<Seq<char>>) -> Seq<char> {
    match comment {
        Some(c) => " // "@ + c,
        None => Seq::empty(),
    }
}

/// `n` spaces.
pub open spec fn spaces(n: nat) -> Seq<char> {
    Seq::new(n, |i: int| ' ')
}

impl FileBuilder for CppFileBuilder {
    open spec fn spec_extension(&self) -> Seq<char> {
        "hpp"@
    }

    open spec fn top_level_text(&self) -> Seq<char> {
        "#pragma once\n\n#include <cstddef>\n\n"@
    }

    open spec fn namespace_text(&self, name: Seq<char>, comment: Option<Seq<char>>) -> Seq<char> {
        "namespace "@ + name + " {"@ + cpp_comment_suffix(comment) + "\n"@
    }

    open spec fn variable_text(
        &self,
        name: Seq<char>,
        value: nat,
        comment: Option<Seq<char>>,
        indentation: Option<nat>,
    ) -> Seq<char> {
        spaces(
            match indentation {
                Some(n) => n,
                None => 4,
            },
        ) + "constexpr std::ptrdiff_t "@ + name + " = "@ + hex_literal(value) + ";"@
            + cpp_comment_suffix(comment) + "\n"@
    }

    open spec fn closure_text(&self, eof: bool) -> Seq<char> {
        if eof {
            "}"@
        } else {
            "}\n\n"@
        }
    }

    fn extension(&mut self) -> (r: &str) {
        "hpp"
    }

    fn write_top_level(&mut self, output: &mut String) {
        output.append("#pragma once\n\n#include <cstddef>\n\n");
    }

    fn write_namespace(&mut self, output: &mut String, name: &str, comment: Option<&str>) {
        output.append("namespace ");
        output.append(name);
        output.append(" {");
        append_comment(output, comment);
        output.append("\n");
        assert(final(output)@ =~= old(output)@ + self.namespace_text(name@, opt_chars(comment)));
    }

    fn write_variable(
        &mut self,
        output: &mut String,
        name: &str,
        value: usize,
        comment: Option<&str>,
        indentation: Option<usize>,
    ) {
        let width: usize = match indentation {
            Some(n) => n,
            None => 4,
        };
        append_spaces(output, width);
        output.append("constexpr std::ptrdiff_t ");
        output.append(name);
        output.append(" = ");
        output.append("0x");
        append_hex_digits(output, value);
        output.append(";");
        append_comment(output, comment);
        output.append("\n");
        proof {
            reveal_strlit("0x");
        }
        assert(final(output)@ =~= old(output)@ + self.variable_text(
            name@,
            value as nat,
            opt_chars(comment),
            opt_nat(indentation),
        ));
    }

    fn write_closure(&mut self, output: &mut String, eof: bool) {
        if eof {
            output.append("}");
        } else {
            output.append("}\n\n");
        }
    }
}

/// The extension is the same for every C++ builder, whatever it wrote before,
/// and is not empty.
pub proof fn lemma_extension_stable(a: CppFileBuilder, b: CppFileBuilder)
    ensures
        a.spec_extension() == b.spec_extension(),
        a.spec_extension() == seq!['h', 'p', 'p'],
        a.spec_extension().len() > 0,
{
    reveal_strlit("hpp");
    assert(a.spec_extension() =~= seq!['h', 'p', 'p']);
}

/// The last closure of a file is the bare brace, with no line break after it;
/// any other closure is the brace, the end of its line, and exactly one blank
/// line.
pub proof fn lemma_closure_blank_lines(b: CppFileBuilder)
    ensures
        b.closure_text(true) == seq!['}'],
        b.closure_text(true).last() != '\n',
        b.closure_text(false) == seq!['}', '\n', '\n'],
{
    reveal_strlit("}");
    reveal_strlit("}\n\n");
    assert(b.closure_text(true) =~= seq!['}']);
    assert(b.closure_text(false) =~= seq!['}', '\n', '\n']);
}

/// Without a comment, the opening of a namespace holds no comment marker
/// besides what the name holds; with the comment `c`, it holds one inline
/// comment ` // ` right after the brace, followed by `c` verbatim to the end of
/// the line, and no other marker besides what the name and `c` hold.
pub proof fn lemma_namespace_comment(b: CppFileBuilder, name: Seq<char>, comment: Option<Seq<char>>)
    ensures
        ({
            let t = b.namespace_text(name, comment);
            let n = name.len() as int;
            &&& t.subrange(0, 10) == "namespace "@
            &&& t.subrange(10, 10 + n) == name
            &&& t[10 + n] == ' '
            &&& t[11 + n] == '{'
            &&& t.last() == '\n'
            &&& match comment {
                None => {
                    &&& t.len() == n + 13
                    &&& forall|i: int|
                        0 <= i < t.len() && #[trigger] t[i] == '/' ==> 10 <= i < 10 + n
                },
                Some(c) => {
                    &&& t.len() == n + 17 + c.len()
                    &&& t.subrange(12 + n, 16 + n) == seq![' ', '/', '/', ' ']
                    &&& t.subrange(16 + n, t.len() - 1) == c
                    &&& forall|i: int|
                        0 <= i < t.len() && #[trigger] t[i] == '/' ==> (10 <= i < 10 + n || 13
                            + n <= i < 15 + n || 16 + n <= i < t.len() - 1)
                },
            }
        }),
{
    reveal_strlit("namespace ");
    reveal_strlit(" {");
    reveal_strlit(" // ");
    reveal_strlit("\n");
    let t = b.namespace_text(name, comment);
    let n = name.len() as int;
    let head = "namespace "@ + name + " {"@;
    assert(t =~= head + cpp_comment_suffix(comment) + "\n"@);
    assert(head.subrange(0, 10) =~= "namespace "@);
    assert(head.subrange(10, 10 + n) =~= name);
    assert(t.subrange(0, 10) =~= "namespace "@);
    assert(t.subrange(10, 10 + n) =~= name);
    match comment {
        None => {
            assert forall|i: int|
                0 <= i < t.len() && #[trigger] t[i] == '/' implies 10 <= i < 10 + n by {
                if i < 10 {
                    assert(t[i] == "namespace "@[i]);
                } else if i >= 10 + n {
                    assert(t[i] == seq![' ', '{', '\n'][i - 10 - n]);
                }
            }
        },
        Some(c) => {
            assert(t.subrange(12 + n, 16 + n) =~= seq![' ', '/', '/', ' ']);
            assert(t.subrange(16 + n, t.len() - 1) =~= c);
            assert forall|i: int|
                0 <= i < t.len() && #[trigger] t[i] == '/' implies (10 <= i < 10 + n || 13 + n
                    <= i < 15 + n || 16 + n <= i < t.len() - 1) by {
                if i < 10 {
                    assert(t[i] == "namespace "@[i]);
                } else if 10 + n <= i < 16 + n {
                    assert(t[i] == seq![' ', '{', ' ', '/', '/', ' '][i - 10 - n]);
                }
            }
        },
    }
}

/// In the declaration of a constant, the value stands right after ` = ` as a
/// literal `0x` with uppercase digits, followed by `;`, and reading that literal
/// back gives the value.
pub proof fn lemma_variable_literal(
    b: CppFileBuilder,
    name: Seq<char>,
    value: nat,
    comment: Option<Seq<char>>,
    indentation: Option<nat>,
)
    ensures
        ({
            let t = b.variable_text(name, value, comment, indentation);
            let w = match indentation {
                Some(k) => k as int,
                None => 4,
            };
            let start = w + 25 + name.len() + 3;
            let end = start + hex_literal(value).len();
            &&& t.subrange(start, end) == hex_literal(value)
            &&& parse_hex_literal(t.subrange(start, end)) == Some(value)
            &&& t[end] == ';'
        }),
{
    reveal_strlit("constexpr std::ptrdiff_t ");
    reveal_strlit(" = ");
    reveal_strlit(";");
    lemma_hex_round_trip(value);
    let t = b.variable_text(name, value, comment, indentation);
    let w: nat = match indentation {
        Some(k) => k,
        None => 4,
    };
    let pre = spaces(w) + "constexpr std::ptrdiff_t "@ + name + " = "@;
    let lit = hex_literal(value);
    let post = ";"@ + cpp_comment_suffix(comment) + "\n"@;
    assert(t =~= pre + lit + post);
    assert(pre.len() == w + 25 + name.len() + 3);
    assert((pre + lit + post).subrange(pre.len() as int, (pre.len() + lit.len()) as int) =~= lit);
}

/// Appends the inline comment ` // c` when `comment` is `Some(c)`.
fn append_comment(output: &mut String, comment: Option<&str>)
    ensures
        final(output)@ == old(output)@ + cpp_comment_suffix(opt_chars(comment)),
{
    match comment {
        Some(c) => {
            output.append(" // ");
            output.append(c);
            assert(final(output)@ =~= old(output)@ + cpp_comment_suffix(opt_chars(comment)));
        },
        None => {
            assert(final(output)@ =~= old(output)@ + cpp_comment_suffix(opt_chars(comment)));
        },
    }
}

/// Appends `n` spaces.
fn append_spaces(output: &mut String, n: usize)
    ensures
        final(output)@ == old(output)@ + spaces(n as nat),
{
    let mut i: usize = 0;
    while i < n
        invariant
            i <= n,
            output@ == old(output)@ + spaces(i as nat),
        decreases n - i,
    {
        output.append(" ");
        proof {
            reveal_strlit(" ");
        }
        assert(output@ =~= old(output)@ + spaces((i + 1) as nat));
        i = i + 1;
    }
}

} // verus!
