//! The lexer: source text to a token stream, with maximal munch, keyword
//! classification, raw identifiers quoted as `@"..."`, and decimal integer
//! literals checked against the 64-bit range.  The exact token stream (or
//! failure) is given by [`spec_lex`]; token positions are carried for
//! diagnostics only.
use crate::parser::ParseError;
use crate::text::is_digit_char;
use crate::text::str_eq;
use vstd::prelude::*;

verus! {

/// One token of the source language.
pub enum Tok {
    Ident(String),
    Number(u64),
    KwVar,
    KwConst,
    KwExtern,
    KwFn,
    KwReturn,
    KwAs,
    LParen,
    RParen,
    LBrace,
    RBrace,
    Semi,
    Colon,
    Comma,
    Assign,
    Plus,
    Minus,
    Star,
    Slash,
    Percent,
    EqEq,
    NotEq,
}

/// Mathematical view of a token.
#[verifier::ext_equal]
pub enum TokV {
    Ident(Seq<char>),
    Number(u64),
    KwVar,
    KwConst,
    KwExtern,
    KwFn,
    KwReturn,
    KwAs,
    LParen,
    RParen,
    LBrace,
    RBrace,
    Semi,
    Colon,
    Comma,
    Assign,
    Plus,
    Minus,
    Star,
    Slash,
    Percent,
    EqEq,
    NotEq,
}

impl DeepView for Tok {
    type V = TokV;

    open spec fn deep_view(&self) -> TokV {
        match self {
            Tok::Ident(s) => TokV::Ident(s@),
            Tok::Number(n) => TokV::Number(*n),
            Tok::KwVar => TokV::KwVar,
            Tok::KwConst => TokV::KwConst,
            Tok::KwExtern => TokV::KwExtern,
            Tok::KwFn => TokV::KwFn,
            Tok::KwReturn => TokV::KwReturn,
            Tok::KwAs => TokV::KwAs,
            Tok::LParen => TokV::LParen,
            Tok::RParen => TokV::RParen,
            Tok::LBrace => TokV::LBrace,
            Tok::RBrace => TokV::RBrace,
            Tok::Semi => TokV::Semi,
            Tok::Colon => TokV::Colon,
            Tok::Comma => TokV::Comma,
            Tok::Assign => TokV::Assign,
            Tok::Plus => TokV::Plus,
            Tok::Minus => TokV::Minus,
            Tok::Star => TokV::Star,
            Tok::Slash => TokV::Slash,
            Tok::Percent => TokV::Percent,
            Tok::EqEq => TokV::EqEq,
            Tok::NotEq => TokV::NotEq,
        }
    }
}

/// A token with its 1-based source position and character length.
pub struct Token {
    pub tok: Tok,
    pub line: usize,
    pub col: usize,
    pub len: usize,
}

impl DeepView for Token {
    type V = TokV;

    open spec fn deep_view(&self) -> TokV {
        self.tok.deep_view()
    }
}

pub open spec fn is_space(c: char) -> bool {
    c == ' ' || c == '\t' || c == '\r' || c == '\n'
}

pub open spec fn is_ident_start(c: char) -> bool {
    ('a' <= c && c <= 'z') || ('A' <= c && c <= 'Z') || c == '_'
}

pub open spec fn is_ident_char(c: char) -> bool {
    is_ident_start(c) || is_digit_char(c)
}

/// The numeric value of a decimal digit character.
pub open spec fn digit_val(c: char) -> nat {
    if c == '0' {
        0
    } else if c == '1' {
        1
    } else if c == '2' {
        2
    } else if c == '3' {
        3
    } else if c == '4' {
        4
    } else if c == '5' {
        5
    } else if c == '6' {
        6
    } else if c == '7' {
        7
    } else if c == '8' {
        8
    } else {
        9
    }
}

/// The end of the identifier run starting at `i`.
pub open spec fn scan_ident_end(s: Seq<char>, i: int) -> int
    decreases s.len() - i,
{
    if 0 <= i < s.len() && is_ident_char(s[i]) {
        scan_ident_end(s, i + 1)
    } else {
        i
    }
}

/// The end of the digit run starting at `i`.
pub open spec fn scan_digits_end(s: Seq<char>, i: int) -> int
    decreases s.len() - i,
{
    if 0 <= i < s.len() && is_digit_char(s[i]) {
        scan_digits_end(s, i + 1)
    } else {
        i
    }
}

/// The position of the closing quote at or after `i`, or the text's length
/// when there is none.
pub open spec fn scan_quote_end(s: Seq<char>, i: int) -> int
    decreases s.len() - i,
{
    if 0 <= i < s.len() && s[i] != '"' {
        scan_quote_end(s, i + 1)
    } else {
        i
    }
}

/// The value of the digit run `s[i..j)` read in decimal.
pub open spec fn digits_val(s: Seq<char>, i: int, j: int) -> nat
    decreases j - i,
{
    if j <= i {
        0
    } else {
        digits_val(s, i, j - 1) * 10 + digit_val(s[j - 1])
    }
}

/// Reading more digits never decreases the value.
pub proof fn lemma_digits_val_mono(s: Seq<char>, i: int, j1: int, j2: int)
    requires
        j1 <= j2,
    ensures
        digits_val(s, i, j1) <= digits_val(s, i, j2),
    decreases j2 - j1,
{
    if j1 < j2 {
        lemma_digits_val_mono(s, i, j1, j2 - 1);
    }
}

/// A word is either a keyword or an identifier.
pub open spec fn word_tok(w: Seq<char>) -> TokV {
    if w == "var"@ {
        TokV::KwVar
    } else if w == "const"@ {
        TokV::KwConst
    } else if w == "extern"@ {
        TokV::KwExtern
    } else if w == "fn"@ {
        TokV::KwFn
    } else if w == "return"@ {
        TokV::KwReturn
    } else if w == "as"@ {
        TokV::KwAs
    } else {
        TokV::Ident(w)
    }
}

/// Prepends one token to an optional token stream.
pub open spec fn cons_tok(t: TokV, rest: Option<Seq<TokV>>) -> Option<Seq<TokV>> {
    match rest {
        Option::Some(r) => Option::Some(seq![t] + r),
        Option::None => Option::None,
    }
}

/// The token stream of the text from position `i` on, or `None` on a
/// character no token starts with, an unterminated raw identifier, a bare
/// `!`, or an integer literal beyond the 64-bit range.
pub open spec fn spec_lex(s: Seq<char>, i: int) -> Option<Seq<TokV>>
    decreases s.len() - i,
{
    if i < 0 || i >= s.len() {
        Option::Some(Seq::empty())
    } else {
        let c = s[i];
        if is_space(c) {
            spec_lex(s, i + 1)
        } else if is_digit_char(c) {
            let j = scan_digits_end(s, i);
            if j <= i || j > s.len() {
                Option::None
            } else if digits_val(s, i, j) > u64::MAX as nat {
                Option::None
            } else {
                cons_tok(TokV::Number(digits_val(s, i, j) as u64), spec_lex(s, j))
            }
        } else if is_ident_start(c) {
            let j = scan_ident_end(s, i);
            if j <= i || j > s.len() {
                Option::None
            } else {
                cons_tok(word_tok(s.subrange(i, j)), spec_lex(s, j))
            }
        } else if c == '@' {
            if i + 1 < s.len() && s[i + 1] == '"' {
                let j = scan_quote_end(s, i + 2);
                if j >= s.len() || j + 1 <= i {
                    Option::None
                } else {
                    cons_tok(TokV::Ident(s.subrange(i + 2, j)), spec_lex(s, j + 1))
                }
            } else {
                Option::None
            }
        } else if c == '=' {
            if i + 1 < s.len() && s[i + 1] == '=' {
                cons_tok(TokV::EqEq, spec_lex(s, i + 2))
            } else {
                cons_tok(TokV::Assign, spec_lex(s, i + 1))
            }
        } else if c == '!' {
            if i + 1 < s.len() && s[i + 1] == '=' {
                cons_tok(TokV::NotEq, spec_lex(s, i + 2))
            } else {
                Option::None
            }
        } else if c == '(' {
            cons_tok(TokV::LParen, spec_lex(s, i + 1))
        } else if c == ')' {
            cons_tok(TokV::RParen, spec_lex(s, i + 1))
        } else if c == '{' {
            cons_tok(TokV::LBrace, spec_lex(s, i + 1))
        } else if c == '}' {
            cons_tok(TokV::RBrace, spec_lex(s, i + 1))
        } else if c == ';' {
            cons_tok(TokV::Semi, spec_lex(s, i + 1))
        } else if c == ':' {
            cons_tok(TokV::Colon, spec_lex(s, i + 1))
        } else if c == ',' {
            cons_tok(TokV::Comma, spec_lex(s, i + 1))
        } else if c == '+' {
            cons_tok(TokV::Plus, spec_lex(s, i + 1))
        } else if c == '-' {
            cons_tok(TokV::Minus, spec_lex(s, i + 1))
        } else if c == '*' {
            cons_tok(TokV::Star, spec_lex(s, i + 1))
        } else if c == '/' {
            cons_tok(TokV::Slash, spec_lex(s, i + 1))
        } else if c == '%' {
            cons_tok(TokV::Percent, spec_lex(s, i + 1))
        } else {
            Option::None
        }
    }
}

/// The lexed prefix followed by the rest, when the rest lexes.
pub open spec fn lex_append(pre: Seq<TokV>, rest: Option<Seq<TokV>>) -> Option<Seq<TokV>> {
    match rest {
        Option::Some(r) => Option::Some(pre + r),
        Option::None => Option::None,
    }
}

/// Saturating addition for source positions.
fn sat_add(a: usize, b: usize) -> (r: usize)
    ensures
        r >= a || r == usize::MAX,
{
    if a <= usize::MAX - b {
        a + b
    } else {
        usize::MAX
    }
}

fn is_space_exec(c: char) -> (r: bool)
    ensures
        r == is_space(c),
{
    c == ' ' || c == '\t' || c == '\r' || c == '\n'
}

fn is_digit_exec(c: char) -> (r: bool)
    ensures
        r == is_digit_char(c),
{
    '0' <= c && c <= '9'
}

fn is_ident_start_exec(c: char) -> (r: bool)
    ensures
        r == is_ident_start(c),
{
    ('a' <= c && c <= 'z') || ('A' <= c && c <= 'Z') || c == '_'
}

fn is_ident_char_exec(c: char) -> (r: bool)
    ensures
        r == is_ident_char(c),
{
    is_ident_start_exec(c) || is_digit_exec(c)
}

fn digit_val_exec(c: char) -> (r: u64)
    requires
        is_digit_char(c),
    ensures
        r as nat == digit_val(c),
        r <= 9,
{
    if c == '0' {
        0
    } else if c == '1' {
        1
    } else if c == '2' {
        2
    } else if c == '3' {
        3
    } else if c == '4' {
        4
    } else if c == '5' {
        5
    } else if c == '6' {
        6
    } else if c == '7' {
        7
    } else if c == '8' {
        8
    } else {
        9
    }
}

/// Classifies a scanned word as a keyword or an identifier.
fn word_to_tok(w: String) -> (r: Tok)
    ensures
        r.deep_view() == word_tok(w@),
{
    proof {
        reveal_strlit("var");
        reveal_strlit("const");
        reveal_strlit("extern");
        reveal_strlit("fn");
        reveal_strlit("return");
        reveal_strlit("as");
    }
    if str_eq(w.as_str(), "var") {
        Tok::KwVar
    } else if str_eq(w.as_str(), "const") {
        Tok::KwConst
    } else if str_eq(w.as_str(), "extern") {
        Tok::KwExtern
    } else if str_eq(w.as_str(), "fn") {
        Tok::KwFn
    } else if str_eq(w.as_str(), "return") {
        Tok::KwReturn
    } else if str_eq(w.as_str(), "as") {
        Tok::KwAs
    } else {
        Tok::Ident(w)
    }
}

/// Lexes the whole text; the resulting tokens are exactly those of
/// [`spec_lex`], and lexing fails exactly when it says so.
pub fn lex(code: &str) -> (r: Result<Vec<Token>, ParseError>)
    ensures
        match spec_lex(code@, 0) {
            Option::Some(ts) => r matches Result::Ok(v) && v.deep_view() == ts,
            Option::None => r is Err,
        },
{
    let n = code.unicode_len();
    let mut toks: Vec<Token> = Vec::new();
    let mut i: usize = 0;
    let mut line: usize = 1;
    let mut col: usize = 1;
    proof {
        assert(toks.deep_view() =~= Seq::<TokV>::empty());
    }
    while i < n
        invariant
            i <= n,
            n == code@.len(),
            spec_lex(code@, 0) == lex_append(toks.deep_view(), spec_lex(code@, i as int)),
        decreases n - i,
    {
        let ghost s = code@;
        let ghost pre = toks.deep_view();
        let c = code.get_char(i);
        if is_space_exec(c) {
            if c == '\n' {
                line = sat_add(line, 1);
                col = 1;
            } else {
                col = sat_add(col, 1);
            }
            i = i + 1;
        } else if is_digit_exec(c) {
            let start = i;
            let mut j = i;
            let mut acc: u64 = 0;
            let mut overflow = false;
            while j < n && !overflow && is_digit_exec(code.get_char(j))
                invariant
                    start <= j <= n,
                    n == code@.len(),
                    start < n,
                    is_digit_char(code@[start as int]),
                    !overflow ==> scan_digits_end(code@, start as int) == scan_digits_end(
                        code@,
                        j as int,
                    ),
                    !overflow ==> acc as nat == digits_val(code@, start as int, j as int),
                    overflow ==> digits_val(
                        code@,
                        start as int,
                        scan_digits_end(code@, start as int),
                    ) > u64::MAX as nat,
                    j == start ==> !overflow,
                decreases n - j + (if overflow {
                    0int
                } else {
                    1int
                }),
            {
                let ch = code.get_char(j);
                let d = digit_val_exec(ch);
                if acc <= (u64::MAX - d) / 10 {
                    acc = acc * 10 + d;
                    j = j + 1;
                } else {
                    proof {
                        assert(digits_val(code@, start as int, j + 1) == acc as nat * 10
                            + digit_val(code@[j as int]));
                        assert(digits_val(code@, start as int, j + 1) > u64::MAX as nat)
                            by (nonlinear_arith)
                            requires
                                digits_val(code@, start as int, j + 1) == acc as nat * 10
                                    + digit_val(code@[j as int]),
                                acc as nat > ((u64::MAX - digit_val(code@[j as int])) as nat) / 10,
                                digit_val(code@[j as int]) <= 9,
                        ;
                        assert(scan_digits_end(code@, j as int) == scan_digits_end(
                            code@,
                            j + 1,
                        ));
                        lemma_scan_digits_ge(code@, j + 1);
                        let jend = scan_digits_end(code@, start as int);
                        lemma_digits_val_mono(code@, start as int, j + 1, jend);
                    }
                    overflow = true;
                    j = j + 1;
                }
            }
            if overflow {
                proof {
                    assert(scan_digits_end(s, start as int) == scan_digits_end(s, start + 1));
                    lemma_scan_digits_ge(s, start + 1);
                }
                return Result::Err(ParseError { line, col });
            }
            proof {
                assert(scan_digits_end(s, j as int) == j);
                assert(scan_digits_end(s, start as int) == j);
                assert(j > start);
            }
            toks.push(Token { tok: Tok::Number(acc), line, col, len: j - start });
            col = sat_add(col, j - start);
            i = j;
            proof {
                assert(toks.deep_view() =~= pre.push(TokV::Number(acc)));
                lemma_lex_step(pre, TokV::Number(acc), toks.deep_view(), s, start as int, i as int);
            }
        } else if is_ident_start_exec(c) {
            let start = i;
            let mut j = i + 1;
            proof {
                assert(scan_ident_end(s, start as int) == scan_ident_end(s, start + 1));
            }
            while j < n && is_ident_char_exec(code.get_char(j))
                invariant
                    start < j <= n,
                    n == code@.len(),
                    scan_ident_end(code@, start as int) == scan_ident_end(code@, j as int),
                decreases n - j,
            {
                j = j + 1;
            }
            proof {
                assert(scan_ident_end(s, j as int) == j);
                assert(scan_ident_end(s, start as int) == j);
            }
            let word = String::from_str(code.substring_char(start, j));
            let t = word_to_tok(word);
            let ghost tv = t.deep_view();
            toks.push(Token { tok: t, line, col, len: j - start });
            col = sat_add(col, j - start);
            i = j;
            proof {
                assert(toks.deep_view() =~= pre.push(tv));
                lemma_lex_step(pre, tv, toks.deep_view(), s, start as int, i as int);
            }
        } else if c == '@' {
            if i + 1 < n && code.get_char(i + 1) == '"' {
                let start = i;
                let mut j = i + 2;
                while j < n && code.get_char(j) != '"'
                    invariant
                        start + 2 <= j <= n,
                        n == code@.len(),
                        scan_quote_end(code@, start + 2) == scan_quote_end(code@, j as int),
                    decreases n - j,
                {
                    j = j + 1;
                }
                proof {
                    assert(scan_quote_end(s, j as int) == j);
                    assert(scan_quote_end(s, start + 2) == j);
                }
                if j >= n {
                    return Result::Err(ParseError { line, col });
                }
                let word = String::from_str(code.substring_char(start + 2, j));
                toks.push(
                    Token { tok: Tok::Ident(word), line, col, len: j + 1 - start },
                );
                col = sat_add(col, j + 1 - start);
                i = j + 1;
                proof {
                    assert(toks.deep_view() =~= pre.push(TokV::Ident(s.subrange(start + 2, j as int))));
                    lemma_lex_step(
                        pre,
                        TokV::Ident(s.subrange(start + 2, j as int)),
                        toks.deep_view(),
                        s,
                        start as int,
                        i as int,
                    );
                }
            } else {
                return Result::Err(ParseError { line, col });
            }
        } else {
            let two = if c == '=' && i + 1 < n && code.get_char(i + 1) == '=' {
                Option::Some(Tok::EqEq)
            } else if c == '!' && i + 1 < n && code.get_char(i + 1) == '=' {
                Option::Some(Tok::NotEq)
            } else {
                Option::None
            };
            match two {
                Option::Some(t) => {
                    let ghost tv = t.deep_view();
                    let ghost start = i;
                    toks.push(Token { tok: t, line, col, len: 2 });
                    col = sat_add(col, 2);
                    i = i + 2;
                    proof {
                        assert(toks.deep_view() =~= pre.push(tv));
                        lemma_lex_step(pre, tv, toks.deep_view(), s, start as int, i as int);
                    }
                },
                Option::None => {
                    let one = if c == '=' {
                        Option::Some(Tok::Assign)
                    } else if c == '(' {
                        Option::Some(Tok::LParen)
                    } else if c == ')' {
                        Option::Some(Tok::RParen)
                    } else if c == '{' {
                        Option::Some(Tok::LBrace)
                    } else if c == '}' {
                        Option::Some(Tok::RBrace)
                    } else if c == ';' {
                        Option::Some(Tok::Semi)
                    } else if c == ':' {
                        Option::Some(Tok::Colon)
                    } else if c == ',' {
                        Option::Some(Tok::Comma)
                    } else if c == '+' {
                        Option::Some(Tok::Plus)
                    } else if c == '-' {
                        Option::Some(Tok::Minus)
                    } else if c == '*' {
                        Option::Some(Tok::Star)
                    } else if c == '/' {
                        Option::Some(Tok::Slash)
                    } else if c == '%' {
                        Option::Some(Tok::Percent)
                    } else {
                        Option::None
                    };
                    match one {
                        Option::Some(t) => {
                            let ghost tv = t.deep_view();
                            let ghost start = i;
                            toks.push(Token { tok: t, line, col, len: 1 });
                            col = sat_add(col, 1);
                            i = i + 1;
                            proof {
                                assert(toks.deep_view() =~= pre.push(tv));
                                lemma_lex_step(
                                    pre,
                                    tv,
                                    toks.deep_view(),
                                    s,
                                    start as int,
                                    i as int,
                                );
                            }
                        },
                        Option::None => {
                            return Result::Err(ParseError { line, col });
                        },
                    }
                },
            }
        }
    }
    proof {
        assert(spec_lex(code@, n as int) == Option::Some(Seq::<TokV>::empty()));
        assert(toks.deep_view() + Seq::<TokV>::empty() =~= toks.deep_view());
    }
    Result::Ok(toks)
}

/// A digit run's end never lies before its start, nor past the text.
proof fn lemma_scan_digits_ge(s: Seq<char>, i: int)
    ensures
        scan_digits_end(s, i) >= i,
        i <= s.len() ==> scan_digits_end(s, i) <= s.len(),
    decreases s.len() - i,
{
    if 0 <= i < s.len() && is_digit_char(s[i]) {
        lemma_scan_digits_ge(s, i + 1);
    }
}

/// One lexing step: when the spec stream at `start` begins with the token
/// just pushed and continues at `next`, the accumulated prefix keeps pace.
proof fn lemma_lex_step(
    pre: Seq<TokV>,
    t: TokV,
    now: Seq<TokV>,
    s: Seq<char>,
    start: int,
    next: int,
)
    requires
        now == pre.push(t),
        spec_lex(s, start) == cons_tok(t, spec_lex(s, next)),
    ensures
        lex_append(pre, spec_lex(s, start)) == lex_append(now, spec_lex(s, next)),
{
    match spec_lex(s, next) {
        Option::Some(r) => {
            assert(pre + (seq![t] + r) =~= (pre.push(t)) + r);
        },
        Option::None => {},
    }
}

} // verus!
