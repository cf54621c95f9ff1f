//! The grammar parser: source text is lexed into tokens and parsed by
//! recursive descent into the abstract syntax tree.  The exact result is
//! given by the spec grammar in [`grammar`]: the parser succeeds with an AST
//! whose semantic view equals the spec parse exactly when the spec parse
//! succeeds.  Node spans are carried for diagnostics only.
pub mod grammar;
pub mod lex;

mod decl;
mod exp;
mod stmt;

use crate::ast::Block;
use crate::ast::BlockItem;
use crate::ast::CompUnit;
use crate::ast::GlobalItem;
use crate::ast::Span;
use crate::ast::SpanV;
use crate::ast::Type;
use crate::ast::TypeEnum;
use crate::ast::block_sem;
use crate::ast::comp_unit_sem;
use crate::parser::grammar::p_block;
use crate::parser::grammar::p_block_items;
use crate::parser::grammar::p_comp_unit;
use crate::parser::grammar::p_type;
use crate::parser::grammar::scan_stars;
use crate::parser::lex::Tok;
use crate::parser::lex::TokV;
use crate::parser::lex::Token;
use crate::parser::lex::lex;
use crate::parser::lex::spec_lex;
use crate::text::dec_str;
use crate::text::str_eq;
use crate::text::u64_to_string;
use vstd::prelude::*;

verus! {

/// A fatal grammar error with the position where parsing stopped; unlike
/// semantic errors it is never collected, and the driver aborts on it.
pub struct ParseError {
    pub line: usize,
    pub col: usize,
}

impl ParseError {
    /// A one-line description of this error.
    pub fn show(&self) -> (r: String)
        ensures
            r@ == "syntax error at "@ + dec_str(self.line as nat) + ":"@ + dec_str(
                self.col as nat,
            ),
    {
        proof {
            reveal_strlit("syntax error at ");
            reveal_strlit(":");
        }
        let mut r = String::from_str("syntax error at ");
        let l = u64_to_string(self.line as u64);
        r.append(l.as_str());
        r.append(":");
        let c = u64_to_string(self.col as u64);
        r.append(c.as_str());
        proof {
            assert(r@ =~= "syntax error at "@ + dec_str(self.line as nat) + ":"@ + dec_str(
                self.col as nat,
            ));
        }
        r
    }
}

/// What parsing a text must produce: the token stream must lex, the token
/// stream must derive a compilation unit, and every token must be consumed.
pub open spec fn spec_parse(s: Seq<char>) -> Option<crate::ast::CompUnitV> {
    match spec_lex(s, 0) {
        Option::Some(ts) => match p_comp_unit(ts, 0) {
            Option::Some((u, j)) => Option::Some(u),
            Option::None => Option::None,
        },
        Option::None => Option::None,
    }
}

/// The column one past a token's last character, clamped at the machine
/// limit.
pub open spec fn token_end_col(t: Token) -> usize {
    if t.col + t.len <= usize::MAX {
        (t.col + t.len) as usize
    } else {
        usize::MAX
    }
}

/// The span of the token range `i..=j`: it starts at token `i`'s recorded
/// line and column, ends one past token `j`'s last column, and quotes the
/// starting token's source line (out-of-range positions degrade to line 1,
/// column 1 and an empty quote).
pub open spec fn spec_span_of(
    toks: Seq<Token>,
    lines: Seq<Seq<char>>,
    i: int,
    j: int,
    file: Seq<char>,
) -> SpanV {
    let start = if 0 <= i < toks.len() {
        (toks[i].line, toks[i].col)
    } else {
        (1usize, 1usize)
    };
    let end = if 0 <= j < toks.len() {
        (toks[j].line, token_end_col(toks[j]))
    } else {
        start
    };
    let text = if start.0 >= 1 && start.0 - 1 < lines.len() {
        lines[start.0 - 1]
    } else {
        Seq::<char>::empty()
    };
    SpanV { start, end, string: text, file }
}

/// The position a parse error reports: the offending token's start, or one
/// past the last token when the input ended too early.
pub open spec fn spec_err_at(toks: Seq<Token>, pos: int) -> (usize, usize) {
    if 0 <= pos < toks.len() {
        (toks[pos].line, toks[pos].col)
    } else if toks.len() > 0 {
        (toks[toks.len() - 1].line, token_end_col(toks[toks.len() - 1]))
    } else {
        (1usize, 1usize)
    }
}

/// The first newline at or after `i`, or the text's length when none is
/// left.
pub open spec fn find_newline(s: Seq<char>, i: int) -> int
    decreases s.len() - i,
{
    if 0 <= i < s.len() && s[i] != '\n' {
        find_newline(s, i + 1)
    } else {
        i
    }
}

/// The lines of the text from position `i` on, split at newlines, without
/// the terminators; the text after the last newline is a line too.
pub open spec fn spec_lines(s: Seq<char>, i: int) -> Seq<Seq<char>>
    decreases s.len() - i,
{
    let j = find_newline(s, i);
    if j < i || j > s.len() {
        Seq::empty()
    } else if j >= s.len() {
        seq![s.subrange(i, s.len() as int)]
    } else {
        seq![s.subrange(i, j)] + spec_lines(s, j + 1)
    }
}

/// The grammar parser: holds the source text and the file name used for
/// diagnostics.
pub struct CParser {
    code: String,
    file: String,
}

impl CParser {
    pub fn new(code: String, file: String) -> (r: Self)
        ensures
            r.spec_code() == code@,
            r.spec_file() == file@,
    {
        Self { code, file }
    }

    pub closed spec fn spec_code(&self) -> Seq<char> {
        self.code@
    }

    pub closed spec fn spec_file(&self) -> Seq<char> {
        self.file@
    }

    /// Parses the source text into a compilation unit.  The semantic view of
    /// the result is exactly the spec parse of the text; a text the grammar
    /// does not derive is a fatal parse error.
    #[verifier::rlimit(80)]
    pub fn parse(&self) -> (r: Result<CompUnit, ParseError>)
        ensures
            match spec_parse(self.spec_code()) {
                Option::Some(u) => r matches Result::Ok(ast) && comp_unit_sem(ast) == u,
                Option::None => r is Err,
            },
    {
        let toks = match lex(self.code.as_str()) {
            Result::Ok(ts) => ts,
            Result::Err(e) => {
                return Result::Err(e);
            },
        };
        let lines = split_lines(self.code.as_str());
        let mut items: Vec<GlobalItem> = Vec::new();
        let mut pos: usize = 0;
        proof {
            assert(crate::ast::global_items_sem(items@) =~= Seq::<
                crate::ast::GlobalItemV,
            >::empty());
            match p_comp_unit(toks.deep_view(), 0) {
                Option::Some((u, j)) => {
                    assert(crate::ast::global_items_sem(items@) + u.global_items
                        =~= u.global_items);
                },
                Option::None => {},
            }
        }
        while pos < toks.len()
            invariant
                pos <= toks.len(),
                spec_lex(self.spec_code(), 0) == Option::Some(toks.deep_view()),
                match p_comp_unit(toks.deep_view(), 0) {
                    Option::Some((u, j)) => p_comp_unit(toks.deep_view(), pos as int)
                        matches Option::Some((u2, j2)) && u.global_items
                        == crate::ast::global_items_sem(items@) + u2.global_items && j == j2,
                    Option::None => p_comp_unit(toks.deep_view(), pos as int) is None,
                },
            decreases toks.len() - pos,
        {
            let ghost pre_items = items@;
            let decl = match self.parse_decl(&toks, &lines, pos) {
                Result::Ok(d) => d,
                Result::Err(e) => {
                    return Result::Err(e);
                },
            };
            let (d, np) = decl;
            proof {
                lemma_global_items_sem_snoc(pre_items, GlobalItem::Decl(d));
            }
            items.push(GlobalItem::Decl(d));
            pos = np;
            proof {
                let ts = toks.deep_view();
                let gpre = crate::ast::global_items_sem(pre_items);
                let dv = crate::ast::GlobalItemV::Decl(Box::new(crate::ast::decl_sem(d)));
                assert(crate::ast::global_items_sem(items@) == gpre.push(dv));
                match p_comp_unit(ts, 0) {
                    Option::Some((u, j)) => {
                        let u3 = p_comp_unit(ts, pos as int)->Some_0.0;
                        assert(gpre + (seq![dv] + u3.global_items) =~= gpre.push(dv)
                            + u3.global_items);
                        assert(crate::ast::global_items_sem(items@) + u3.global_items
                            =~= u.global_items);
                    },
                    Option::None => {},
                }
            }
        }
        let span = self.whole_span(&toks, &lines);
        let unit = CompUnit { global_items: items, span };
        proof {
            assert(crate::ast::global_items_sem(unit.global_items@) + Seq::<
                crate::ast::GlobalItemV,
            >::empty() =~= crate::ast::global_items_sem(unit.global_items@));
            match spec_parse(self.spec_code()) {
                Option::Some(u) => {
                    assert(comp_unit_sem(unit) =~= u);
                },
                Option::None => {},
            }
        }
        Result::Ok(unit)
    }

    /// The span of the whole source: from the first token to the last.
    fn whole_span(&self, toks: &Vec<Token>, lines: &Vec<String>) -> (r: Span)
        ensures
            r.deep_view() == (if toks@.len() == 0 {
                SpanV {
                    start: (1usize, 1usize),
                    end: (1usize, 1usize),
                    string: Seq::<char>::empty(),
                    file: self.spec_file(),
                }
            } else {
                spec_span_of(toks@, lines.deep_view(), 0, toks@.len() - 1, self.spec_file())
            }),
    {
        if toks.len() == 0 {
            let r = Span::new((1, 1), (1, 1), String::new(), self.file.clone());
            proof {
                assert(r.deep_view() =~= SpanV {
                    start: (1usize, 1usize),
                    end: (1usize, 1usize),
                    string: Seq::<char>::empty(),
                    file: self.spec_file(),
                });
            }
            r
        } else {
            self.span_of(toks, lines, 0, toks.len() - 1)
        }
    }

    /// The span from token `i` to token `j` inclusive, with the first
    /// token's source line as the quoted text.
    pub fn span_of(&self, toks: &Vec<Token>, lines: &Vec<String>, i: usize, j: usize) -> (r: Span)
        ensures
            r.deep_view() == spec_span_of(
                toks@,
                lines.deep_view(),
                i as int,
                j as int,
                self.spec_file(),
            ),
    {
        let (sl, sc) = if i < toks.len() {
            (toks[i].line, toks[i].col)
        } else {
            (1, 1)
        };
        let (el, ec) = if j < toks.len() {
            let e = &toks[j];
            (e.line, if e.col <= usize::MAX - e.len {
                e.col + e.len
            } else {
                usize::MAX
            })
        } else {
            (sl, sc)
        };
        let text = if sl >= 1 && sl - 1 < lines.len() {
            lines[sl - 1].clone()
        } else {
            String::new()
        };
        let r = Span::new((sl, sc), (el, ec), text, self.file.clone());
        proof {
            assert(r.deep_view() =~= spec_span_of(
                toks@,
                lines.deep_view(),
                i as int,
                j as int,
                self.spec_file(),
            ));
        }
        r
    }

    /// The span of the single token at `i`.
    pub fn token_span(&self, toks: &Vec<Token>, lines: &Vec<String>, i: usize) -> (r: Span)
        ensures
            r.deep_view() == spec_span_of(
                toks@,
                lines.deep_view(),
                i as int,
                i as int,
                self.spec_file(),
            ),
    {
        self.span_of(toks, lines, i, i)
    }

    /// Parses a block: `{` followed by statements and declarations, then
    /// `}`.
    #[verifier::rlimit(100)]
    #[verifier::spinoff_prover]
    pub fn parse_block(&self, toks: &Vec<Token>, lines: &Vec<String>, pos: usize) -> (r: Result<
        (Block, usize),
        ParseError,
    >)
        requires
            pos <= toks.len(),
        ensures
            match p_block(toks.deep_view(), pos as int) {
                Option::Some((b, j)) => r matches Result::Ok((node, np)) && block_sem(node) == b
                    && np == j && pos < np <= toks.len(),
                Option::None => r is Err,
            },
        decreases toks.len() - pos, 25int,
    {
        if pos >= toks.len() {
            return Result::Err(self.err_at(toks, pos));
        }
        match &toks[pos].tok {
            Tok::LBrace => {},
            _ => {
                return Result::Err(self.err_at(toks, pos));
            },
        }
        let mut items: Vec<BlockItem> = Vec::new();
        let mut cur: usize = pos + 1;
        proof {
            assert(crate::ast::block_items_sem(items@) =~= Seq::<crate::ast::BlockItemV>::empty());
            match p_block_items(toks.deep_view(), pos + 1) {
                Option::Some((its, j)) => {
                    assert(crate::ast::block_items_sem(items@) + its =~= its);
                },
                Option::None => {},
            }
        }
        while cur < toks.len() && !(matches!(&toks[cur].tok, Tok::RBrace))
            invariant
                pos < cur <= toks.len(),
                pos < toks.len(),
                toks.deep_view()[pos as int] == TokV::LBrace,
                match p_block_items(toks.deep_view(), cur as int) {
                    Option::Some((its, j)) => p_block_items(toks.deep_view(), pos + 1)
                        matches Option::Some((its0, j0)) && its0
                        == crate::ast::block_items_sem(items@) + its && j0 == j,
                    Option::None => p_block_items(toks.deep_view(), pos + 1) is None,
                },
            decreases toks.len() - cur,
        {
            let ghost pre_items = items@;
            let is_decl = match &toks[cur].tok {
                Tok::KwVar => true,
                Tok::KwConst => true,
                _ => false,
            };
            let (item, np): (BlockItem, usize) = if is_decl {
                match self.parse_decl(toks, lines, cur) {
                    Result::Ok((d, np)) => (BlockItem::Declaration(d), np),
                    Result::Err(e) => {
                        return Result::Err(e);
                    },
                }
            } else {
                match self.parse_statement(toks, lines, cur) {
                    Result::Ok((st, np)) => (BlockItem::Statement(st), np),
                    Result::Err(e) => {
                        return Result::Err(e);
                    },
                }
            };
            proof {
                reveal_with_fuel(crate::ast::block_item_sem, 2);
                lemma_block_items_sem_snoc(pre_items, item);
            }
            items.push(item);
            cur = np;
            proof {
                reveal_with_fuel(crate::ast::block_item_sem, 2);
                let ts = toks.deep_view();
                let bpre = crate::ast::block_items_sem(pre_items);
                let iv = crate::ast::block_item_sem(item);
                assert(crate::ast::block_items_sem(items@) == bpre.push(iv));
                match p_block_items(ts, pos + 1) {
                    Option::Some((its0, j0)) => {
                        let its_next = p_block_items(ts, cur as int)->Some_0.0;
                        assert(bpre + (seq![iv] + its_next) =~= bpre.push(iv) + its_next);
                        assert(crate::ast::block_items_sem(items@) + its_next =~= its0);
                    },
                    Option::None => {},
                }
            }
        }
        if cur >= toks.len() {
            return Result::Err(self.err_at(toks, cur));
        }
        let span = self.span_of(toks, lines, pos, cur);
        let b = Block { items, span };
        proof {
            assert(crate::ast::block_items_sem(b.items@) + Seq::<
                crate::ast::BlockItemV,
            >::empty() =~= crate::ast::block_items_sem(b.items@));
            match p_block(toks.deep_view(), pos as int) {
                Option::Some((bv, j)) => {
                    assert(block_sem(b) =~= bv);
                },
                Option::None => {},
            }
        }
        Result::Ok((b, cur + 1))
    }

    /// Parses a type: a primitive name followed by pointer markers.
    pub fn parse_type(&self, toks: &Vec<Token>, lines: &Vec<String>, pos: usize) -> (r: Result<
        (Type, usize),
        ParseError,
    >)
        requires
            pos <= toks.len(),
        ensures
            match p_type(toks.deep_view(), pos as int) {
                Option::Some((t, j)) => r matches Result::Ok((node, np)) && node.deep_view() == t
                    && np == j && pos < np <= toks.len(),
                Option::None => r is Err,
            },
    {
        proof {
            reveal_strlit("u64");
            reveal_strlit("u32");
            reveal_strlit("u16");
            reveal_strlit("u8");
            reveal_strlit("i64");
            reveal_strlit("i32");
            reveal_strlit("i16");
            reveal_strlit("i8");
            reveal_strlit("void");
        }
        if pos >= toks.len() {
            return Result::Err(self.err_at(toks, pos));
        }
        let base = match &toks[pos].tok {
            Tok::Ident(w) => {
                if str_eq(w.as_str(), "u64") {
                    TypeEnum::U64
                } else if str_eq(w.as_str(), "u32") {
                    TypeEnum::U32
                } else if str_eq(w.as_str(), "u16") {
                    TypeEnum::U16
                } else if str_eq(w.as_str(), "u8") {
                    TypeEnum::U8
                } else if str_eq(w.as_str(), "i64") {
                    TypeEnum::I64
                } else if str_eq(w.as_str(), "i32") {
                    TypeEnum::I32
                } else if str_eq(w.as_str(), "i16") {
                    TypeEnum::I16
                } else if str_eq(w.as_str(), "i8") {
                    TypeEnum::I8
                } else if str_eq(w.as_str(), "void") {
                    TypeEnum::Void
                } else {
                    return Result::Err(self.err_at(toks, pos));
                }
            },
            _ => {
                return Result::Err(self.err_at(toks, pos));
            },
        };
        let mut j = pos + 1;
        while j < toks.len() && matches!(&toks[j].tok, Tok::Star)
            invariant
                pos + 1 <= j <= toks.len(),
                scan_stars(toks.deep_view(), pos + 1) == scan_stars(toks.deep_view(), j as int),
            decreases toks.len() - j,
        {
            j = j + 1;
        }
        proof {
            assert(scan_stars(toks.deep_view(), j as int) == j);
        }
        let span = self.span_of(toks, lines, pos, j - 1);
        let t = Type { ty: base, star: j - (pos + 1), span };
        Result::Ok((t, j))
    }

    /// A parse error at the position of token `pos` (or at the very end).
    pub fn err_at(&self, toks: &Vec<Token>, pos: usize) -> (r: ParseError)
        ensures
            (r.line, r.col) == spec_err_at(toks@, pos as int),
    {
        if pos < toks.len() {
            ParseError { line: toks[pos].line, col: toks[pos].col }
        } else if toks.len() > 0 {
            let t = &toks[toks.len() - 1];
            ParseError {
                line: t.line,
                col: if t.col <= usize::MAX - t.len {
                    t.col + t.len
                } else {
                    usize::MAX
                },
            }
        } else {
            ParseError { line: 1, col: 1 }
        }
    }
}

/// The source text split into lines, without the line terminators; used only
/// to quote the offending line in diagnostics.
fn split_lines(code: &str) -> (r: Vec<String>)
    ensures
        r.deep_view() == spec_lines(code@, 0),
{
    let n = code.unicode_len();
    let mut lines: Vec<String> = Vec::new();
    let mut start: usize = 0;
    let mut i: usize = 0;
    proof {
        assert(lines.deep_view() =~= Seq::<Seq<char>>::empty());
        assert(lines.deep_view() + spec_lines(code@, 0) =~= spec_lines(code@, 0));
    }
    while i < n
        invariant
            start <= i <= n,
            n == code@.len(),
            find_newline(code@, start as int) == find_newline(code@, i as int),
            spec_lines(code@, 0) == lines.deep_view() + spec_lines(code@, start as int),
        decreases n - i,
    {
        if code.get_char(i) == '\n' {
            let ghost pre = lines.deep_view();
            lines.push(String::from_str(code.substring_char(start, i)));
            proof {
                assert(find_newline(code@, i as int) == i);
                assert(lines.deep_view() =~= pre.push(code@.subrange(start as int, i as int)));
                assert(pre + (seq![code@.subrange(start as int, i as int)] + spec_lines(
                    code@,
                    i + 1,
                )) =~= lines.deep_view() + spec_lines(code@, i + 1));
                assert(spec_lines(code@, 0) == lines.deep_view() + spec_lines(code@, i + 1));
            }
            start = i + 1;
        }
        i = i + 1;
    }
    let ghost pre = lines.deep_view();
    lines.push(String::from_str(code.substring_char(start, n)));
    proof {
        assert(find_newline(code@, n as int) == n);
        assert(find_newline(code@, start as int) == n);
        assert(spec_lines(code@, start as int) =~= seq![
            code@.subrange(start as int, n as int),
        ]);
        assert(lines.deep_view() =~= pre.push(code@.subrange(start as int, n as int)));
        assert(lines.deep_view() =~= pre + spec_lines(code@, start as int));
        assert(lines.deep_view() =~= spec_lines(code@, 0));
    }
    lines
}

proof fn lemma_global_items_sem_len(items: Seq<GlobalItem>)
    ensures
        crate::ast::global_items_sem(items).len() == items.len(),
    decreases items,
{
    if items.len() > 0 {
        lemma_global_items_sem_len(items.drop_first());
    }
}

proof fn lemma_global_items_sem_index(items: Seq<GlobalItem>, i: int)
    requires
        0 <= i < items.len(),
    ensures
        crate::ast::global_items_sem(items)[i] == crate::ast::global_item_sem(items[i]),
    decreases items,
{
    lemma_global_items_sem_len(items.drop_first());
    if i > 0 {
        lemma_global_items_sem_index(items.drop_first(), i - 1);
        assert(items.drop_first()[i - 1] == items[i]);
    }
}

proof fn lemma_global_items_sem_snoc(items: Seq<GlobalItem>, x: GlobalItem)
    ensures
        crate::ast::global_items_sem(items.push(x)) == crate::ast::global_items_sem(items).push(
            crate::ast::global_item_sem(x),
        ),
{
    lemma_global_items_sem_len(items.push(x));
    lemma_global_items_sem_len(items);
    assert forall|i: int| 0 <= i < items.push(x).len() implies crate::ast::global_items_sem(
        items.push(x),
    )[i] == crate::ast::global_items_sem(items).push(crate::ast::global_item_sem(x))[i] by {
        lemma_global_items_sem_index(items.push(x), i);
        if i < items.len() {
            lemma_global_items_sem_index(items, i);
            assert(items.push(x)[i] == items[i]);
        } else {
            assert(items.push(x)[i] == x);
        }
    }
    assert(crate::ast::global_items_sem(items.push(x)) =~= crate::ast::global_items_sem(
        items,
    ).push(crate::ast::global_item_sem(x)));
}

proof fn lemma_block_items_sem_len(items: Seq<BlockItem>)
    ensures
        crate::ast::block_items_sem(items).len() == items.len(),
    decreases items,
{
    if items.len() > 0 {
        lemma_block_items_sem_len(items.drop_first());
    }
}

proof fn lemma_block_items_sem_index(items: Seq<BlockItem>, i: int)
    requires
        0 <= i < items.len(),
    ensures
        crate::ast::block_items_sem(items)[i] == crate::ast::block_item_sem(items[i]),
    decreases items,
{
    lemma_block_items_sem_len(items.drop_first());
    if i > 0 {
        lemma_block_items_sem_index(items.drop_first(), i - 1);
        assert(items.drop_first()[i - 1] == items[i]);
    }
}

proof fn lemma_block_items_sem_snoc(items: Seq<BlockItem>, x: BlockItem)
    ensures
        crate::ast::block_items_sem(items.push(x)) == crate::ast::block_items_sem(items).push(
            crate::ast::block_item_sem(x),
        ),
{
    lemma_block_items_sem_len(items.push(x));
    lemma_block_items_sem_len(items);
    assert forall|i: int| 0 <= i < items.push(x).len() implies crate::ast::block_items_sem(
        items.push(x),
    )[i] == crate::ast::block_items_sem(items).push(crate::ast::block_item_sem(x))[i] by {
        lemma_block_items_sem_index(items.push(x), i);
        if i < items.len() {
            lemma_block_items_sem_index(items, i);
            assert(items.push(x)[i] == items[i]);
        } else {
            assert(items.push(x)[i] == x);
        }
    }
    assert(crate::ast::block_items_sem(items.push(x)) =~= crate::ast::block_items_sem(items).push(
        crate::ast::block_item_sem(x),
    ));
}

} // verus!
