//! Recursive-descent expression parsing, one method per precedence level,
//! verified against the spec grammar.  Each operator node's span covers its
//! own operator text, as the level that created it saw it.
use crate::ast::BinaryOp;
use crate::ast::ConstExp;
use crate::ast::Exp;
use crate::ast::LVal;
use crate::ast::Number;
use crate::ast::UnaryOp;
use crate::ast::exp_list_sem;
use crate::ast::exp_sem;
use crate::parser::CParser;
use crate::parser::ParseError;
use crate::parser::grammar::p_add;
use crate::parser::grammar::p_add_tail;
use crate::parser::grammar::p_args;
use crate::parser::grammar::p_eq_tail;
use crate::parser::grammar::p_exp;
use crate::parser::grammar::p_mul;
use crate::parser::grammar::p_mul_tail;
use crate::parser::grammar::p_postfix;
use crate::parser::grammar::p_postfix_tail;
use crate::parser::grammar::p_prefix;
use crate::parser::grammar::p_primary;
use crate::parser::lex::Tok;
use crate::parser::lex::TokV;
use crate::parser::lex::Token;
use vstd::prelude::*;

verus! {

/// The parsed views of a list: as many as the expressions, one each.
pub proof fn lemma_exp_list_sem_len(es: Seq<Exp>)
    ensures
        exp_list_sem(es).len() == es.len(),
    decreases es,
{
    if es.len() > 0 {
        lemma_exp_list_sem_len(es.drop_first());
    }
}

pub proof fn lemma_exp_list_sem_index(es: Seq<Exp>, i: int)
    requires
        0 <= i < es.len(),
    ensures
        exp_list_sem(es)[i] == exp_sem(es[i]),
    decreases es,
{
    lemma_exp_list_sem_len(es.drop_first());
    if i > 0 {
        lemma_exp_list_sem_index(es.drop_first(), i - 1);
        assert(es.drop_first()[i - 1] == es[i]);
    }
}

/// Appending one expression to a parsed list appends its view.
pub proof fn lemma_exp_list_sem_snoc(es: Seq<Exp>, x: Exp)
    ensures
        exp_list_sem(es.push(x)) == exp_list_sem(es).push(exp_sem(x)),
{
    lemma_exp_list_sem_len(es.push(x));
    lemma_exp_list_sem_len(es);
    assert forall|i: int| 0 <= i < es.push(x).len() implies exp_list_sem(es.push(x))[i]
        == exp_list_sem(es).push(exp_sem(x))[i] by {
        lemma_exp_list_sem_index(es.push(x), i);
        if i < es.len() {
            lemma_exp_list_sem_index(es, i);
            assert(es.push(x)[i] == es[i]);
        } else {
            assert(es.push(x)[i] == x);
        }
    }
    assert(exp_list_sem(es.push(x)) =~= exp_list_sem(es).push(exp_sem(x)));
}

impl CParser {
    /// Parses a name reference: a single identifier segment.
    pub fn parse_lval(&self, toks: &Vec<Token>, lines: &Vec<String>, pos: usize) -> (r: Result<
        (LVal, usize),
        ParseError,
    >)
        requires
            pos <= toks.len(),
        ensures
            match p_primary(toks.deep_view(), pos as int) {
                Option::Some((e, j)) => (e is LVal && pos < toks.len()
                    && toks.deep_view()[pos as int] is Ident) ==> (r matches Result::Ok(
                    (node, np),
                ) && crate::ast::lval_sem(node) == e->LVal_0 && np == j),
                Option::None => r is Err,
            },
            r matches Result::Ok((node, np)) ==> pos < np <= toks.len(),
    {
        if pos >= toks.len() {
            return Result::Err(self.err_at(toks, pos));
        }
        match &toks[pos].tok {
            Tok::Ident(w) => {
                let span = self.token_span(toks, lines, pos);
                let ids = vec![w.clone()];
                proof {
                    reveal_with_fuel(crate::ast::lval_sem, 2);
                    assert(ids.deep_view() =~= seq![w@]);
                    assert(toks.deep_view()[pos as int] == TokV::Ident(w@));
                }
                Result::Ok((LVal { ids, span, exp: Option::None }, pos + 1))
            },
            _ => Result::Err(self.err_at(toks, pos)),
        }
    }

    /// Parses a compile-time expression.
    pub fn parse_const_exp(&self, toks: &Vec<Token>, lines: &Vec<String>, pos: usize) -> (r:
        Result<(ConstExp, usize), ParseError>)
        requires
            pos <= toks.len(),
        ensures
            match p_exp(toks.deep_view(), pos as int) {
                Option::Some((e, j)) => r matches Result::Ok((node, np)) && exp_sem(node.exp) == e
                    && np == j && pos < np <= toks.len(),
                Option::None => r is Err,
            },
        decreases toks.len() - pos, 12int,
    {
        match self.parse_expr(toks, lines, pos) {
            Result::Ok((e, np)) => Result::Ok((ConstExp { exp: e }, np)),
            Result::Err(e) => Result::Err(e),
        }
    }

    /// Parses a whole expression: an equality chain of additive chains.
    pub fn parse_expr(&self, toks: &Vec<Token>, lines: &Vec<String>, pos: usize) -> (r: Result<
        (Exp, usize),
        ParseError,
    >)
        requires
            pos <= toks.len(),
        ensures
            match p_exp(toks.deep_view(), pos as int) {
                Option::Some((e, j)) => r matches Result::Ok((node, np)) && exp_sem(node) == e
                    && np == j && pos < np <= toks.len(),
                Option::None => r is Err,
            },
        decreases toks.len() - pos, 10int,
    {
        let (lhs, j) = match self.parse_add_level(toks, lines, pos) {
            Result::Ok(x) => x,
            Result::Err(e) => {
                return Result::Err(e);
            },
        };
        self.parse_eq_tail(toks, lines, j, lhs)
    }

    fn parse_eq_tail(&self, toks: &Vec<Token>, lines: &Vec<String>, pos: usize, acc: Exp) -> (r:
        Result<(Exp, usize), ParseError>)
        requires
            pos <= toks.len(),
        ensures
            match p_eq_tail(toks.deep_view(), pos as int, exp_sem(acc)) {
                Option::Some((e, j)) => r matches Result::Ok((node, np)) && exp_sem(node) == e
                    && np == j && pos <= np <= toks.len(),
                Option::None => r is Err,
            },
        decreases toks.len() - pos, 0int,
    {
        let op = if pos < toks.len() {
            match &toks[pos].tok {
                Tok::EqEq => Option::Some(BinaryOp::Eq),
                Tok::NotEq => Option::Some(BinaryOp::Neq),
                _ => Option::None,
            }
        } else {
            Option::None
        };
        match op {
            Option::Some(o) => {
                let (rhs, j) = match self.parse_add_level(toks, lines, pos + 1) {
                    Result::Ok(x) => x,
                    Result::Err(e) => {
                        return Result::Err(e);
                    },
                };
                let span = self.token_span(toks, lines, pos);
                let node = Exp::Binary(Box::new(acc), o, Box::new(rhs), span);
                self.parse_eq_tail(toks, lines, j, node)
            },
            Option::None => Result::Ok((acc, pos)),
        }
    }

    fn parse_add_level(&self, toks: &Vec<Token>, lines: &Vec<String>, pos: usize) -> (r: Result<
        (Exp, usize),
        ParseError,
    >)
        requires
            pos <= toks.len(),
        ensures
            match p_add(toks.deep_view(), pos as int) {
                Option::Some((e, j)) => r matches Result::Ok((node, np)) && exp_sem(node) == e
                    && np == j && pos < np <= toks.len(),
                Option::None => r is Err,
            },
        decreases toks.len() - pos, 8int,
    {
        let (lhs, j) = match self.parse_mul_level(toks, lines, pos) {
            Result::Ok(x) => x,
            Result::Err(e) => {
                return Result::Err(e);
            },
        };
        self.parse_add_tail(toks, lines, j, lhs)
    }

    fn parse_add_tail(&self, toks: &Vec<Token>, lines: &Vec<String>, pos: usize, acc: Exp) -> (r:
        Result<(Exp, usize), ParseError>)
        requires
            pos <= toks.len(),
        ensures
            match p_add_tail(toks.deep_view(), pos as int, exp_sem(acc)) {
                Option::Some((e, j)) => r matches Result::Ok((node, np)) && exp_sem(node) == e
                    && np == j && pos <= np <= toks.len(),
                Option::None => r is Err,
            },
        decreases toks.len() - pos, 0int,
    {
        let op = if pos < toks.len() {
            match &toks[pos].tok {
                Tok::Plus => Option::Some(BinaryOp::Add),
                Tok::Minus => Option::Some(BinaryOp::Sub),
                _ => Option::None,
            }
        } else {
            Option::None
        };
        match op {
            Option::Some(o) => {
                let (rhs, j) = match self.parse_mul_level(toks, lines, pos + 1) {
                    Result::Ok(x) => x,
                    Result::Err(e) => {
                        return Result::Err(e);
                    },
                };
                let span = self.token_span(toks, lines, pos);
                let node = Exp::Binary(Box::new(acc), o, Box::new(rhs), span);
                self.parse_add_tail(toks, lines, j, node)
            },
            Option::None => Result::Ok((acc, pos)),
        }
    }

    fn parse_mul_level(&self, toks: &Vec<Token>, lines: &Vec<String>, pos: usize) -> (r: Result<
        (Exp, usize),
        ParseError,
    >)
        requires
            pos <= toks.len(),
        ensures
            match p_mul(toks.deep_view(), pos as int) {
                Option::Some((e, j)) => r matches Result::Ok((node, np)) && exp_sem(node) == e
                    && np == j && pos < np <= toks.len(),
                Option::None => r is Err,
            },
        decreases toks.len() - pos, 7int,
    {
        let (lhs, j) = match self.parse_postfix_level(toks, lines, pos) {
            Result::Ok(x) => x,
            Result::Err(e) => {
                return Result::Err(e);
            },
        };
        self.parse_mul_tail(toks, lines, j, lhs)
    }

    fn parse_mul_tail(&self, toks: &Vec<Token>, lines: &Vec<String>, pos: usize, acc: Exp) -> (r:
        Result<(Exp, usize), ParseError>)
        requires
            pos <= toks.len(),
        ensures
            match p_mul_tail(toks.deep_view(), pos as int, exp_sem(acc)) {
                Option::Some((e, j)) => r matches Result::Ok((node, np)) && exp_sem(node) == e
                    && np == j && pos <= np <= toks.len(),
                Option::None => r is Err,
            },
        decreases toks.len() - pos, 0int,
    {
        let op = if pos < toks.len() {
            match &toks[pos].tok {
                Tok::Star => Option::Some(BinaryOp::Mul),
                Tok::Slash => Option::Some(BinaryOp::Div),
                Tok::Percent => Option::Some(BinaryOp::Mod),
                _ => Option::None,
            }
        } else {
            Option::None
        };
        match op {
            Option::Some(o) => {
                let (rhs, j) = match self.parse_postfix_level(toks, lines, pos + 1) {
                    Result::Ok(x) => x,
                    Result::Err(e) => {
                        return Result::Err(e);
                    },
                };
                let span = self.token_span(toks, lines, pos);
                let node = Exp::Binary(Box::new(acc), o, Box::new(rhs), span);
                self.parse_mul_tail(toks, lines, j, node)
            },
            Option::None => Result::Ok((acc, pos)),
        }
    }

    fn parse_postfix_level(&self, toks: &Vec<Token>, lines: &Vec<String>, pos: usize) -> (r:
        Result<(Exp, usize), ParseError>)
        requires
            pos <= toks.len(),
        ensures
            match p_postfix(toks.deep_view(), pos as int) {
                Option::Some((e, j)) => r matches Result::Ok((node, np)) && exp_sem(node) == e
                    && np == j && pos < np <= toks.len(),
                Option::None => r is Err,
            },
        decreases toks.len() - pos, 6int,
    {
        let (base, j) = match self.parse_prefix_level(toks, lines, pos) {
            Result::Ok(x) => x,
            Result::Err(e) => {
                return Result::Err(e);
            },
        };
        self.parse_postfix_tail(toks, lines, j, base)
    }

    fn parse_postfix_tail(&self, toks: &Vec<Token>, lines: &Vec<String>, pos: usize, acc: Exp) -> (
        r: Result<(Exp, usize), ParseError>)
        requires
            pos <= toks.len(),
        ensures
            match p_postfix_tail(toks.deep_view(), pos as int, exp_sem(acc)) {
                Option::Some((e, j)) => r matches Result::Ok((node, np)) && exp_sem(node) == e
                    && np == j && pos <= np <= toks.len(),
                Option::None => r is Err,
            },
        decreases toks.len() - pos, 1int,
    {
        if pos < toks.len() && matches!(&toks[pos].tok, Tok::KwAs) {
            let (ty, j) = match self.parse_type(toks, lines, pos + 1) {
                Result::Ok(x) => x,
                Result::Err(e) => {
                    return Result::Err(e);
                },
            };
            let span = self.span_of(toks, lines, pos, j - 1);
            let node = Exp::ConvertType(
                Box::new(crate::ast::ConvertType { exp: acc, ty, span }),
            );
            self.parse_postfix_tail(toks, lines, j, node)
        } else if pos < toks.len() && matches!(&toks[pos].tok, Tok::LParen) {
            if pos + 1 < toks.len() && matches!(&toks[pos + 1].tok, Tok::RParen) {
                let span = self.span_of(toks, lines, pos, pos + 1);
                let args: Vec<Exp> = Vec::new();
                proof {
                    assert(exp_list_sem(args@) =~= Seq::<crate::ast::ExpV>::empty());
                }
                let node = Exp::Call(
                    Box::new(crate::ast::Call { exp: acc, args, span }),
                );
                self.parse_postfix_tail(toks, lines, pos + 2, node)
            } else {
                let start: Vec<Exp> = Vec::new();
                proof {
                    assert(exp_list_sem(start@) =~= Seq::<crate::ast::ExpV>::empty());
                }
                let (args, j) = match self.parse_args(toks, lines, pos + 1, start) {
                    Result::Ok(x) => x,
                    Result::Err(e) => {
                        return Result::Err(e);
                    },
                };
                let span = self.span_of(toks, lines, pos, j - 1);
                let node = Exp::Call(
                    Box::new(crate::ast::Call { exp: acc, args, span }),
                );
                self.parse_postfix_tail(toks, lines, j, node)
            }
        } else {
            Result::Ok((acc, pos))
        }
    }

    fn parse_args(&self, toks: &Vec<Token>, lines: &Vec<String>, pos: usize, acc: Vec<Exp>) -> (r:
        Result<(Vec<Exp>, usize), ParseError>)
        requires
            pos <= toks.len(),
        ensures
            match p_args(toks.deep_view(), pos as int, exp_list_sem(acc@)) {
                Option::Some((args, j)) => r matches Result::Ok((v, np)) && exp_list_sem(v@)
                    == args && np == j && pos < np <= toks.len(),
                Option::None => r is Err,
            },
        decreases toks.len() - pos, 11int,
    {
        let (e, j) = match self.parse_expr(toks, lines, pos) {
            Result::Ok(x) => x,
            Result::Err(e) => {
                return Result::Err(e);
            },
        };
        let ghost acc_pre = acc@;
        let mut acc = acc;
        proof {
            lemma_exp_list_sem_snoc(acc_pre, e);
        }
        if j < toks.len() && matches!(&toks[j].tok, Tok::Comma) {
            acc.push(e);
            self.parse_args(toks, lines, j + 1, acc)
        } else if j < toks.len() && matches!(&toks[j].tok, Tok::RParen) {
            acc.push(e);
            Result::Ok((acc, j + 1))
        } else {
            Result::Err(self.err_at(toks, j))
        }
    }

    fn parse_prefix_level(&self, toks: &Vec<Token>, lines: &Vec<String>, pos: usize) -> (r: Result<
        (Exp, usize),
        ParseError,
    >)
        requires
            pos <= toks.len(),
        ensures
            match p_prefix(toks.deep_view(), pos as int) {
                Option::Some((e, j)) => r matches Result::Ok((node, np)) && exp_sem(node) == e
                    && np == j && pos < np <= toks.len(),
                Option::None => r is Err,
            },
        decreases toks.len() - pos, 5int,
    {
        let sign = if pos < toks.len() {
            match &toks[pos].tok {
                Tok::Plus => Option::Some(UnaryOp::Positive),
                Tok::Minus => Option::Some(UnaryOp::Negative),
                _ => Option::None,
            }
        } else {
            Option::None
        };
        match sign {
            Option::Some(u) => {
                let (inner, j) = match self.parse_prefix_level(toks, lines, pos + 1) {
                    Result::Ok(x) => x,
                    Result::Err(e) => {
                        return Result::Err(e);
                    },
                };
                let span = self.token_span(toks, lines, pos);
                Result::Ok((Exp::Unary(u, Box::new(inner), span), j))
            },
            Option::None => self.parse_primary(toks, lines, pos),
        }
    }

    #[verifier::rlimit(80)]
    fn parse_primary(&self, toks: &Vec<Token>, lines: &Vec<String>, pos: usize) -> (r: Result<
        (Exp, usize),
        ParseError,
    >)
        requires
            pos <= toks.len(),
        ensures
            match p_primary(toks.deep_view(), pos as int) {
                Option::Some((e, j)) => r matches Result::Ok((node, np)) && exp_sem(node) == e
                    && np == j && pos < np <= toks.len(),
                Option::None => r is Err,
            },
        decreases toks.len() - pos, 4int,
    {
        if pos >= toks.len() {
            return Result::Err(self.err_at(toks, pos));
        }
        match &toks[pos].tok {
            Tok::LParen => {
                let (e, j) = match self.parse_expr(toks, lines, pos + 1) {
                    Result::Ok(x) => x,
                    Result::Err(e) => {
                        return Result::Err(e);
                    },
                };
                if j < toks.len() && matches!(&toks[j].tok, Tok::RParen) {
                    Result::Ok((e, j + 1))
                } else {
                    Result::Err(self.err_at(toks, j))
                }
            },
            Tok::Number(n) => {
                let span = self.token_span(toks, lines, pos);
                Result::Ok((Exp::Number(Number { num: *n, span }), pos + 1))
            },
            Tok::Ident(_) => {
                let (lval, np) = match self.parse_lval(toks, lines, pos) {
                    Result::Ok(x) => x,
                    Result::Err(e) => {
                        return Result::Err(e);
                    },
                };
                proof {
                    reveal_with_fuel(crate::ast::exp_sem, 2);
                }
                Result::Ok((Exp::LVal(Box::new(lval)), np))
            },
            _ => Result::Err(self.err_at(toks, pos)),
        }
    }
}

} // verus!
