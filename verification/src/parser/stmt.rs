//! Statement parsing.
use crate::ast::Return;
use crate::ast::Statement;
use crate::ast::stmt_sem;
use crate::parser::CParser;
use crate::parser::ParseError;
use crate::parser::grammar::p_stmt;
use crate::parser::lex::Tok;
use crate::parser::lex::TokV;
use crate::parser::lex::Token;
use vstd::prelude::*;

verus! {

impl CParser {
    /// Parses a statement: `return [expr] ;` or an expression statement
    /// `[expr] ;`.
    pub fn parse_statement(&self, toks: &Vec<Token>, lines: &Vec<String>, pos: usize) -> (r:
        Result<(Statement, usize), ParseError>)
        requires
            pos <= toks.len(),
        ensures
            match p_stmt(toks.deep_view(), pos as int) {
                Option::Some((st, j)) => r matches Result::Ok((node, np)) && stmt_sem(node) == st
                    && np == j && pos < np <= toks.len(),
                Option::None => r is Err,
            },
        decreases toks.len() - pos, 20int,
    {
        if pos < toks.len() && matches!(&toks[pos].tok, Tok::KwReturn) {
            self.parse_return(toks, lines, pos)
        } else if pos < toks.len() && matches!(&toks[pos].tok, Tok::Semi) {
            Result::Ok((Statement::Exp(Option::None), pos + 1))
        } else {
            let (e, j) = match self.parse_expr(toks, lines, pos) {
                Result::Ok(x) => x,
                Result::Err(e) => {
                    return Result::Err(e);
                },
            };
            if j < toks.len() && matches!(&toks[j].tok, Tok::Semi) {
                Result::Ok((Statement::Exp(Option::Some(e)), j + 1))
            } else {
                Result::Err(self.err_at(toks, j))
            }
        }
    }

    /// Parses a `return` statement with an optional value.
    pub fn parse_return(&self, toks: &Vec<Token>, lines: &Vec<String>, pos: usize) -> (r: Result<
        (Statement, usize),
        ParseError,
    >)
        requires
            pos < toks.len(),
            toks.deep_view()[pos as int] == TokV::KwReturn,
        ensures
            match p_stmt(toks.deep_view(), pos as int) {
                Option::Some((st, j)) => r matches Result::Ok((node, np)) && stmt_sem(node) == st
                    && np == j && pos < np <= toks.len(),
                Option::None => r is Err,
            },
        decreases toks.len() - pos, 19int,
    {
        if pos + 1 < toks.len() && matches!(&toks[pos + 1].tok, Tok::Semi) {
            let span = self.span_of(toks, lines, pos, pos + 1);
            Result::Ok((Statement::Return(Return { value: Option::None, span }), pos + 2))
        } else {
            let (e, j) = match self.parse_expr(toks, lines, pos + 1) {
                Result::Ok(x) => x,
                Result::Err(e) => {
                    return Result::Err(e);
                },
            };
            if j < toks.len() && matches!(&toks[j].tok, Tok::Semi) {
                let span = self.span_of(toks, lines, pos, j);
                Result::Ok((Statement::Return(Return { value: Option::Some(e), span }), j + 1))
            } else {
                Result::Err(self.err_at(toks, j))
            }
        }
    }
}

} // verus!
