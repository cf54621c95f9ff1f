//! Declaration parsing: `var` declarations, `const` declarations with
//! expression or function-literal initializers, and foreign function
//! declarations.
use crate::ast::ConstDecl;
use crate::ast::ConstInitialValue;
use crate::ast::ConstInitialValueEnum;
use crate::ast::Decl;
use crate::ast::ExternFunctionDef;
use crate::ast::FunctionDef;
use crate::ast::Param;
use crate::ast::VarDecl;
use crate::ast::const_init_sem;
use crate::ast::decl_sem;
use crate::ast::function_def_sem;
use crate::parser::CParser;
use crate::parser::ParseError;
use crate::parser::grammar::p_const_init;
use crate::parser::grammar::p_decl;
use crate::parser::grammar::p_function_def;
use crate::parser::grammar::p_param;
use crate::parser::grammar::p_params;
use crate::parser::lex::Tok;
use crate::parser::lex::TokV;
use crate::parser::lex::Token;
use vstd::prelude::*;

verus! {

impl CParser {
    /// Parses one declaration.
    #[verifier::rlimit(80)]
    pub fn parse_decl(&self, toks: &Vec<Token>, lines: &Vec<String>, pos: usize) -> (r: Result<
        (Decl, usize),
        ParseError,
    >)
        requires
            pos <= toks.len(),
        ensures
            match p_decl(toks.deep_view(), pos as int) {
                Option::Some((d, j)) => r matches Result::Ok((node, np)) && decl_sem(node) == d
                    && np == j && pos < np <= toks.len(),
                Option::None => r is Err,
            },
        decreases toks.len() - pos, 23int,
    {
        if pos < toks.len() && matches!(&toks[pos].tok, Tok::KwVar) {
            self.parse_var_decl(toks, lines, pos)
        } else if pos < toks.len() && matches!(&toks[pos].tok, Tok::KwConst) {
            if toks.len() - pos > 3 && matches!(&toks[pos + 1].tok, Tok::Ident(_)) && matches!(
                &toks[pos + 2].tok,
                Tok::Assign,
            ) && matches!(&toks[pos + 3].tok, Tok::KwExtern) {
                self.parse_extern_function_def(toks, lines, pos)
            } else {
                self.parse_const_decl(toks, lines, pos)
            }
        } else {
            Result::Err(self.err_at(toks, pos))
        }
    }

    /// Parses `var name : type = expr ;`.
    #[verifier::rlimit(80)]
    pub fn parse_var_decl(&self, toks: &Vec<Token>, lines: &Vec<String>, pos: usize) -> (r: Result<
        (Decl, usize),
        ParseError,
    >)
        requires
            pos < toks.len(),
            toks.deep_view()[pos as int] == TokV::KwVar,
        ensures
            match p_decl(toks.deep_view(), pos as int) {
                Option::Some((d, j)) => r matches Result::Ok((node, np)) && decl_sem(node) == d
                    && np == j && pos < np <= toks.len(),
                Option::None => r is Err,
            },
        decreases toks.len() - pos, 22int,
    {
        if !(toks.len() - pos > 2 && matches!(&toks[pos + 1].tok, Tok::Ident(_)) && matches!(
            &toks[pos + 2].tok,
            Tok::Colon,
        )) {
            return Result::Err(self.err_at(toks, pos));
        }
        let name = match &toks[pos + 1].tok {
            Tok::Ident(w) => w.clone(),
            _ => {
                return Result::Err(self.err_at(toks, pos));
            },
        };
        let (ty, j) = match self.parse_type(toks, lines, pos + 3) {
            Result::Ok(x) => x,
            Result::Err(e) => {
                return Result::Err(e);
            },
        };
        if !(j < toks.len() && matches!(&toks[j].tok, Tok::Assign)) {
            return Result::Err(self.err_at(toks, j));
        }
        let (e, k) = match self.parse_expr(toks, lines, j + 1) {
            Result::Ok(x) => x,
            Result::Err(e) => {
                return Result::Err(e);
            },
        };
        if !(k < toks.len() && matches!(&toks[k].tok, Tok::Semi)) {
            return Result::Err(self.err_at(toks, k));
        }
        let span = self.span_of(toks, lines, pos, k);
        let node = Decl::VarDecl(
            VarDecl { name, var_type: ty, initial_value: e, span },
        );
        Result::Ok((node, k + 1))
    }

    /// Parses `const name = initializer ;` where the initializer is a
    /// function literal or a compile-time expression.
    #[verifier::rlimit(80)]
    pub fn parse_const_decl(&self, toks: &Vec<Token>, lines: &Vec<String>, pos: usize) -> (r:
        Result<(Decl, usize), ParseError>)
        requires
            pos < toks.len(),
            toks.deep_view()[pos as int] == TokV::KwConst,
            !(pos + 3 < toks.len() && toks.deep_view()[pos + 1] is Ident && toks.deep_view()[pos
                + 2] == TokV::Assign && toks.deep_view()[pos + 3] == TokV::KwExtern),
        ensures
            match p_decl(toks.deep_view(), pos as int) {
                Option::Some((d, j)) => r matches Result::Ok((node, np)) && decl_sem(node) == d
                    && np == j && pos < np <= toks.len(),
                Option::None => r is Err,
            },
        decreases toks.len() - pos, 22int,
    {
        if !(toks.len() - pos > 2 && matches!(&toks[pos + 1].tok, Tok::Ident(_)) && matches!(
            &toks[pos + 2].tok,
            Tok::Assign,
        )) {
            return Result::Err(self.err_at(toks, pos));
        }
        let name = match &toks[pos + 1].tok {
            Tok::Ident(w) => w.clone(),
            _ => {
                return Result::Err(self.err_at(toks, pos));
            },
        };
        let (civ, j) = match self.parse_const_initial_value(toks, lines, pos + 3) {
            Result::Ok(x) => x,
            Result::Err(e) => {
                return Result::Err(e);
            },
        };
        if !(j < toks.len() && matches!(&toks[j].tok, Tok::Semi)) {
            return Result::Err(self.err_at(toks, j));
        }
        let span = self.span_of(toks, lines, pos, j);
        let node = Decl::ConstDecl(ConstDecl { name, initial_value: civ, span });
        Result::Ok((node, j + 1))
    }

    /// Parses a `const` initializer.
    #[verifier::rlimit(80)]
    pub fn parse_const_initial_value(
        &self,
        toks: &Vec<Token>,
        lines: &Vec<String>,
        pos: usize,
    ) -> (r: Result<(ConstInitialValue, usize), ParseError>)
        requires
            pos <= toks.len(),
        ensures
            match p_const_init(toks.deep_view(), pos as int) {
                Option::Some((civ, j)) => r matches Result::Ok((node, np)) && const_init_sem(node)
                    == civ && np == j && pos < np <= toks.len(),
                Option::None => r is Err,
            },
        decreases toks.len() - pos, 22int,
    {
        if pos < toks.len() && matches!(&toks[pos].tok, Tok::KwFn) {
            let (f, j) = match self.parse_function_def(toks, lines, pos) {
                Result::Ok(x) => x,
                Result::Err(e) => {
                    return Result::Err(e);
                },
            };
            let span = self.span_of(toks, lines, pos, j - 1);
            Result::Ok(
                (ConstInitialValue { value: ConstInitialValueEnum::Function(f), span }, j),
            )
        } else {
            let (e, j) = match self.parse_expr(toks, lines, pos) {
                Result::Ok(x) => x,
                Result::Err(e) => {
                    return Result::Err(e);
                },
            };
            let span = self.span_of(toks, lines, pos, j - 1);
            Result::Ok(
                (
                    ConstInitialValue {
                        value: ConstInitialValueEnum::Exp(crate::ast::ConstExp { exp: e }),
                        span,
                    },
                    j,
                ),
            )
        }
    }

    /// Parses `fn ( params ) type block`, a function literal.
    #[verifier::rlimit(80)]
    pub fn parse_function_def(&self, toks: &Vec<Token>, lines: &Vec<String>, pos: usize) -> (r:
        Result<(FunctionDef, usize), ParseError>)
        requires
            pos <= toks.len(),
        ensures
            match p_function_def(toks.deep_view(), pos as int) {
                Option::Some((f, j)) => r matches Result::Ok((node, np)) && function_def_sem(node)
                    == f && np == j && pos < np <= toks.len(),
                Option::None => r is Err,
            },
        decreases toks.len() - pos, 21int,
    {
        if !(pos < toks.len() && matches!(&toks[pos].tok, Tok::KwFn) && toks.len() - pos > 1
            && matches!(&toks[pos + 1].tok, Tok::LParen)) {
            return Result::Err(self.err_at(toks, pos));
        }
        let start: Vec<Param> = Vec::new();
        proof {
            assert(start.deep_view() =~= Seq::<crate::ast::ParamV>::empty());
        }
        let (params, j) = match self.parse_params(toks, lines, pos + 2, start) {
            Result::Ok(x) => x,
            Result::Err(e) => {
                return Result::Err(e);
            },
        };
        let (ret, k) = match self.parse_type(toks, lines, j) {
            Result::Ok(x) => x,
            Result::Err(e) => {
                return Result::Err(e);
            },
        };
        let (block, m) = match self.parse_block(toks, lines, k) {
            Result::Ok(x) => x,
            Result::Err(e) => {
                return Result::Err(e);
            },
        };
        let span = self.span_of(toks, lines, pos, m - 1);
        let node = FunctionDef { params, return_type: ret, block, span };
        Result::Ok((node, m))
    }

    /// Parses `const name = extern fn ( params ) type ;`, a foreign function
    /// declaration.
    #[verifier::rlimit(80)]
    pub fn parse_extern_function_def(
        &self,
        toks: &Vec<Token>,
        lines: &Vec<String>,
        pos: usize,
    ) -> (r: Result<(Decl, usize), ParseError>)
        requires
            pos < toks.len(),
            toks.deep_view()[pos as int] == TokV::KwConst,
            pos + 3 < toks.len(),
            toks.deep_view()[pos + 1] is Ident,
            toks.deep_view()[pos + 2] == TokV::Assign,
            toks.deep_view()[pos + 3] == TokV::KwExtern,
        ensures
            match p_decl(toks.deep_view(), pos as int) {
                Option::Some((d, j)) => r matches Result::Ok((node, np)) && decl_sem(node) == d
                    && np == j && pos < np <= toks.len(),
                Option::None => r is Err,
            },
        decreases toks.len() - pos, 22int,
    {
        if !(toks.len() - pos > 5 && matches!(&toks[pos + 4].tok, Tok::KwFn) && matches!(
            &toks[pos + 5].tok,
            Tok::LParen,
        )) {
            return Result::Err(self.err_at(toks, pos));
        }
        let name = match &toks[pos + 1].tok {
            Tok::Ident(w) => w.clone(),
            _ => {
                return Result::Err(self.err_at(toks, pos));
            },
        };
        let start: Vec<Param> = Vec::new();
        proof {
            assert(start.deep_view() =~= Seq::<crate::ast::ParamV>::empty());
        }
        let (params, j) = match self.parse_params(toks, lines, pos + 6, start) {
            Result::Ok(x) => x,
            Result::Err(e) => {
                return Result::Err(e);
            },
        };
        let (ret, k) = match self.parse_type(toks, lines, j) {
            Result::Ok(x) => x,
            Result::Err(e) => {
                return Result::Err(e);
            },
        };
        if !(k < toks.len() && matches!(&toks[k].tok, Tok::Semi)) {
            return Result::Err(self.err_at(toks, k));
        }
        let span = self.span_of(toks, lines, pos, k);
        let node = Decl::ExternFunctionDef(
            ExternFunctionDef { name, params, return_type: ret, span },
        );
        Result::Ok((node, k + 1))
    }

    /// Parses one parameter, `name : type`.
    pub fn parse_param(&self, toks: &Vec<Token>, lines: &Vec<String>, pos: usize) -> (r: Result<
        (Param, usize),
        ParseError,
    >)
        requires
            pos <= toks.len(),
        ensures
            match p_param(toks.deep_view(), pos as int) {
                Option::Some((p, j)) => r matches Result::Ok((node, np)) && node.deep_view() == p
                    && np == j && pos < np <= toks.len(),
                Option::None => r is Err,
            },
    {
        if !(toks.len() - pos > 1 && matches!(&toks[pos].tok, Tok::Ident(_)) && matches!(
            &toks[pos + 1].tok,
            Tok::Colon,
        )) {
            return Result::Err(self.err_at(toks, pos));
        }
        let name = match &toks[pos].tok {
            Tok::Ident(w) => w.clone(),
            _ => {
                return Result::Err(self.err_at(toks, pos));
            },
        };
        let (ty, j) = match self.parse_type(toks, lines, pos + 2) {
            Result::Ok(x) => x,
            Result::Err(e) => {
                return Result::Err(e);
            },
        };
        let span = self.span_of(toks, lines, pos, j - 1);
        Result::Ok((Param { name, param_type: ty, span }, j))
    }

    /// Parses a parameter list after the opening parenthesis, up to and
    /// including the closing one.
    fn parse_params(&self, toks: &Vec<Token>, lines: &Vec<String>, pos: usize, acc: Vec<Param>) -> (
        r: Result<(Vec<Param>, usize), ParseError>)
        requires
            pos <= toks.len(),
        ensures
            match p_params(toks.deep_view(), pos as int, acc.deep_view()) {
                Option::Some((ps, j)) => r matches Result::Ok((v, np)) && v.deep_view() == ps && np
                    == j && pos < np <= toks.len(),
                Option::None => r is Err,
            },
        decreases toks.len() - pos, 2int,
    {
        if pos < toks.len() && matches!(&toks[pos].tok, Tok::RParen) {
            return Result::Ok((acc, pos + 1));
        }
        let (p, j) = match self.parse_param(toks, lines, pos) {
            Result::Ok(x) => x,
            Result::Err(e) => {
                return Result::Err(e);
            },
        };
        let ghost dv_pre = acc.deep_view();
        let ghost pv = p.deep_view();
        let mut acc = acc;
        if j < toks.len() && matches!(&toks[j].tok, Tok::Comma) {
            if j + 1 < toks.len() && matches!(&toks[j + 1].tok, Tok::RParen) {
                return Result::Err(self.err_at(toks, j + 1));
            }
            acc.push(p);
            proof {
                assert(acc.deep_view() =~= dv_pre.push(pv));
            }
            self.parse_params(toks, lines, j + 1, acc)
        } else if j < toks.len() && matches!(&toks[j].tok, Tok::RParen) {
            acc.push(p);
            proof {
                assert(acc.deep_view() =~= dv_pre.push(pv));
            }
            Result::Ok((acc, j + 1))
        } else {
            Result::Err(self.err_at(toks, j))
        }
    }
}

} // verus!
