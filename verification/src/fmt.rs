//! Formatting a source from what the lexer and the parser made of it.

use crate::codegen::options::{WriteOpt, DEFAULT_WIDTH};
use crate::codegen::stmt::{stmts_source, write_stmts};
use crate::lexer::Tokens;
use crate::pr::stmt::Stmt;
use crate::text::view_opt;
use vstd::prelude::*;

verus! {

/// The options that a source is formatted under: lines of the default
/// width, and the tokens of the source for its comments.
pub open spec fn fmt_options<'a>(tokens: &'a Tokens) -> WriteOpt<'a> {
    WriteOpt { tokens: Some(tokens), ..WriteOpt::spec_new_width(DEFAULT_WIDTH) }
}

/// Formats a source from its tokens and the statements parsed from them:
/// the statements as the statement writer writes them, with the comments
/// that the tokens hold after each expression. `None` where a statement
/// fits on no line, however wide.
pub fn fmt(lr: &Tokens, pr: &Vec<Stmt>) -> (r: Option<String>)
    ensures
        view_opt(r) == stmts_source(pr@, fmt_options(lr)),
{
    fmt_of_ast(lr, pr)
}

/// Writes the statements, with the comments that `tokens` hold after each
/// expression.
pub fn fmt_of_ast(tokens: &Tokens, pr: &Vec<Stmt>) -> (r: Option<String>)
    ensures
        view_opt(r) == stmts_source(pr@, fmt_options(tokens)),
{
    let mut opt = WriteOpt::new_width(DEFAULT_WIDTH);
    opt.tokens = Some(tokens);
    write_stmts(pr, opt)
}

} // verus!
