//! Putting the comments of a source text back on the expressions that
//! they stand before.
//!
//! The expressions that take comments are the values of the variables
//! that are defined, at the top level and in modules, in the order of the
//! source. What such a value holds is not walked into: a comment inside
//! it goes to the value of the next definition.

use crate::lexer::{Token, TokenKind, Tokens};
use crate::pr::expr::Expr;
use crate::pr::stmt::{ModuleDef, Stmt, StmtKind, VarDef};
use crate::text::reverse_vec;
use vstd::prelude::*;

verus! {

/// Number of tokens on top of `stack`, its last item being the top, that
/// start before `start`.
pub open spec fn attached_count(stack: Seq<Token>, start: usize) -> nat
    decreases stack.len(),
{
    if stack.len() > 0 && stack.last().span.start < start {
        1 + attached_count(stack.drop_last(), start)
    } else {
        0
    }
}

/// The tokens that are taken from `stack` for `e`, in the order in which
/// they are taken: those on top that start before `e` does. An expression
/// without a span takes none.
pub open spec fn attached(e: Expr, stack: Seq<Token>) -> Seq<Token> {
    match e.span {
        Some(span) => stack.skip(stack.len() - attached_count(stack, span.start)).reverse(),
        None => Seq::empty(),
    }
}

/// What is left of `stack` after `e` has taken its tokens.
pub open spec fn rest_after_expr(e: Expr, stack: Seq<Token>) -> Seq<Token> {
    match e.span {
        Some(span) => stack.take(stack.len() - attached_count(stack, span.start)),
        None => stack,
    }
}

/// What is left of `stack` after the expressions of `stmt` have taken
/// their tokens: the value of a variable, and the statements of a
/// module.
pub open spec fn rest_after_stmt(stmt: Stmt, stack: Seq<Token>) -> Seq<Token>
    decreases stmt, 0nat,
{
    match stmt.kind {
        StmtKind::VarDef(var_def) => match var_def.value {
            Some(value) => rest_after_expr(*value, stack),
            None => stack,
        },
        StmtKind::ModuleDef(module_def) => rest_after_stmts(
            module_def.stmts@,
            module_def.stmts@.len(),
            stack,
        ),
        _ => stack,
    }
}

/// What is left of `stack` after the first `n` statements of `v`.
pub open spec fn rest_after_stmts(v: Seq<Stmt>, n: nat, stack: Seq<Token>) -> Seq<Token>
    decreases v, n,
{
    if 0 < n <= v.len() {
        rest_after_stmt(v[n - 1], rest_after_stmts(v, (n - 1) as nat, stack))
    } else {
        stack
    }
}

/// `new` is `old` with the tokens that it takes from `stack` added to the
/// comments before it.
pub open spec fn expr_with_comments(old: Expr, stack: Seq<Token>, new: Expr) -> bool {
    &&& new.kind == old.kind
    &&& new.span == old.span
    &&& new.alias == old.alias
    &&& new.comments_before@ == old.comments_before@ + attached(old, stack)
}

/// `new` is `old` with its expressions given their comments from
/// `stack`.
pub open spec fn stmt_with_comments(old: Stmt, stack: Seq<Token>, new: Stmt) -> bool
    decreases old, 0nat,
{
    &&& new.span == old.span
    &&& new.annotations == old.annotations
    &&& match old.kind {
        StmtKind::VarDef(v) => {
            &&& new.kind matches StmtKind::VarDef(w)
            &&& w.kind == v.kind
            &&& w.name == v.name
            &&& w.ty == v.ty
            &&& match v.value {
                Some(e) => w.value matches Some(f) && expr_with_comments(*e, stack, *f),
                None => w.value is None,
            }
        },
        StmtKind::ModuleDef(m) => {
            &&& new.kind matches StmtKind::ModuleDef(n)
            &&& n.name == m.name
            &&& stmts_with_comments(m.stmts@, stack, n.stmts@)
        },
        _ => new.kind == old.kind,
    }
}

/// `news` are `olds` with their expressions given their comments from
/// `stack`, one statement after the other.
pub open spec fn stmts_with_comments(olds: Seq<Stmt>, stack: Seq<Token>, news: Seq<Stmt>) -> bool
    decreases olds, olds.len(),
{
    &&& news.len() == olds.len()
    &&& forall|i: int|
        0 <= i < olds.len() ==> stmt_with_comments(
            #[trigger] olds[i],
            rest_after_stmts(olds, i as nat, stack),
            news[i],
        )
}

/// No token is lost or moved: the tokens that an expression takes,
/// followed by those that are left from the top of the stack down, are
/// the stack from its top down. As the stack holds the tokens from the
/// last to the first, the order of the source is kept.
pub proof fn lemma_attached_in_order(e: Expr, stack: Seq<Token>)
    ensures
        attached(e, stack) + rest_after_expr(e, stack).reverse() == stack.reverse(),
        attached(e, stack).len() + rest_after_expr(e, stack).len() == stack.len(),
{
    match e.span {
        Some(span) => {
            lemma_attached_count_bound(stack, span.start);
            let k = stack.len() - attached_count(stack, span.start);
            assert(stack.skip(k).reverse() + stack.take(k).reverse() =~= stack.reverse());
        },
        None => {
            assert(Seq::<Token>::empty() + stack.reverse() =~= stack.reverse());
        },
    }
}

/// Every token that an expression takes starts before the expression,
/// and the token that is left on top does not.
pub proof fn lemma_attached_start_before(e: Expr, stack: Seq<Token>, i: int)
    requires
        e.span is Some,
        0 <= i < stack.len(),
    ensures
        i >= stack.len() - attached_count(stack, e.span->0.start) ==> stack[i].span.start
            < e.span->0.start,
        i == stack.len() - attached_count(stack, e.span->0.start) - 1 ==> stack[i].span.start
            >= e.span->0.start,
    decreases stack.len(),
{
    let start = e.span->0.start;
    if stack.last().span.start < start {
        if i < stack.len() - 1 {
            lemma_attached_start_before(e, stack.drop_last(), i);
        }
    }
}

pub proof fn lemma_attached_count_bound(stack: Seq<Token>, start: usize)
    ensures
        attached_count(stack, start) <= stack.len(),
    decreases stack.len(),
{
    if stack.len() > 0 && stack.last().span.start < start {
        lemma_attached_count_bound(stack.drop_last(), start);
    }
}

/// The comments, line breaks and wrapped lines among `tokens`.
pub open spec fn aesthetic(tokens: Seq<Token>) -> Seq<Token>
    decreases tokens.len(),
{
    if tokens.len() == 0 {
        Seq::empty()
    } else if tokens.last().kind.is_aesthetic() {
        aesthetic(tokens.drop_last()).push(tokens.last())
    } else {
        aesthetic(tokens.drop_last())
    }
}

/// A copy of `token`, where it is a comment, a line break or a wrapped
/// line.
pub fn clone_aesthetic(token: &Token) -> (r: Option<Token>)
    ensures
        r == if token.kind.is_aesthetic() {
            Some(*token)
        } else {
            None
        },
{
    match &token.kind {
        TokenKind::Comment(s) => Some(Token { kind: TokenKind::Comment(s.clone()), span: token.span }),
        TokenKind::NewLine => Some(Token { kind: TokenKind::NewLine, span: token.span }),
        TokenKind::LineWrap(s) => Some(
            Token { kind: TokenKind::LineWrap(s.clone()), span: token.span },
        ),
        _ => None,
    }
}

/// Adds comments to the parsed statements from the tokens.
pub struct AestheticTokensAdder {
    /// Tokens stored in reverse order, so final token is the first token
    pub aesthetic_tokens: Vec<Token>,
}

impl AestheticTokensAdder {
    /// Takes the comments in the order of the source.
    pub fn new(aesthetic_tokens: Vec<Token>) -> (r: Self)
        ensures
            r.aesthetic_tokens@ == aesthetic_tokens@.reverse(),
    {
        let aesthetic_tokens = reverse_vec(aesthetic_tokens);
        Self { aesthetic_tokens }
    }

    /// Moves the tokens that start before `expr` from the stack to the
    /// comments before `expr`.
    pub fn fold_expr(&mut self, expr: Expr) -> (r: Expr)
        ensures
            expr_with_comments(expr, old(self).aesthetic_tokens@, r),
            final(self).aesthetic_tokens@ == rest_after_expr(expr, old(self).aesthetic_tokens@),
    {
        let ghost stack = self.aesthetic_tokens@;
        let ghost given = expr;
        let mut expr = expr;
        let span = match expr.span {
            Some(span) => span,
            None => {
                assert(expr.comments_before@ + Seq::<Token>::empty() =~= expr.comments_before@);
                return expr;
            },
        };
        let ghost before = expr.comments_before@;
        assert(stack.take(stack.len() as int) == stack);
        assert(before + stack.skip(stack.len() as int).reverse() =~= before);
        loop
            invariant
                self.aesthetic_tokens@ == stack.take(self.aesthetic_tokens@.len() as int),
                self.aesthetic_tokens@.len() <= stack.len(),
                attached_count(stack, span.start) == (stack.len() - self.aesthetic_tokens@.len())
                    + attached_count(self.aesthetic_tokens@, span.start),
                expr.comments_before@ == before + stack.skip(
                    self.aesthetic_tokens@.len() as int,
                ).reverse(),
                expr.kind == given.kind,
                expr.span == Some(span),
                expr.alias == given.alias,
            ensures
                attached_count(self.aesthetic_tokens@, span.start) == 0,
            decreases self.aesthetic_tokens@.len(),
        {
            let len = self.aesthetic_tokens.len();
            if len == 0 {
                break ;
            }
            if !(self.aesthetic_tokens[len - 1].span.start < span.start) {
                break ;
            }
            let ghost top = self.aesthetic_tokens@;
            let token = self.aesthetic_tokens.pop().unwrap();
            expr.comments_before.push(token);
            proof {
                assert(top.drop_last() == stack.take(len - 1));
                assert(token == stack[len - 1]);
                assert(stack.skip(len - 1).reverse() =~= stack.skip(len as int).reverse().push(
                    stack[len - 1],
                ));
                assert((before + stack.skip(len as int).reverse()).push(stack[len - 1]) =~= before
                    + stack.skip(len as int).reverse().push(stack[len - 1]));
            }
        }
        expr
    }

    /// Gives the expressions of `stmt` their comments: the value of a
    /// variable, and the values in the statements of a module. No other
    /// expression is visited, and none inside a value.
    pub fn fold_stmt(&mut self, stmt: Stmt) -> (r: Stmt)
        ensures
            stmt_with_comments(stmt, old(self).aesthetic_tokens@, r),
            final(self).aesthetic_tokens@ == rest_after_stmt(stmt, old(self).aesthetic_tokens@),
        decreases stmt, 0nat,
    {
        let Stmt { kind, span, annotations } = stmt;
        let kind = match kind {
            StmtKind::VarDef(var_def) => {
                let VarDef { kind, name, value, ty } = var_def;
                let value = match value {
                    Some(value) => Some(Box::new(self.fold_expr(*value))),
                    None => None,
                };
                StmtKind::VarDef(VarDef { kind, name, value, ty })
            },
            StmtKind::ModuleDef(module_def) => {
                let ModuleDef { name, stmts } = module_def;
                let stmts = self.fold_stmts(stmts);
                StmtKind::ModuleDef(ModuleDef { name, stmts })
            },
            other => other,
        };
        Stmt { kind, span, annotations }
    }

    /// Gives the expressions of `stmts` their comments, one statement
    /// after the other.
    #[verifier::loop_isolation(false)]
    pub fn fold_stmts(&mut self, stmts: Vec<Stmt>) -> (r: Vec<Stmt>)
        ensures
            stmts_with_comments(stmts@, old(self).aesthetic_tokens@, r@),
            final(self).aesthetic_tokens@ == rest_after_stmts(
                stmts@,
                stmts@.len(),
                old(self).aesthetic_tokens@,
            ),
        decreases stmts@, stmts@.len(),
    {
        let ghost olds = stmts@;
        let ghost stack = self.aesthetic_tokens@;
        let mut rest = reverse_vec(stmts);
        let mut r: Vec<Stmt> = Vec::new();
        while rest.len() > 0
            invariant
                r@.len() + rest@.len() == olds.len(),
                rest@ == olds.reverse().take(rest@.len() as int),
                self.aesthetic_tokens@ == rest_after_stmts(olds, r@.len(), stack),
                forall|i: int|
                    0 <= i < r@.len() ==> stmt_with_comments(
                        #[trigger] olds[i],
                        rest_after_stmts(olds, i as nat, stack),
                        r@[i],
                    ),
            decreases rest.len(),
        {
            let ghost done = r@.len();
            let stmt = rest.pop().unwrap();
            assert(stmt == olds[done as int]);
            let folded = self.fold_stmt(stmt);
            r.push(folded);
        }
        r
    }
}

/// Add comments to the parsed statements from the tokens: every comment,
/// line break and wrapped line goes to the first value of a variable
/// definition that starts after it. The expressions inside a value are
/// not visited.
#[verifier::loop_isolation(false)]
pub fn add_comments_to_pl(tokens: &Tokens, pl: &mut Vec<Stmt>)
    ensures
        stmts_with_comments(old(pl)@, aesthetic(tokens.0@).reverse(), final(pl)@),
{
    let mut comments: Vec<Token> = Vec::new();
    let mut i: usize = 0;
    while i < tokens.0.len()
        invariant
            i <= tokens.0.len(),
            comments@ == aesthetic(tokens.0@.take(i as int)),
        decreases tokens.0.len() - i,
    {
        proof {
            assert(tokens.0@.take(i + 1).drop_last() == tokens.0@.take(i as int));
        }
        match clone_aesthetic(&tokens.0[i]) {
            Some(token) => {
                comments.push(token);
            },
            None => {},
        }
        i += 1;
    }
    proof {
        assert(tokens.0@.take(i as int) == tokens.0@);
    }
    let mut adder = AestheticTokensAdder::new(comments);
    let mut stmts: Vec<Stmt> = Vec::new();
    core::mem::swap(pl, &mut stmts);
    let folded = adder.fold_stmts(stmts);
    *pl = folded;
}

} // verus!
