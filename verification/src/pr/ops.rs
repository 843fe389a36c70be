use vstd::prelude::*;

verus! {

/// Operators of one operand.
#[derive(Clone, Copy, Debug, PartialEq, Eq, Structural)]
pub enum UnOp {
    Neg,
    Add,
    Not,
    EqSelf,
}

/// Operators of two operands.
#[derive(Clone, Copy, Debug, PartialEq, Eq, Structural)]
pub enum BinOp {
    Mul,
    DivInt,
    DivFloat,
    Mod,
    Pow,
    Add,
    Sub,
    Eq,
    Ne,
    Gt,
    Lt,
    Gte,
    Lte,
    RegexSearch,
    And,
    Or,
    Coalesce,
}

impl UnOp {
    /// The operator as it is written in source text.
    pub open spec fn symbol(self) -> Seq<char> {
        match self {
            UnOp::Neg => "-"@,
            UnOp::Add => "+"@,
            UnOp::Not => "!"@,
            UnOp::EqSelf => "=="@,
        }
    }

    pub fn as_str(&self) -> (s: &'static str)
        ensures
            s@ == self.symbol(),
    {
        match self {
            UnOp::Neg => "-",
            UnOp::Add => "+",
            UnOp::Not => "!",
            UnOp::EqSelf => "==",
        }
    }
}

impl BinOp {
    /// The operator as it is written in source text.
    pub open spec fn symbol(self) -> Seq<char> {
        match self {
            BinOp::Mul => "*"@,
            BinOp::DivInt => "//"@,
            BinOp::DivFloat => "/"@,
            BinOp::Mod => "%"@,
            BinOp::Pow => "**"@,
            BinOp::Add => "+"@,
            BinOp::Sub => "-"@,
            BinOp::Eq => "=="@,
            BinOp::Ne => "!="@,
            BinOp::Gt => ">"@,
            BinOp::Lt => "<"@,
            BinOp::Gte => ">="@,
            BinOp::Lte => "<="@,
            BinOp::RegexSearch => "~="@,
            BinOp::And => "&&"@,
            BinOp::Or => "||"@,
            BinOp::Coalesce => "??"@,
        }
    }

    pub fn as_str(&self) -> (s: &'static str)
        ensures
            s@ == self.symbol(),
    {
        match self {
            BinOp::Mul => "*",
            BinOp::DivInt => "//",
            BinOp::DivFloat => "/",
            BinOp::Mod => "%",
            BinOp::Pow => "**",
            BinOp::Add => "+",
            BinOp::Sub => "-",
            BinOp::Eq => "==",
            BinOp::Ne => "!=",
            BinOp::Gt => ">",
            BinOp::Lt => "<",
            BinOp::Gte => ">=",
            BinOp::Lte => "<=",
            BinOp::RegexSearch => "~=",
            BinOp::And => "&&",
            BinOp::Or => "||",
            BinOp::Coalesce => "??",
        }
    }
}

} // verus!
