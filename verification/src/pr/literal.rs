use crate::text::{decimal, i64_to_string, quote_string, quoted};
use vstd::prelude::*;
use vstd::string::*;

verus! {

/// A literal value. A number with a fraction is held as the text that
/// stands for it in source.
#[derive(Clone, Debug, PartialEq, Eq)]
pub enum Literal {
    Null,
    Integer(i64),
    Float(String),
    Boolean(bool),
    String(String),
    RawString(String),
    Date(String),
    Time(String),
    Timestamp(String),
    ValueAndUnit { n: i64, unit: String },
}

impl Literal {
    /// The canonical text of the literal.
    pub open spec fn text(self) -> Seq<char> {
        match self {
            Literal::Null => "null"@,
            Literal::Integer(i) => decimal(i as int),
            Literal::Float(f) => f@,
            Literal::Boolean(b) => if b {
                "true"@
            } else {
                "false"@
            },
            Literal::String(s) => quoted(s@),
            Literal::RawString(s) => "r\""@ + s@ + "\""@,
            Literal::Date(s) => "@"@ + s@,
            Literal::Time(s) => "@"@ + s@,
            Literal::Timestamp(s) => "@"@ + s@,
            Literal::ValueAndUnit { n, unit } => decimal(n as int) + unit@,
        }
    }

    /// Writes the literal in its canonical text.
    pub fn to_text(&self) -> (r: String)
        ensures
            r@ == self.text(),
    {
        match self {
            Literal::Null => String::from_str("null"),
            Literal::Integer(i) => i64_to_string(*i),
            Literal::Float(f) => f.clone(),
            Literal::Boolean(b) => if *b {
                String::from_str("true")
            } else {
                String::from_str("false")
            },
            Literal::String(s) => quote_string(s.as_str()),
            Literal::RawString(s) => {
                let mut r = String::from_str("r\"");
                r.append(s.as_str());
                r.append("\"");
                r
            },
            Literal::Date(s) | Literal::Time(s) | Literal::Timestamp(s) => {
                let mut r = String::from_str("@");
                r.append(s.as_str());
                r
            },
            Literal::ValueAndUnit { n, unit } => {
                let mut r = i64_to_string(*n);
                r.append(unit.as_str());
                r
            },
        }
    }
}

} // verus!
