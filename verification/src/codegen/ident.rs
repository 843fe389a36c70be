//! Names as they are written in source text.

use crate::codegen::options::WriteOpt;
use crate::pr::ident::Ident;
use crate::text::{str_eq, str_width, view_opt, width};
use regex::Regex;
use vstd::prelude::*;
use vstd::string::*;

verus! {

/// The pattern of a name that can stand in source text as it is.
pub const VALID_PRQL_IDENT: &'static str = r"^(?:\*|[a-zA-Z_$][a-zA-Z0-9_$]*)$";

/// A character that a plain name can start with.
pub open spec fn is_ident_start(c: char) -> bool {
    ('a' <= c && c <= 'z') || ('A' <= c && c <= 'Z') || c == '_' || c == '$'
}

/// A character that a plain name can go on with.
pub open spec fn is_ident_continue(c: char) -> bool {
    is_ident_start(c) || ('0' <= c && c <= '9')
}

/// The names that need no quoting by their shape: a single star, or a
/// letter, underscore or dollar sign followed by any number of letters,
/// digits, underscores and dollar signs.
pub open spec fn is_plain_name(s: Seq<char>) -> bool {
    s == seq!['*'] || (s.len() > 0 && is_ident_start(s[0]) && forall|i: int|
        1 <= i < s.len() ==> is_ident_continue(#[trigger] s[i]))
}

/// The words that the language keeps for itself.
pub open spec fn is_keyword(s: Seq<char>) -> bool {
    s == "let"@ || s == "into"@ || s == "case"@ || s == "prql"@ || s == "type"@ || s == "module"@
        || s == "internal"@ || s == "func"@
}

/// One part of a name as it is written: as it is where it is a plain name
/// and no keyword, between backticks otherwise.
pub open spec fn ident_part(s: Seq<char>) -> Seq<char> {
    if is_plain_name(s) && !is_keyword(s) {
        s
    } else {
        "`"@ + s + "`"@
    }
}

/// Runs `regex::Regex::is_match` on `s` with the pattern of plain names.
/// The pattern is anchored at both ends of `s` and holds two
/// alternatives: an escaped star, and one character of the class
/// `[a-zA-Z_$]` followed by any number of the class `[a-zA-Z0-9_$]`. The
/// contract reads that pattern: the result is true exactly for the texts
/// that `is_plain_name` describes.
#[verifier::external_body]
fn matches_valid_ident(pattern: &str, s: &str) -> (b: bool)
    requires
        pattern@ == VALID_PRQL_IDENT@,
    ensures
        b == is_plain_name(s@),
{
    Regex::new(pattern).unwrap().is_match(s)
}

pub fn keyword(s: &str) -> (b: bool)
    ensures
        b == is_keyword(s@),
{
    str_eq(s, "let") || str_eq(s, "into") || str_eq(s, "case") || str_eq(s, "prql") || str_eq(
        s,
        "type",
    ) || str_eq(s, "module") || str_eq(s, "internal") || str_eq(s, "func")
}

/// Writes one part of a name, quoted with backticks where it could not be
/// read back as a name otherwise.
pub fn write_ident_part(s: &str) -> (r: String)
    ensures
        r@ == ident_part(s@),
{
    if matches_valid_ident(VALID_PRQL_IDENT, s) && !keyword(s) {
        String::from_str(s)
    } else {
        let mut r = String::from_str("`");
        r.append(s);
        r.append("`");
        r
    }
}

/// Width of the parts of `path`, each with the dot after it.
pub open spec fn path_width(path: Seq<String>) -> nat
    decreases path.len(),
{
    if path.len() == 0 {
        0
    } else {
        path_width(path.drop_last()) + width(path.last()@) + 1
    }
}

/// The parts of `path` as written, each with the dot after it.
pub open spec fn path_text(path: Seq<String>) -> Seq<char>
    decreases path.len(),
{
    if path.len() == 0 {
        Seq::empty()
    } else {
        path_text(path.drop_last()) + ident_part(path.last()@) + "."@
    }
}

/// A name with its path as written, where the parts and the dots between
/// them, not counting any backticks, fit on the line.
pub open spec fn ident_source(ident: Ident, opt: WriteOpt) -> Option<Seq<char>> {
    if path_width(ident.path@) + width(ident.name@) <= opt.rem_width {
        Some(path_text(ident.path@) + ident_part(ident.name@))
    } else {
        None
    }
}

proof fn lemma_path_width_grows(path: Seq<String>, j: int)
    requires
        0 <= j <= path.len(),
    ensures
        path_width(path.take(j)) <= path_width(path),
    decreases path.len() - j,
{
    if j < path.len() {
        assert(path.take(j + 1).drop_last() == path.take(j));
        lemma_path_width_grows(path, j + 1);
    } else {
        assert(path.take(j) == path);
    }
}

impl Ident {
    /// Writes the name with its path, the parts joined by dots.
    pub fn write(&self, opt: WriteOpt) -> (r: Option<String>)
        ensures
            view_opt(r) == ident_source(*self, opt),
    {
        let limit = opt.rem_width as usize;
        let name_width = str_width(self.name.as_str());
        if name_width > limit {
            return None;
        }
        let mut total: usize = name_width;
        let mut r = String::new();
        let mut i: usize = 0;
        while i < self.path.len()
            invariant
                i <= self.path.len(),
                limit == opt.rem_width,
                name_width == width(self.name@),
                total == path_width(self.path@.take(i as int)) + name_width,
                total <= limit,
                r@ == path_text(self.path@.take(i as int)),
            decreases self.path.len() - i,
        {
            let part_width = str_width(self.path[i].as_str());
            proof {
                assert(self.path@.take(i + 1).drop_last() == self.path@.take(i as int));
            }
            if part_width >= limit || total > limit - part_width - 1 {
                proof {
                    lemma_path_width_grows(self.path@, i as int + 1);
                }
                return None;
            }
            total = total + part_width + 1;
            let part = write_ident_part(self.path[i].as_str());
            r.append(part.as_str());
            r.append(".");
            i += 1;
        }
        proof {
            assert(self.path@.take(i as int) == self.path@);
        }
        let name = write_ident_part(self.name.as_str());
        r.append(name.as_str());
        Some(r)
    }
}

} // verus!
