//! The options that are handed down while source text is written.

use crate::codegen::precedence::Position;
use crate::lexer::Tokens;
use crate::text::{line_width, str_line_width};
use vstd::prelude::*;
use vstd::string::*;

verus! {

/// Width of a line where the caller sets none.
pub const DEFAULT_WIDTH: u16 = 50;

/// What a writer knows of the place it writes to.
#[derive(Clone, Copy, Debug)]
pub struct WriteOpt<'a> {
    /// Maximum number of bytes per line.
    pub max_width: u16,
    /// Depth of indentation of the current line, in steps of two spaces.
    pub indent: u16,
    /// Bytes that are left on the current line.
    pub rem_width: u16,
    /// Binding strength of what surrounds the expression: 0 at the top
    /// level and inside brackets.
    pub context_strength: u8,
    /// The side of a binary operator on which the expression stands.
    pub binary_position: Position,
    /// True where the text before ends in an expression that a unary
    /// operator after it would be read as joined to.
    pub unbound_expr: bool,
    /// Whether the comments that follow an expression are written.
    pub enable_comments: bool,
    /// The tokens of the source, for the comments among them.
    pub tokens: Option<&'a Tokens>,
}

/// The text of `n` steps of indentation.
pub open spec fn indent_text(n: nat) -> Seq<char>
    decreases n,
{
    if n == 0 {
        Seq::empty()
    } else {
        indent_text((n - 1) as nat) + "  "@
    }
}

impl<'a> WriteOpt<'a> {
    /// The options after `width` more bytes of the line are used, where
    /// that many are left.
    pub open spec fn spec_consume_width(self, width: nat) -> Option<WriteOpt<'a>> {
        if width <= self.rem_width {
            Some(WriteOpt { rem_width: (self.rem_width - width) as u16, ..self })
        } else {
            None
        }
    }

    /// The options after `source` is put on the line, where it fits.
    pub open spec fn spec_consume(self, source: Seq<char>) -> Option<WriteOpt<'a>> {
        self.spec_consume_width(line_width(source))
    }

    /// The options at the start of a fresh line: the whole width less the
    /// indentation, where the indentation leaves any.
    pub open spec fn spec_reset_line(self) -> Option<WriteOpt<'a>> {
        if 2 * self.indent <= self.max_width {
            Some(WriteOpt { rem_width: (self.max_width - 2 * self.indent) as u16, ..self })
        } else {
            None
        }
    }

    /// The options at the start of a fresh line that is indented one step
    /// further.
    pub open spec fn spec_deeper_line(self) -> Option<WriteOpt<'a>> {
        if self.indent < u16::MAX {
            (WriteOpt { indent: (self.indent + 1) as u16, ..self }).spec_reset_line()
        } else {
            None
        }
    }

    /// The options for what stands inside a pair of brackets.
    pub open spec fn spec_inside(self) -> WriteOpt<'a> {
        WriteOpt { context_strength: 0, unbound_expr: false, ..self }
    }

    /// The options for an operand of an expression that binds with
    /// `strength`. The comments after an operand are left to the
    /// expression that holds it.
    pub open spec fn spec_within(self, strength: u8) -> WriteOpt<'a> {
        WriteOpt { context_strength: strength, enable_comments: false, ..self }
    }

    pub open spec fn spec_new_width(max_width: u16) -> WriteOpt<'a> {
        WriteOpt {
            max_width,
            indent: 0,
            rem_width: max_width,
            context_strength: 0,
            binary_position: Position::Unspecified,
            unbound_expr: false,
            enable_comments: true,
            tokens: None,
        }
    }

    /// Options for lines of `max_width` bytes, at the start of the first.
    pub fn new_width(max_width: u16) -> (r: WriteOpt<'a>)
        ensures
            r == Self::spec_new_width(max_width),
    {
        WriteOpt {
            max_width,
            indent: 0,
            rem_width: max_width,
            context_strength: 0,
            binary_position: Position::Unspecified,
            unbound_expr: false,
            enable_comments: true,
            tokens: None,
        }
    }

    /// Takes `width` bytes from what is left of the line. Where fewer are
    /// left, the options stay as they are and `None` is returned.
    pub fn consume_width(&mut self, width: usize) -> (r: Option<()>)
        ensures
            match old(self).spec_consume_width(width as nat) {
                Some(o) => r is Some && *final(self) == o,
                None => r is None && *final(self) == *old(self),
            },
    {
        if width <= self.rem_width as usize {
            self.rem_width = self.rem_width - width as u16;
            Some(())
        } else {
            None
        }
    }

    /// Restarts the count for a fresh line at the current indentation.
    /// Where the indentation takes more than the line has, the options
    /// stay as they are and `None` is returned.
    pub fn reset_line(&mut self) -> (r: Option<()>)
        ensures
            match old(self).spec_reset_line() {
                Some(o) => r is Some && *final(self) == o,
                None => r is None && *final(self) == *old(self),
            },
    {
        let ident: u32 = 2 * (self.indent as u32);
        if ident <= self.max_width as u32 {
            self.rem_width = (self.max_width as u32 - ident) as u16;
            Some(())
        } else {
            None
        }
    }

    /// Puts `source` on the line: succeeds, and hands `source` back, if
    /// and only if the line has room for it.
    pub fn consume<'s>(&mut self, source: &'s str) -> (r: Option<&'s str>)
        ensures
            match old(self).spec_consume(source@) {
                Some(o) => r == Some(source) && *final(self) == o,
                None => r is None && *final(self) == *old(self),
            },
    {
        let width = str_line_width(source);
        match self.consume_width(width) {
            Some(_) => Some(source),
            None => None,
        }
    }

    /// The indentation of the current line: two spaces for each step.
    pub fn write_indent(&self) -> (r: String)
        ensures
            r@ == indent_text(self.indent as nat),
    {
        let mut r = String::new();
        let mut i: u16 = 0;
        while i < self.indent
            invariant
                i <= self.indent,
                r@ == indent_text(i as nat),
            decreases self.indent - i,
        {
            r.append("  ");
            i += 1;
        }
        r
    }

    /// The options one step of indentation further in, at the start of a
    /// fresh line.
    pub fn deeper_line(&self) -> (r: Option<WriteOpt<'a>>)
        ensures
            r == self.spec_deeper_line(),
    {
        if self.indent < u16::MAX {
            let mut o = *self;
            o.indent = self.indent + 1;
            match o.reset_line() {
                Some(_) => Some(o),
                None => None,
            }
        } else {
            None
        }
    }

    pub fn inside(&self) -> (r: WriteOpt<'a>)
        ensures
            r == self.spec_inside(),
    {
        let mut o = *self;
        o.context_strength = 0;
        o.unbound_expr = false;
        o
    }

    pub fn within(&self, strength: u8) -> (r: WriteOpt<'a>)
        ensures
            r == self.spec_within(strength),
    {
        let mut o = *self;
        o.context_strength = strength;
        o.enable_comments = false;
        o
    }
}

impl<'a> Default for WriteOpt<'a> {
    fn default() -> (r: Self)
        ensures
            r == WriteOpt::spec_new_width(DEFAULT_WIDTH),
    {
        WriteOpt::new_width(DEFAULT_WIDTH)
    }
}

} // verus!
