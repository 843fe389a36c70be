//! The text written so far, with the options as they stand after it.

use crate::codegen::options::WriteOpt;
use crate::text::{line_width, str_line_width, str_width, view_opt, width};
use vstd::prelude::*;
use vstd::string::*;

verus! {

/// What has been written, and whether all of it fitted. Once a piece did
/// not fit, `ok` stays false and nothing more is taken from the line.
pub struct Out<'a> {
    pub ok: bool,
    pub text: Seq<char>,
    pub opt: WriteOpt<'a>,
}

impl<'a> Out<'a> {
    /// Nothing written yet.
    pub open spec fn start(opt: WriteOpt<'a>) -> Out<'a> {
        Out { ok: true, text: Seq::empty(), opt }
    }

    pub open spec fn fail(self) -> Out<'a> {
        Out { ok: false, ..self }
    }

    /// Appends `s` without counting it.
    pub open spec fn put(self, s: Seq<char>) -> Out<'a> {
        Out { text: self.text + s, ..self }
    }

    /// Takes `n` bytes from the line.
    pub open spec fn take(self, n: nat) -> Out<'a> {
        match self.opt.spec_consume_width(n) {
            Some(o) if self.ok => Out { opt: o, ..self },
            _ => self.fail(),
        }
    }

    /// Appends `s` and takes the room of its last line from the line.
    pub open spec fn emit(self, s: Seq<char>) -> Out<'a> {
        self.take(line_width(s)).put(s)
    }

    /// Appends `s` and takes its whole width from the line.
    pub open spec fn emit_whole(self, s: Seq<char>) -> Out<'a> {
        self.take(width(s)).put(s)
    }

    /// As `put`, for a piece that may have failed itself.
    pub open spec fn put_opt(self, s: Option<Seq<char>>) -> Out<'a> {
        match s {
            Some(t) => self.put(t),
            None => self.fail(),
        }
    }

    /// As `emit`, for a piece that may have failed itself.
    pub open spec fn emit_opt(self, s: Option<Seq<char>>) -> Out<'a> {
        match s {
            Some(t) => self.emit(t),
            None => self.fail(),
        }
    }

    /// As `emit_whole`, for a piece that may have failed itself.
    pub open spec fn emit_whole_opt(self, s: Option<Seq<char>>) -> Out<'a> {
        match s {
            Some(t) => self.emit_whole(t),
            None => self.fail(),
        }
    }

    pub open spec fn with_opt(self, opt: WriteOpt<'a>) -> Out<'a> {
        Out { opt, ..self }
    }

    /// The text, if all of it fitted.
    pub open spec fn done(self) -> Option<Seq<char>> {
        if self.ok {
            Some(self.text)
        } else {
            None
        }
    }
}

/// Collects the pieces of one text and keeps count of the line.
pub struct Writer<'a> {
    pub ok: bool,
    pub text: String,
    pub opt: WriteOpt<'a>,
}

impl<'a> View for Writer<'a> {
    type V = Out<'a>;

    open spec fn view(&self) -> Out<'a> {
        Out { ok: self.ok, text: self.text@, opt: self.opt }
    }
}

impl<'a> Writer<'a> {
    pub fn new(opt: WriteOpt<'a>) -> (w: Self)
        ensures
            w@ == Out::start(opt),
    {
        Writer { ok: true, text: String::new(), opt }
    }

    pub fn fail(&mut self)
        ensures
            final(self)@ == old(self)@.fail(),
    {
        self.ok = false;
    }

    pub fn put(&mut self, s: &str)
        ensures
            final(self)@ == old(self)@.put(s@),
    {
        self.text.append(s);
    }

    pub fn take(&mut self, n: usize)
        ensures
            final(self)@ == old(self)@.take(n as nat),
    {
        if self.ok {
            match self.opt.consume_width(n) {
                Some(_) => {},
                None => {
                    self.ok = false;
                },
            }
        }
    }

    pub fn emit(&mut self, s: &str)
        ensures
            final(self)@ == old(self)@.emit(s@),
    {
        self.take(str_line_width(s));
        self.put(s);
    }

    pub fn emit_whole(&mut self, s: &str)
        ensures
            final(self)@ == old(self)@.emit_whole(s@),
    {
        self.take(str_width(s));
        self.put(s);
    }

    pub fn put_opt(&mut self, s: &Option<String>)
        ensures
            final(self)@ == old(self)@.put_opt(view_opt(*s)),
    {
        match s {
            Some(t) => self.put(t.as_str()),
            None => self.fail(),
        }
    }

    pub fn emit_opt(&mut self, s: &Option<String>)
        ensures
            final(self)@ == old(self)@.emit_opt(view_opt(*s)),
    {
        match s {
            Some(t) => self.emit(t.as_str()),
            None => self.fail(),
        }
    }

    pub fn emit_whole_opt(&mut self, s: &Option<String>)
        ensures
            final(self)@ == old(self)@.emit_whole_opt(view_opt(*s)),
    {
        match s {
            Some(t) => self.emit_whole(t.as_str()),
            None => self.fail(),
        }
    }

    pub fn done(self) -> (r: Option<String>)
        ensures
            view_opt(r) == self@.done(),
    {
        if self.ok {
            Some(self.text)
        } else {
            None
        }
    }
}

} // verus!
