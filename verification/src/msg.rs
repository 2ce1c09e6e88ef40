//! Formatting and printing of the console messages.
//!
//! A `Msg` carries the invoking program's name and an indent explicitly, so
//! the exact text of every line is decided — and verified — here; only the
//! final write to stdout or stderr is taken on trust.

use std::io::Write;

use vstd::prelude::*;
use vstd::string::StringExecFns;

verus! {

/// A console message channel: the invoking program's name as prefix, an
/// indent from the left edge, and a severity.
pub struct Msg {
    pub indent: usize,
    pub prefix: String,
    pub msg_type: MsgType,
}

/// Severity of a console message.
#[derive(Clone, Copy, Debug, PartialEq, Eq, Structural)]
pub enum MsgType {
    Debug,
    Info,
    Warning,
    Error,
    Emerg,
}

/// `n` spaces.
pub open spec fn spaces(n: nat) -> Seq<char> {
    Seq::new(n, |i: int| ' ')
}

/// The tag each severity puts before the message text; `Info` lines carry
/// none.
pub open spec fn type_tag(t: MsgType) -> Seq<char> {
    match t {
        MsgType::Debug => "DEBUG: "@,
        MsgType::Info => ""@,
        MsgType::Warning => "warning: "@,
        MsgType::Error => "error: "@,
        MsgType::Emerg => "EMERG: "@,
    }
}

/// The exact line a message prints: indent, prefix, severity tag, text.
/// An emergency line is never indented.
pub open spec fn render_spec(m: Msg, msg: Seq<char>) -> Seq<char> {
    match m.msg_type {
        MsgType::Emerg => m.prefix@ + ": "@ + type_tag(MsgType::Emerg) + msg,
        _ => spaces(m.indent as nat) + m.prefix@ + ": "@ + type_tag(m.msg_type) + msg,
    }
}

/// Relies on std::hint::spin_loop: an endless idle wait. The call never
/// returns; it is the deliberate end of a process for which no meaningful
/// next step exists.
#[verifier::external_body]
pub fn idle_forever() {
    loop {
        std::hint::spin_loop();
    }
}

/// Relies on std::io::Stdout and the writeln macro: prints one line to
/// stdout.
#[verifier::external_body]
pub(crate) fn out_line(s: &str) {
    let mut so = std::io::stdout();
    let _ = writeln!(so, "{}", s);
}

/// Relies on std::io::Stderr and the writeln macro: prints one line to
/// stderr.
#[verifier::external_body]
pub(crate) fn err_line(s: &str) {
    let mut se = std::io::stderr();
    let _ = writeln!(se, "{}", s);
}

impl Msg {
    /// A message channel for the named program, starting unindented.
    pub fn new(prefix: String, msg_type: MsgType) -> (m: Self)
        ensures
            m.indent == 0,
            m.prefix == prefix,
            m.msg_type == msg_type,
    {
        Msg { indent: 0, prefix, msg_type }
    }

    /// Set a new message type.
    pub fn set_msg_type(&mut self, msg_type: MsgType)
        ensures
            final(self).msg_type == msg_type,
            final(self).prefix == old(self).prefix,
            final(self).indent == old(self).indent,
    {
        self.msg_type = msg_type;
    }

    /// Set a different message indentation from the left edge of the
    /// terminal.
    pub fn set_indent(&mut self, indent: usize)
        ensures
            final(self).indent == indent,
            final(self).prefix == old(self).prefix,
            final(self).msg_type == old(self).msg_type,
    {
        self.indent = indent;
    }

    /// The exact line `print` would write for this message text.
    pub fn render(&self, msg: &str) -> (r: String)
        ensures
            r@ == render_spec(*self, msg@),
    {
        let mut s = String::new();
        let indented = match self.msg_type {
            MsgType::Emerg => false,
            _ => true,
        };
        if indented {
            let mut i: usize = 0;
            while i < self.indent
                invariant
                    i <= self.indent,
                    s@ == spaces(i as nat),
                decreases self.indent - i,
            {
                s.append(" ");
                proof {
                    reveal_strlit(" ");
                    assert(s@ =~= spaces((i + 1) as nat));
                }
                i = i + 1;
            }
        }
        s.append(self.prefix.as_str());
        s.append(": ");
        match self.msg_type {
            MsgType::Debug => s.append("DEBUG: "),
            MsgType::Info => (),
            MsgType::Warning => s.append("warning: "),
            MsgType::Error => s.append("error: "),
            MsgType::Emerg => s.append("EMERG: "),
        }
        s.append(msg);
        proof {
            reveal_strlit("");
            assert(s@ =~= render_spec(*self, msg@));
        }
        s
    }

    /// Print the message: `Info` goes to stdout, everything else to
    /// stderr. An emergency is the end of the road: after reporting it the
    /// process idles forever, there being no meaningful next step.
    pub fn print(&self, msg: &str) {
        let line = self.render(msg);
        match self.msg_type {
            MsgType::Info => out_line(line.as_str()),
            MsgType::Emerg => {
                err_line(line.as_str());
                idle_forever();
            },
            _ => err_line(line.as_str()),
        }
    }
}

} // verus!
