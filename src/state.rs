use vstd::prelude::*;
use vstd::string::*;

verus! {

/// What a prompt for `label` looks like.
pub open spec fn prompt_text(color: bool, label: Seq<char>) -> Seq<char> {
    if color {
        "\x1b[1;34m"@ + label + "\x1b[0m: "@
    } else {
        label + ": "@
    }
}

/// What a warning carrying `msg` looks like: a tag, the message, a newline.
pub open spec fn warning_text(color: bool, msg: Seq<char>) -> Seq<char> {
    if color {
        "\x1b[1;33mWarning\x1b[0m: "@ + msg + "\n"@
    } else {
        "Warning: "@ + msg + "\n"@
    }
}

/// The status stream: everything the client reports goes into `out`, in
/// order; the caller hands it on to the terminal.
pub struct State {
    /// Whether ANSI colors are used.
    pub color: bool,
    /// Text written so far.
    pub out: String,
}

impl State {
    /// A state without colors and with nothing written.
    pub fn buffer() -> (r: State)
        ensures
            !r.color,
            r.out@ == Seq::<char>::empty(),
    {
        State { color: false, out: String::new() }
    }

    /// Appends `s` verbatim.
    pub fn write(&mut self, s: &str)
        ensures
            final(self).color == old(self).color,
            final(self).out@ == old(self).out@ + s@,
    {
        self.out.append(s);
    }

    /// Appends a prompt for `label`; the caller then reads the answer.
    pub fn prompt(&mut self, label: &str)
        ensures
            final(self).color == old(self).color,
            final(self).out@ == old(self).out@ + prompt_text(old(self).color, label@),
    {
        if self.color {
            self.out.append("\x1b[1;34m");
            self.out.append(label);
            self.out.append("\x1b[0m: ");
        } else {
            self.out.append(label);
            self.out.append(": ");
        }
    }

    /// Appends a warning carrying `msg`.
    pub fn warn(&mut self, msg: &str)
        ensures
            final(self).color == old(self).color,
            final(self).out@ == old(self).out@ + warning_text(old(self).color, msg@),
    {
        if self.color {
            self.out.append("\x1b[1;33mWarning\x1b[0m: ");
        } else {
            self.out.append("Warning: ");
        }
        self.out.append(msg);
        self.out.append("\n");
    }
}

} // verus!
