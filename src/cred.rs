use vstd::prelude::*;
use vstd::string::*;
use vstd::utf8::*;

use crate::config::Credential;
use crate::state::{warning_text, State};
use crate::text::{decode_utf8_bytes, lossy_of, lossy_text};

verus! {

/// What resolving a credential asks of the caller.
#[derive(Debug)]
pub enum CredStep {
    /// The secret is known.
    Ready(String),
    /// Read the file at this path as UTF-8 text and report the result.
    ReadFile(Vec<u8>),
    /// Run this command in a shell, with standard input and standard error
    /// inherited, capture its output and report the result.
    RunCommand(Vec<u8>),
    /// Nothing is configured: ask the user.
    Prompt,
}

/// What a command run for a credential gave.
#[derive(Debug)]
pub struct CommandOutput {
    /// Whether it exited successfully.
    pub success: bool,
    /// Its exit status, as shown to the user.
    pub status: String,
    /// What it wrote to standard output.
    pub stdout: Vec<u8>,
}

/// The first step of resolving `cred`.
pub open spec fn cred_step_spec(cred: Option<Credential>, r: CredStep) -> bool {
    match cred {
        None => r is Prompt,
        Some(Credential::Text(s)) => r matches CredStep::Ready(t) && t@ == s@,
        Some(Credential::File(p)) => r matches CredStep::ReadFile(q) && q@ == p@,
        Some(Credential::Command(c)) => r matches CredStep::RunCommand(d) && d@ == c@,
    }
}

/// The warning given when a credential file cannot be read.
pub open spec fn file_warning(path: Seq<u8>, err: Seq<char>) -> Seq<char> {
    "failed to read "@ + lossy_of(path) + ":\n"@ + err
}

/// The warning given when a credential command fails, if it does; `None`
/// when it gives a secret.
pub open spec fn command_warning(r: Result<CommandOutput, String>) -> Option<Seq<char>> {
    match r {
        Err(e) => Some("failed to execute command: "@ + e@),
        Ok(o) => if !o.success {
            Some("command failed with exit code "@ + o.status@)
        } else if !valid_utf8(o.stdout@) {
            Some(Seq::empty())
        } else {
            None
        },
    }
}

/// A copy of some bytes.
fn copy_bytes(b: &Vec<u8>) -> (r: Vec<u8>)
    ensures
        r@ == b@,
{
    let mut r: Vec<u8> = Vec::new();
    let mut i: usize = 0;
    while i < b.len()
        invariant
            i <= b@.len(),
            r@ == b@.subrange(0, i as int),
        decreases b@.len() - i,
    {
        r.push(b[i]);
        i = i + 1;
    }
    assert(r@ =~= b@);
    r
}

impl State {
    /// Where the secret of `cred` comes from. A text credential is returned
    /// as it is, with no output and nothing else to do.
    pub fn resolve_cred(&self, cred: &Option<Credential>) -> (r: CredStep)
        ensures
            cred_step_spec(*cred, r),
    {
        match cred {
            None => CredStep::Prompt,
            Some(Credential::Text(s)) => CredStep::Ready(s.clone()),
            Some(Credential::File(p)) => CredStep::ReadFile(copy_bytes(p)),
            Some(Credential::Command(c)) => CredStep::RunCommand(copy_bytes(c)),
        }
    }

    /// The secret read from a credential file, or, when it could not be read,
    /// a warning and nothing: the caller then asks the user.
    pub fn file_read(&mut self, path: &[u8], r: Result<String, String>) -> (s: Option<String>)
        ensures
            final(self).color == old(self).color,
            r matches Ok(t) ==> (s matches Some(u) && u@ == t@) && final(self).out@ == old(self).out@,
            r matches Err(e) ==> s is None && final(self).out@ == old(self).out@ + warning_text(
                old(self).color,
                file_warning(path@, e@),
            ),
    {
        match r {
            Ok(t) => Some(t),
            Err(e) => {
                let msg = String::from_str("failed to read ").concat(lossy_text(path).as_str()).concat(
                    ":\n",
                ).concat(e.as_str());
                self.warn(msg.as_str());
                None
            },
        }
    }

    /// The secret a credential command gave: its output, if it exited
    /// successfully with UTF-8 output; else a warning and nothing.
    pub fn command_ran(&mut self, r: Result<CommandOutput, String>) -> (s: Option<String>)
        ensures
            final(self).color == old(self).color,
            command_warning(r) is None ==> (s matches Some(u) && u@ == decode_utf8(r->Ok_0.stdout@))
                && final(self).out@ == old(self).out@,
            command_warning(r) is Some ==> s is None && exists|m: Seq<char>|
                final(self).out@ == old(self).out@ + warning_text(old(self).color, m),
            command_warning(r) matches Some(w) ==> (w.len() > 0 ==> final(self).out@ == old(self).out@
                + warning_text(old(self).color, w)),
    {
        match r {
            Err(e) => {
                let msg = String::from_str("failed to execute command: ").concat(e.as_str());
                self.warn(msg.as_str());
                None
            },
            Ok(o) => {
                if !o.success {
                    let msg = String::from_str("command failed with exit code ").concat(
                        o.status.as_str(),
                    );
                    self.warn(msg.as_str());
                    None
                } else {
                    match decode_utf8_bytes(o.stdout) {
                        Ok(t) => Some(t),
                        Err(e) => {
                            self.warn(e.as_str());
                            assert(self.out@ == old(self).out@ + warning_text(old(self).color, e@));
                            None
                        },
                    }
                }
            },
        }
    }
}

} // verus!
