use vstd::prelude::*;
use vstd::string::*;

use crate::error::Error;
use crate::state::State;

verus! {

/// What running a hook asks of the caller.
#[derive(Debug)]
pub enum HookStep {
    /// There is no hook to run.
    Skip,
    /// Run this command in a shell with the standard streams inherited, wait
    /// for it and report how it exited.
    Run(Vec<u8>),
}

/// How a hook's process exited.
#[derive(Debug)]
pub struct HookStatus {
    /// Whether it exited successfully.
    pub success: bool,
    /// Its exit status, as shown to the user.
    pub status: String,
}

/// Whether `cmd` names a hook to run: present and not empty.
pub open spec fn hook_present(cmd: Option<Vec<u8>>) -> bool {
    cmd matches Some(c) && c@.len() > 0
}

/// The line announcing that hook `name` runs.
pub open spec fn running_text(name: Seq<char>) -> Seq<char> {
    "Running "@ + name + " hook\n"@
}

/// The outcome of hook `name` that exited as `r` reports.
pub open spec fn hook_outcome(name: Seq<char>, r: Result<HookStatus, String>, e: Result<(), Error>) -> bool {
    match r {
        Ok(st) => if st.success {
            e is Ok
        } else {
            e matches Err(Error::HookFailed { name: n, status: s }) && n@ == name && s@ == st.status@
        },
        Err(c) => e matches Err(Error::HookNotRun { name: n, cause: d }) && n@ == name && d@ == c@,
    }
}

impl State {
    /// Decides whether hook `name` runs. An absent or empty command is
    /// skipped silently; otherwise the run is announced.
    pub fn run_hook(&mut self, cmd: &Option<Vec<u8>>, name: &str) -> (r: HookStep)
        ensures
            final(self).color == old(self).color,
            !hook_present(*cmd) ==> r is Skip && final(self).out@ == old(self).out@,
            hook_present(*cmd) ==> (r matches HookStep::Run(c) && c@ == cmd->Some_0@),
            hook_present(*cmd) ==> final(self).out@ == old(self).out@ + running_text(name@),
    {
        match cmd {
            Some(c) => {
                if c.len() == 0 {
                    HookStep::Skip
                } else {
                    self.out.append("Running ");
                    self.out.append(name);
                    self.out.append(" hook\n");
                    HookStep::Run(c.clone())
                }
            },
            None => HookStep::Skip,
        }
    }
}

/// The outcome of hook `name`, given how it exited: an error unless it
/// exited successfully.
pub fn hook_finished(name: &str, r: Result<HookStatus, String>) -> (e: Result<(), Error>)
    ensures
        hook_outcome(name@, r, e),
{
    match r {
        Ok(st) => if st.success {
            Ok(())
        } else {
            Err(Error::HookFailed { name: String::from_str(name), status: st.status })
        },
        Err(c) => Err(Error::HookNotRun { name: String::from_str(name), cause: c }),
    }
}

} // verus!
