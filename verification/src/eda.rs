//! The toolchain installation: knows where the vendor tools live and
//! hands out runners bound to the right executables.
//!
//! Discovering the home directory is environmental (an environment
//! variable, or a marker file in the working directory), so the caller
//! reads it and passes the value in; likewise any platform-specific
//! executable suffix is the caller's concern.

use vstd::prelude::*;
use vstd::string::StringExecFns;
use crate::pipeline::Pipeline;
use crate::programmer::Programmer;

verus! {

/// A Gowin EDA installation, identified by its home directory.
#[derive(Debug, Clone)]
pub struct GowinEda {
    pub home: String,
}

impl GowinEda {
    pub fn new(home: &str) -> (r: Self)
        ensures
            r.home@ == home@,
    {
        GowinEda { home: home.to_owned() }
    }

    /// An empty scripting pipeline bound to the installation's shell,
    /// `IDE/bin/gw_sh` under the home directory.
    pub fn pipeline(&self) -> (r: Pipeline)
        ensures
            r.bin_spec() == self.home@ + "/IDE/bin/gw_sh"@,
            r.cmds() == Seq::<crate::command::TclCommand>::empty(),
    {
        let mut bin = self.home.clone();
        bin.append("/IDE/bin/gw_sh");
        Pipeline::new(bin.as_str())
    }

    /// An empty programmer invocation bound to the installation's
    /// programmer, `Programmer/bin/programmer_cli` under the home
    /// directory.
    pub fn programmer(&self) -> (r: Programmer)
        ensures
            r.bin_spec() == self.home@ + "/Programmer/bin/programmer_cli"@,
            r.args_map() == Map::<Seq<char>, Seq<char>>::empty(),
            r.wf(),
    {
        let mut bin = self.home.clone();
        bin.append("/Programmer/bin/programmer_cli");
        Programmer::new(bin.as_str())
    }
}

} // verus!
