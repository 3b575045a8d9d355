//! The concrete commands of the scripting-shell protocol: device
//! selection, file registration, option setting and run-stage selection.
//! Each turns into a [`TclCommand`] through a method whose contract pins
//! the name, flags and arguments of the result.

use vstd::prelude::*;
use crate::command::TclCommand;

verus! {

/// Registers the files of one file-type tag:
/// `add_file -type <tag> <paths...>`.
#[derive(Debug)]
pub struct AddFiles {
    pub filetype: String,
    pub files: Vec<String>,
}

/// Holds of a command that registers exactly `paths` under `tag`.
pub open spec fn is_add_files(c: TclCommand, tag: Seq<char>, paths: Seq<Seq<char>>) -> bool {
    &&& c.name_spec() == "add_file"@
    &&& c.flags_spec() == seq![("type"@, tag)]
    &&& c.args_spec() == paths
}

impl AddFiles {
    pub fn into_command(self) -> (r: TclCommand)
        ensures
            is_add_files(r, self.filetype@, self.files.deep_view()),
    {
        let mut tcl = TclCommand::new("add_file");
        tcl.push_flag("type", self.filetype.as_str());
        proof {
            assert(tcl.flags_spec() =~= seq![("type"@, self.filetype@)]);
        }
        let mut i: usize = 0;
        while i < self.files.len()
            invariant
                i <= self.files.len(),
                tcl.name_spec() == "add_file"@,
                tcl.flags_spec() == seq![("type"@, self.filetype@)],
                tcl.args_spec() == self.files.deep_view().take(i as int),
            decreases self.files.len() - i,
        {
            tcl.push_arg(self.files[i].as_str());
            proof {
                let fv = self.files.deep_view();
                assert(fv.take(i + 1) =~= fv.take(i as int).push(fv[i as int]));
            }
            i = i + 1;
        }
        proof {
            assert(self.files.deep_view().take(self.files@.len() as int) =~= self.files.deep_view());
        }
        tcl
    }
}

/// Selects the target device: `set_device -name <family> <part>`.
#[derive(Debug)]
pub struct SetDevice {
    pub family: String,
    pub part: String,
}

/// Holds of a command that selects device `family` / `part`.
pub open spec fn is_set_device(c: TclCommand, family: Seq<char>, part: Seq<char>) -> bool {
    &&& c.name_spec() == "set_device"@
    &&& c.flags_spec() == seq![("name"@, family)]
    &&& c.args_spec() == seq![part]
}

impl SetDevice {
    pub fn into_command(self) -> (r: TclCommand)
        ensures
            is_set_device(r, self.family@, self.part@),
    {
        let r = TclCommand::new("set_device")
            .flag("name", self.family.as_str())
            .arg(self.part.as_str());
        proof {
            assert(r.flags_spec() =~= seq![("name"@, self.family@)]);
            assert(r.args_spec() =~= seq![self.part@]);
        }
        r
    }
}

/// Sets a single project option: `set_option -<name> <value>`.
#[derive(Debug)]
pub struct SetOption {
    pub name: String,
    pub value: String,
}

impl SetOption {
    pub fn into_command(self) -> (r: TclCommand)
        ensures
            r.name_spec() == "set_option"@,
            r.flags_spec() == seq![(self.name@, self.value@)],
            r.args_spec() == Seq::<Seq<char>>::empty(),
    {
        let r = TclCommand::new("set_option").flag(self.name.as_str(), self.value.as_str());
        proof {
            assert(r.flags_spec() =~= seq![(self.name@, self.value@)]);
        }
        r
    }
}

/// One `-name value` entry of the batched option command.
#[derive(Debug, Clone)]
pub struct ProjectOption {
    pub name: String,
    pub value: String,
}

/// The flag pairs that a list of project options contributes, in order.
pub open spec fn options_flags(options: Seq<ProjectOption>) -> Seq<(Seq<char>, Seq<char>)> {
    options.map_values(|o: ProjectOption| (o.name@, o.value@))
}

impl ProjectOption {
    /// A single-option `set_option` command.
    pub fn into_command(self) -> (r: TclCommand)
        ensures
            r.name_spec() == "set_option"@,
            r.flags_spec() == seq![(self.name@, self.value@)],
            r.args_spec() == Seq::<Seq<char>>::empty(),
    {
        let r = TclCommand::new("set_option").flag(self.name.as_str(), self.value.as_str());
        proof {
            assert(r.flags_spec() =~= seq![(self.name@, self.value@)]);
        }
        r
    }
}

/// The accumulator for the batched option command: every pushed option
/// becomes one repeated flag on a single `set_option` line.
#[derive(Debug, Clone)]
pub struct SetOptions(pub Vec<ProjectOption>);

/// Holds of a command that sets exactly the flag pairs `flags` on one
/// `set_option` line.
pub open spec fn is_set_options(c: TclCommand, flags: Seq<(Seq<char>, Seq<char>)>) -> bool {
    &&& c.name_spec() == "set_option"@
    &&& c.flags_spec() == flags
    &&& c.args_spec() == Seq::<Seq<char>>::empty()
}

impl Default for SetOptions {
    fn default() -> (r: Self)
        ensures
            r.0@ == Seq::<ProjectOption>::empty(),
    {
        SetOptions(Vec::new())
    }
}

impl SetOptions {
    pub fn push(&mut self, option: ProjectOption)
        ensures
            final(self).0@ == old(self).0@.push(option),
    {
        self.0.push(option);
    }

    pub fn into_command(self) -> (r: TclCommand)
        ensures
            is_set_options(r, options_flags(self.0@)),
    {
        let mut command = TclCommand::new("set_option");
        let mut i: usize = 0;
        while i < self.0.len()
            invariant
                i <= self.0.len(),
                command.name_spec() == "set_option"@,
                command.flags_spec() == options_flags(self.0@.take(i as int)),
                command.args_spec() == Seq::<Seq<char>>::empty(),
            decreases self.0.len() - i,
        {
            command.push_flag(self.0[i].name.as_str(), self.0[i].value.as_str());
            proof {
                assert(options_flags(self.0@.take(i + 1)) =~= options_flags(
                    self.0@.take(i as int),
                ).push((self.0@[i as int].name@, self.0@[i as int].value@)));
            }
            i = i + 1;
        }
        proof {
            assert(self.0@.take(self.0@.len() as int) =~= self.0@);
        }
        command
    }
}

/// The run stage handed to the shell after configuration.
#[derive(Debug, Copy, Clone)]
pub enum Run {
    Syn,
    Pnr,
    All,
}

/// The literal argument of the `run` command for each stage.
pub open spec fn run_stage_text(stage: Run) -> Seq<char> {
    match stage {
        Run::Syn => "syn"@,
        Run::Pnr => "pnr"@,
        Run::All => "all"@,
    }
}

impl Run {
    pub fn into_command(self) -> (r: TclCommand)
        ensures
            r.name_spec() == "run"@,
            r.flags_spec() == Seq::<(Seq<char>, Seq<char>)>::empty(),
            r.args_spec() == seq![run_stage_text(self)],
    {
        let stage = match self {
            Run::Syn => "syn",
            Run::Pnr => "pnr",
            Run::All => "all",
        };
        let r = TclCommand::new("run").arg(stage);
        proof {
            assert(r.args_spec() =~= seq![run_stage_text(self)]);
        }
        r
    }
}

} // verus!
