//! The TCL command value object: a command name, an ordered list of
//! `-flag value` pairs (duplicates allowed and preserved) and an ordered
//! list of positional arguments.  `build` serializes it to one line of
//! text; the exact form is pinned down by [`serialize_command`].

use vstd::prelude::*;
use vstd::string::{StrSliceExecFns, StringExecFns};

verus! {

/// One statement for the vendor scripting shell.
#[derive(Debug)]
pub struct TclCommand {
    name: String,
    flags: Vec<(String, String)>,
    args: Vec<String>,
}

/// The text the flag list contributes to a serialized command:
/// `-name value ` for each pair, in order.
pub open spec fn flags_text(flags: Seq<(Seq<char>, Seq<char>)>) -> Seq<char>
    decreases flags.len(),
{
    if flags.len() == 0 {
        Seq::empty()
    } else {
        flags_text(flags.drop_last()) + "-"@ + flags.last().0 + " "@ + flags.last().1 + " "@
    }
}

/// The text the positional arguments contribute: `value ` for each, in
/// order.
pub open spec fn args_text(args: Seq<Seq<char>>) -> Seq<char>
    decreases args.len(),
{
    if args.len() == 0 {
        Seq::empty()
    } else {
        args_text(args.drop_last()) + args.last() + " "@
    }
}

/// The serialized form of a command: the name, one space, the flag text,
/// the argument text, with exactly one trailing separator trimmed.
pub open spec fn serialize_command(
    name: Seq<char>,
    flags: Seq<(Seq<char>, Seq<char>)>,
    args: Seq<Seq<char>>,
) -> Seq<char> {
    (name + " "@ + flags_text(flags) + args_text(args)).drop_last()
}

impl TclCommand {
    /// The characters of the command name.
    pub closed spec fn name_spec(&self) -> Seq<char> {
        self.name@
    }

    /// The flag pairs, in insertion order.
    pub closed spec fn flags_spec(&self) -> Seq<(Seq<char>, Seq<char>)> {
        self.flags.deep_view()
    }

    /// The positional arguments, in insertion order.
    pub closed spec fn args_spec(&self) -> Seq<Seq<char>> {
        self.args.deep_view()
    }

    /// The serialized form this command will build to.
    pub open spec fn serialized(&self) -> Seq<char> {
        serialize_command(self.name_spec(), self.flags_spec(), self.args_spec())
    }

    pub fn new(name: &str) -> (r: Self)
        ensures
            r.name_spec() == name@,
            r.flags_spec() == Seq::<(Seq<char>, Seq<char>)>::empty(),
            r.args_spec() == Seq::<Seq<char>>::empty(),
    {
        let r = TclCommand { name: name.to_owned(), flags: Vec::new(), args: Vec::new() };
        proof {
            assert(r.flags_spec() =~= Seq::<(Seq<char>, Seq<char>)>::empty());
            assert(r.args_spec() =~= Seq::<Seq<char>>::empty());
        }
        r
    }

    /// Appends one `-name value` flag pair.
    pub fn push_flag(&mut self, name: &str, value: &str)
        ensures
            final(self).name_spec() == old(self).name_spec(),
            final(self).flags_spec() == old(self).flags_spec().push((name@, value@)),
            final(self).args_spec() == old(self).args_spec(),
    {
        self.flags.push((name.to_owned(), value.to_owned()));
        proof {
            assert(self.flags_spec() =~= old(self).flags_spec().push((name@, value@)));
            assert(self.args_spec() =~= old(self).args_spec());
        }
    }

    /// Builder form of [`Self::push_flag`].
    pub fn flag(self, name: &str, value: &str) -> (r: Self)
        ensures
            r.name_spec() == self.name_spec(),
            r.flags_spec() == self.flags_spec().push((name@, value@)),
            r.args_spec() == self.args_spec(),
    {
        let mut r = self;
        r.push_flag(name, value);
        r
    }

    /// Appends one positional argument.
    pub fn push_arg(&mut self, arg: &str)
        ensures
            final(self).name_spec() == old(self).name_spec(),
            final(self).flags_spec() == old(self).flags_spec(),
            final(self).args_spec() == old(self).args_spec().push(arg@),
    {
        self.args.push(arg.to_owned());
        proof {
            assert(self.args_spec() =~= old(self).args_spec().push(arg@));
            assert(self.flags_spec() =~= old(self).flags_spec());
        }
    }

    /// Builder form of [`Self::push_arg`].
    pub fn arg(self, arg: &str) -> (r: Self)
        ensures
            r.name_spec() == self.name_spec(),
            r.flags_spec() == self.flags_spec(),
            r.args_spec() == self.args_spec().push(arg@),
    {
        let mut r = self;
        r.push_arg(arg);
        r
    }

    /// Serializes the command, consuming it.
    pub fn build(self) -> (r: String)
        ensures
            r@ == self.serialized(),
    {
        self.serialize()
    }

    /// Serializes the command without consuming it; [`Self::build`] and
    /// the pipeline's script writer share this.
    pub(crate) fn serialize(&self) -> (r: String)
        ensures
            r@ == self.serialized(),
    {
        let mut command = self.name.clone();
        command.append(" ");
        let mut i: usize = 0;
        while i < self.flags.len()
            invariant
                i <= self.flags.len(),
                command@ == self.name@ + " "@ + flags_text(self.flags.deep_view().take(i as int)),
            decreases self.flags.len() - i,
        {
            command.append("-");
            command.append(self.flags[i].0.as_str());
            command.append(" ");
            command.append(self.flags[i].1.as_str());
            command.append(" ");
            proof {
                let fv = self.flags.deep_view();
                assert(fv.take(i + 1).drop_last() =~= fv.take(i as int));
                assert(fv.take(i + 1).last() == fv[i as int]);
            }
            i = i + 1;
        }
        proof {
            assert(self.flags.deep_view().take(self.flags@.len() as int) =~= self.flags.deep_view());
        }
        let mut j: usize = 0;
        while j < self.args.len()
            invariant
                j <= self.args.len(),
                command@ == self.name@ + " "@ + flags_text(self.flags.deep_view()) + args_text(
                    self.args.deep_view().take(j as int),
                ),
            decreases self.args.len() - j,
        {
            command.append(self.args[j].as_str());
            command.append(" ");
            proof {
                let av = self.args.deep_view();
                assert(av.take(j + 1).drop_last() =~= av.take(j as int));
                assert(av.take(j + 1).last() == av[j as int]);
            }
            j = j + 1;
        }
        proof {
            assert(self.args.deep_view().take(self.args@.len() as int) =~= self.args.deep_view());
            reveal_strlit(" ");
        }
        let n = command.as_str().unicode_len();
        let r = command.as_str().substring_char(0, n - 1).to_owned();
        proof {
            assert(r@ =~= self.serialized());
        }
        r
    }
}

/// A command with no flags and no positional arguments serializes to
/// exactly its name.
pub proof fn lemma_empty_command_serializes_to_name(name: Seq<char>)
    ensures
        serialize_command(name, Seq::empty(), Seq::empty()) == name,
{
    reveal_strlit(" ");
    assert(serialize_command(name, Seq::empty(), Seq::empty()) =~= name);
}

} // verus!
