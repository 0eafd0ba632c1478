//! The command line: which command the arguments ask for.

use crate::text::{same_text, texts};
use vstd::prelude::*;
use vstd::string::{StrSliceExecFns, StringExecFns};

verus! {

/// What the arguments ask for.
#[derive(Debug, Clone, PartialEq, Eq)]
pub enum Command {
    /// No command was given: the general usage is shown.
    Usage,
    /// Show the target game version on a line of its own.
    ShowVersion,
    /// Give the target game version, without ending the line.
    GetVersion,
    /// Set the target game version to `id`, if the manifest knows it.
    SetVersion { id: String },
    /// `version set` without a version: its usage is shown.
    SetVersionUsage,
    /// `version` with a word that asks for nothing.
    Nothing,
    /// Acquire the mods `ids` with their dependencies.
    Mods { ids: Vec<String> },
    /// `mod` without a mod: its usage is shown.
    ModsUsage,
    /// The word `name` is no command.
    Invalid { name: String },
}

/// What a [`Command`] holds.
pub ghost enum CommandView {
    Usage,
    ShowVersion,
    GetVersion,
    SetVersion { id: Seq<char> },
    SetVersionUsage,
    Nothing,
    Mods { ids: Seq<Seq<char>> },
    ModsUsage,
    Invalid { name: Seq<char> },
}

impl View for Command {
    type V = CommandView;

    open spec fn view(&self) -> CommandView {
        match self {
            Command::Usage => CommandView::Usage,
            Command::ShowVersion => CommandView::ShowVersion,
            Command::GetVersion => CommandView::GetVersion,
            Command::SetVersion { id } => CommandView::SetVersion { id: id@ },
            Command::SetVersionUsage => CommandView::SetVersionUsage,
            Command::Nothing => CommandView::Nothing,
            Command::Mods { ids } => CommandView::Mods { ids: texts(ids@) },
            Command::ModsUsage => CommandView::ModsUsage,
            Command::Invalid { name } => CommandView::Invalid { name: name@ },
        }
    }
}

/// An argument that begins with a hyphen is an option, not a mod.
pub open spec fn is_option(argument: Seq<char>) -> bool {
    argument.len() > 0 && argument[0] == '-'
}

/// The mods among the arguments after the command word: all that are no
/// options, in their order.
pub open spec fn mods_named(arguments: Seq<Seq<char>>) -> Seq<Seq<char>> {
    arguments.skip(2).filter(|a: Seq<char>| !is_option(a))
}

/// What the `version` command asks for.
pub open spec fn version_command_of(arguments: Seq<Seq<char>>) -> CommandView {
    if arguments.len() == 2 {
        CommandView::ShowVersion
    } else if arguments[2] == "set"@ {
        if arguments.len() == 3 {
            CommandView::SetVersionUsage
        } else {
            CommandView::SetVersion { id: arguments[3] }
        }
    } else if arguments[2] == "get"@ {
        CommandView::GetVersion
    } else {
        CommandView::Nothing
    }
}

/// What the arguments ask for. The first argument is the program's name,
/// the second the command word.
pub open spec fn command_of(arguments: Seq<Seq<char>>) -> CommandView {
    if arguments.len() < 2 {
        CommandView::Usage
    } else if arguments[1] == "version"@ {
        version_command_of(arguments)
    } else if arguments[1] == "mod"@ {
        if mods_named(arguments).len() == 0 {
            CommandView::ModsUsage
        } else {
            CommandView::Mods { ids: mods_named(arguments) }
        }
    } else {
        CommandView::Invalid { name: arguments[1] }
    }
}

/// Taking one more argument into account: it joins the mods at the end if
/// it is no option.
proof fn lemma_mods_step(arguments: Seq<Seq<char>>, i: int)
    requires
        2 <= i < arguments.len(),
    ensures
        mods_named(arguments.take(i + 1)) == if is_option(arguments[i]) {
            mods_named(arguments.take(i))
        } else {
            mods_named(arguments.take(i)).push(arguments[i])
        },
{
    reveal(Seq::filter);
    assert(arguments.take(i + 1).skip(2).drop_last() =~= arguments.take(i).skip(2));
    assert(arguments.take(i + 1).skip(2).last() == arguments[i]);
}

/// Whether `argument` begins with a hyphen.
pub fn begins_with_hyphen(argument: &str) -> (yes: bool)
    ensures
        yes == is_option(argument@),
{
    !argument.is_empty() && argument.get_char(0) == '-'
}

/// The mods among the arguments after the command word.
fn collect_mods(arguments: &Vec<String>) -> (ids: Vec<String>)
    requires
        arguments@.len() >= 2,
    ensures
        texts(ids@) == mods_named(texts(arguments@)),
{
    let ghost all = texts(arguments@);
    let mut ids: Vec<String> = Vec::new();
    let mut i: usize = 2;
    proof {
        reveal(Seq::filter);
        assert(all.take(2).skip(2) =~= Seq::empty());
        assert(texts(ids@) =~= mods_named(all.take(2)));
    }
    while i < arguments.len()
        invariant
            2 <= i <= arguments@.len(),
            all == texts(arguments@),
            texts(ids@) == mods_named(all.take(i as int)),
        decreases arguments@.len() - i,
    {
        let ghost before = ids@;
        proof {
            lemma_mods_step(all, i as int);
        }
        if !begins_with_hyphen(arguments[i].as_str()) {
            ids.push(arguments[i].clone());
            assert(texts(ids@) =~= texts(before).push(all[i as int]));
        }
        i += 1;
    }
    proof {
        assert(all.take(all.len() as int) =~= all);
    }
    ids
}

/// Reads the command from the arguments of the program, the program's name
/// first.
pub fn parse_command(arguments: &Vec<String>) -> (command: Command)
    ensures
        command@ == command_of(texts(arguments@)),
{
    if arguments.len() < 2 {
        return Command::Usage;
    }
    let word = arguments[1].as_str();
    assert(texts(arguments@)[1] == word@);
    if same_text(word, "version") {
        if arguments.len() == 2 {
            return Command::ShowVersion;
        }
        let second = arguments[2].as_str();
        assert(texts(arguments@)[2] == second@);
        if same_text(second, "set") {
            if arguments.len() == 3 {
                Command::SetVersionUsage
            } else {
                assert(texts(arguments@)[3] == arguments@[3]@);
                Command::SetVersion { id: arguments[3].clone() }
            }
        } else if same_text(second, "get") {
            Command::GetVersion
        } else {
            Command::Nothing
        }
    } else if same_text(word, "mod") {
        let ids = collect_mods(arguments);
        if ids.len() == 0 {
            Command::ModsUsage
        } else {
            Command::Mods { ids }
        }
    } else {
        Command::Invalid { name: arguments[1].clone() }
    }
}

} // verus!
