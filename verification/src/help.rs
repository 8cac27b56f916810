//! The help text of a node: its name and description, then one line for each
//! flag, parameter and subcommand it declares.
//!
//! A line starts with the label of what it describes, filled with blanks to
//! [`NAME_WIDTH`] columns, and ends with the description, cut to
//! [`DESCRIPTION_WIDTH`] columns. A column is a character.

use vstd::prelude::*;
use vstd::string::{StrSliceExecFns, StringExecFns};
use crate::arguments::Argument;
use crate::model::{CommandSpec, FlagSpec, NameKind, ParameterSpec};
use crate::subcommand::SubCommand;

verus! {

/// The columns that a label is filled to.
pub const NAME_WIDTH: usize = 20;

/// The columns that are left for a description on a console of 80.
pub const DESCRIPTION_WIDTH: usize = 60;

/// `n` blanks; none if `n` is negative.
pub open spec fn blanks(n: int) -> Seq<char> {
    Seq::new(
        if n > 0 {
            n as nat
        } else {
            0
        },
        |i: int| ' ',
    )
}

/// How a flag or a parameter is written on the command line: `-s, --long`,
/// or the one of the two that it has.
pub open spec fn argument_label(short_name: Seq<char>, long_name: Seq<char>) -> Seq<char> {
    let short_part = if short_name.len() > 0 {
        seq!['-'] + short_name
    } else {
        Seq::empty()
    };
    let comma = if short_name.len() > 0 && long_name.len() > 0 {
        seq![',', ' ']
    } else {
        Seq::empty()
    };
    let long_part = if long_name.len() > 0 {
        seq!['-', '-'] + long_name
    } else {
        Seq::empty()
    };
    seq![' ', ' '] + short_part + comma + long_part
}

/// How a subcommand is written on the command line.
pub open spec fn subcommand_label(name: Seq<char>) -> Seq<char> {
    seq![' ', ' '] + name
}

/// A description, cut to the columns that are left for it.
pub open spec fn clipped(description: Seq<char>) -> Seq<char> {
    if description.len() > DESCRIPTION_WIDTH {
        description.take(DESCRIPTION_WIDTH as int)
    } else {
        description
    }
}

/// One line of help: the label, blanks up to the column where descriptions
/// start, the description, and a line feed. A label that is wider than that
/// column is followed by the description at once.
pub open spec fn help_line(label: Seq<char>, description: Seq<char>) -> Seq<char> {
    label + blanks(NAME_WIDTH - label.len()) + clipped(description) + seq!['\n']
}

/// The line of help for a flag.
pub open spec fn flag_line(flag: FlagSpec) -> Seq<char> {
    help_line(argument_label(flag.short_name, flag.long_name), flag.description)
}

/// The line of help for a parameter.
pub open spec fn parameter_line(parameter: ParameterSpec) -> Seq<char> {
    help_line(argument_label(parameter.short_name, parameter.long_name), parameter.description)
}

/// The line of help for a subcommand.
pub open spec fn subcommand_line<F>(subcommand: CommandSpec<F>) -> Seq<char> {
    help_line(subcommand_label(subcommand.name), subcommand.description)
}

/// The lines, one after the other.
pub open spec fn joined(lines: Seq<Seq<char>>) -> Seq<char>
    decreases lines.len(),
{
    if lines.len() == 0 {
        Seq::empty()
    } else {
        joined(lines.drop_last()) + lines.last()
    }
}

/// A titled block of lines, closed by an empty line. Nothing at all where
/// there are no lines.
pub open spec fn section(title: Seq<char>, lines: Seq<Seq<char>>) -> Seq<char> {
    if lines.len() == 0 {
        Seq::empty()
    } else {
        title + seq!['\n'] + joined(lines) + seq!['\n']
    }
}

/// The help text of a node.
pub open spec fn help_text<F>(node: CommandSpec<F>) -> Seq<char> {
    node.name + seq!['\n'] + node.description + seq!['\n', '\n'] + section(
        "Flags:"@,
        Seq::new(node.flags.len(), |i: int| flag_line(node.flags[i])),
    ) + section(
        "Parameters:"@,
        Seq::new(node.parameters.len(), |j: int| parameter_line(node.parameters[j])),
    ) + section(
        "Subcommands:"@,
        Seq::new(node.subcommands.len(), |k: int| subcommand_line(node.subcommands[k])),
    )
}

/// Appends `n` blanks to `out`.
fn append_blanks(out: &mut String, n: usize)
    ensures
        final(out)@ == old(out)@ + blanks(n as int),
{
    proof {
        reveal_strlit(" ");
        assert(out@ =~= old(out)@ + blanks(0));
    }
    let mut done: usize = 0;
    while done < n
        invariant
            done <= n,
            " "@.len() == 1,
            " "@[0] == ' ',
            out@ == old(out)@ + blanks(done as int),
        decreases n - done,
    {
        out.append(" ");
        proof {
            assert(blanks(done + 1) =~= blanks(done as int) + " "@);
            assert(out@ =~= old(out)@ + blanks(done + 1));
        }
        done = done + 1;
    }
}

/// Completes a line of help of which `label` is there: `room` is what the
/// label left of the columns it is filled to.
fn finish_line(label: String, room: usize, description: &str) -> (line: String)
    requires
        room as int == if label@.len() < NAME_WIDTH {
            NAME_WIDTH - label@.len()
        } else {
            0
        },
    ensures
        line@ == help_line(label@, description@),
{
    let mut line = label;
    append_blanks(&mut line, room);
    let len: usize = description.unicode_len();
    let shown = if len > DESCRIPTION_WIDTH {
        description.substring_char(0, DESCRIPTION_WIDTH)
    } else {
        description
    };
    line.append(shown);
    line.append("\n");
    proof {
        reveal_strlit("\n");
        assert("\n"@ =~= seq!['\n']);
        assert(blanks(room as int) =~= blanks(NAME_WIDTH - label@.len()));
        assert(shown@ =~= clipped(description@));
    }
    line
}

/// The line of help for a flag or a parameter.
pub fn argument_line<A: Argument>(argument: &A) -> (line: String)
    ensures
        line@ == help_line(
            argument_label(
                argument.name_spec(NameKind::Short),
                argument.name_spec(NameKind::Long),
            ),
            argument.description_spec(),
        ),
{
    let short_name = argument.short_name();
    let long_name = argument.long_name();
    proof {
        reveal_strlit("  ");
        reveal_strlit("-");
        reveal_strlit(", ");
        reveal_strlit("--");
        assert("  "@ =~= seq![' ', ' ']);
        assert("-"@ =~= seq!['-']);
        assert(", "@ =~= seq![',', ' ']);
        assert("--"@ =~= seq!['-', '-']);
    }
    let mut label = String::from_str("  ");
    let mut room: usize = NAME_WIDTH - 2;
    if !short_name.is_empty() {
        label.append("-");
        label.append(short_name);
        room = room.saturating_sub(1).saturating_sub(short_name.unicode_len());
        if !long_name.is_empty() {
            label.append(", ");
            room = room.saturating_sub(2);
        }
    }
    if !long_name.is_empty() {
        label.append("--");
        label.append(long_name);
        room = room.saturating_sub(2).saturating_sub(long_name.unicode_len());
    }
    proof {
        assert(label@ =~= argument_label(short_name@, long_name@));
    }
    finish_line(label, room, argument.description())
}

/// The line of help for a subcommand.
pub fn subcommand_line_of<R, F: Fn() -> R>(subcommand: &SubCommand<'_, R, F>) -> (line: String)
    ensures
        line@ == subcommand_line(subcommand@),
{
    let name = subcommand.long_name();
    proof {
        reveal_strlit("  ");
        assert("  "@ =~= seq![' ', ' ']);
    }
    let mut label = String::from_str("  ");
    label.append(name);
    let room: usize = (NAME_WIDTH - 2).saturating_sub(name.unicode_len());
    proof {
        assert(label@ =~= subcommand_label(name@));
    }
    finish_line(label, room, subcommand.description())
}

/// What `joined` makes of one line more.
proof fn lemma_joined_push(lines: Seq<Seq<char>>, line: Seq<char>)
    ensures
        joined(lines.push(line)) == joined(lines) + line,
{
    assert(lines.push(line).drop_last() =~= lines);
}

/// The characters of each line.
pub open spec fn texts(lines: Seq<String>) -> Seq<Seq<char>> {
    Seq::new(lines.len(), |i: int| lines[i]@)
}

/// The lines of help for the flags, or for the parameters, of a node.
fn argument_lines<A: Argument>(arguments: &[A]) -> (lines: Vec<String>)
    ensures
        lines@.len() == arguments@.len(),
        forall|i: int|
            0 <= i < arguments@.len() ==> (#[trigger] lines@[i])@ == help_line(
                argument_label(
                    arguments@[i].name_spec(NameKind::Short),
                    arguments@[i].name_spec(NameKind::Long),
                ),
                arguments@[i].description_spec(),
            ),
{
    let mut lines: Vec<String> = Vec::new();
    let mut i: usize = 0;
    while i < arguments.len()
        invariant
            i <= arguments@.len(),
            lines@.len() == i,
            forall|m: int|
                0 <= m < i ==> (#[trigger] lines@[m])@ == help_line(
                    argument_label(
                        arguments@[m].name_spec(NameKind::Short),
                        arguments@[m].name_spec(NameKind::Long),
                    ),
                    arguments@[m].description_spec(),
                ),
        decreases arguments@.len() - i,
    {
        lines.push(argument_line(&arguments[i]));
        i = i + 1;
    }
    lines
}

/// The lines of help for the subcommands of a node.
fn subcommand_lines<R, F: Fn() -> R>(subcommands: &[SubCommand<'_, R, F>]) -> (lines: Vec<String>)
    ensures
        lines@.len() == subcommands@.len(),
        forall|k: int|
            0 <= k < subcommands@.len() ==> (#[trigger] lines@[k])@ == subcommand_line(
                subcommands@[k]@,
            ),
{
    let mut lines: Vec<String> = Vec::new();
    let mut k: usize = 0;
    while k < subcommands.len()
        invariant
            k <= subcommands@.len(),
            lines@.len() == k,
            forall|m: int|
                0 <= m < k ==> (#[trigger] lines@[m])@ == subcommand_line(subcommands@[m]@),
        decreases subcommands@.len() - k,
    {
        lines.push(subcommand_line_of(&subcommands[k]));
        k = k + 1;
    }
    lines
}

/// Appends a titled block of lines to `out`: nothing where there are no
/// lines.
fn append_section(out: &mut String, title: &str, lines: &Vec<String>)
    ensures
        final(out)@ == old(out)@ + section(title@, texts(lines@)),
{
    let ghost all = texts(lines@);
    if lines.len() == 0 {
        proof {
            assert(out@ =~= old(out)@ + section(title@, all));
        }
        return ;
    }
    proof {
        reveal_strlit("\n");
        assert("\n"@ =~= seq!['\n']);
    }
    out.append(title);
    out.append("\n");
    let ghost head = old(out)@ + title@ + seq!['\n'];
    proof {
        assert(all.take(0) =~= Seq::<Seq<char>>::empty());
        assert(out@ =~= head + joined(all.take(0)));
    }
    let mut i: usize = 0;
    while i < lines.len()
        invariant
            i <= lines@.len(),
            all == texts(lines@),
            out@ == head + joined(all.take(i as int)),
        decreases lines@.len() - i,
    {
        out.append(lines[i].as_str());
        proof {
            assert(all.take(i + 1) =~= all.take(i as int).push(all[i as int]));
            lemma_joined_push(all.take(i as int), all[i as int]);
            assert(out@ =~= head + joined(all.take(i + 1)));
        }
        i = i + 1;
    }
    out.append("\n");
    proof {
        assert(all.take(i as int) =~= all);
        assert(out@ =~= old(out)@ + section(title@, all));
    }
}

impl<'a, R, F: Fn() -> R> SubCommand<'a, R, F> {
    /// The help text of this node: its name, its description, and a block
    /// each for the flags, the parameters and the subcommands it declares.
    pub fn help_text(&self) -> (text: String)
        ensures
            text@ == help_text(self@),
    {
        proof {
            reveal_strlit("\n");
            assert("\n"@ =~= seq!['\n']);
            self.lemma_view();
        }
        let mut text = String::from_str(self.long_name);
        text.append("\n");
        text.append(self.description);
        text.append("\n");
        text.append("\n");
        proof {
            assert(text@ =~= self@.name + seq!['\n'] + self@.description + seq!['\n', '\n']);
        }
        let flag_lines = argument_lines(self.flags.as_slice());
        let parameter_lines = argument_lines(self.params.as_slice());
        let subcommand_lines = subcommand_lines(self.subcommands.as_slice());
        proof {
            assert(texts(flag_lines@) =~= Seq::new(
                self@.flags.len(),
                |i: int| flag_line(self@.flags[i]),
            ));
            assert(texts(parameter_lines@) =~= Seq::new(
                self@.parameters.len(),
                |j: int| parameter_line(self@.parameters[j]),
            ));
            assert(texts(subcommand_lines@) =~= Seq::new(
                self@.subcommands.len(),
                |k: int| subcommand_line(self@.subcommands[k]),
            ));
        }
        append_section(&mut text, "Flags:", &flag_lines);
        append_section(&mut text, "Parameters:", &parameter_lines);
        append_section(&mut text, "Subcommands:", &subcommand_lines);
        text
    }
}

} // verus!
