//! The mathematical model: what a command tree is and what one dispatch over
//! it does.
//!
//! A tree is a [`CommandSpec`]: the declarations of a node together with the
//! present state of their stores. [`action`] says what one token means at a
//! node; [`dispatch`] folds a whole token sequence into the tree it leaves
//! behind and the [`Verdict`] it ends in.

use vstd::prelude::*;
use crate::text::{first_index, is_long_form, is_short_form, split_at_equals};

verus! {

/// A declared flag and the state of its store.
pub ghost struct FlagSpec {
    pub short_name: Seq<char>,
    pub long_name: Seq<char>,
    pub description: Seq<char>,
    /// The store: `false` until the flag is seen, `true` from then on.
    pub marked: bool,
}

/// A declared parameter and the state of its store.
pub ghost struct ParameterSpec {
    pub short_name: Seq<char>,
    pub long_name: Seq<char>,
    pub description: Seq<char>,
    /// The store: the value bound last, if any was.
    pub value: Option<Seq<char>>,
}

/// A node of the command tree: the application at the root, a subcommand below.
pub ghost struct CommandSpec<F> {
    /// For a subcommand, the token that selects it.
    pub name: Seq<char>,
    pub description: Seq<char>,
    pub flags: Seq<FlagSpec>,
    pub parameters: Seq<ParameterSpec>,
    pub subcommands: Seq<CommandSpec<F>>,
    /// What runs when the tokens end at this node.
    pub command: Option<F>,
    /// Whether the bare token `help` asks this node for its help text.
    pub help: bool,
}

/// The first malformed token, or the missing subcommand, that ended a dispatch.
pub ghost enum Failure {
    UnknownArgument(Seq<char>),
    UnexpectedParameter(Seq<char>),
    UnknownCommand(Seq<char>),
    ExpectedValue(Seq<char>),
    ExpectedSubcommand,
}

/// Which of the two names of a declaration a lookup compares.
pub ghost enum NameKind {
    Short,
    Long,
}

/// What one token asks of the node that reads it.
pub ghost enum Action {
    /// Mark the flag at this index.
    Mark(int),
    /// Bind this value to the parameter at this index.
    Bind(int, Seq<char>),
    /// Bind the token that follows to the parameter at this index.
    TakeValue(int),
    /// Hand the remaining tokens to the subcommand at this index.
    Enter(int),
    /// Stop and show this node's help text.
    Help,
    /// Stop with this failure.
    Reject(Failure),
}

impl Action {
    /// Whether the index that the action holds, if it holds one, is the index
    /// of a declaration of `node`.
    pub open spec fn fits<F>(self, node: CommandSpec<F>) -> bool {
        match self {
            Action::Mark(i) => 0 <= i < node.flags.len(),
            Action::Bind(j, _) => 0 <= j < node.parameters.len(),
            Action::TakeValue(j) => 0 <= j < node.parameters.len(),
            Action::Enter(k) => 0 <= k < node.subcommands.len(),
            Action::Help => true,
            Action::Reject(_) => true,
        }
    }
}

/// How a dispatch ends.
pub ghost enum Verdict<F> {
    /// The tokens ended at a node with this callback: it is invoked.
    Invoke(F),
    /// Help was asked for.
    Help,
    /// The dispatch failed.
    Fail(Failure),
}

/// The reserved bare token `help`.
pub open spec fn help_keyword() -> Seq<char> {
    seq!['h', 'e', 'l', 'p']
}

impl FlagSpec {
    /// A declaration needs a name to be found by.
    pub open spec fn well_formed(self) -> bool {
        self.short_name.len() > 0 || self.long_name.len() > 0
    }

    /// The name of the given kind. Empty where the declaration has none.
    pub open spec fn name(self, by: NameKind) -> Seq<char> {
        match by {
            NameKind::Short => self.short_name,
            NameKind::Long => self.long_name,
        }
    }

    /// The flag after it was seen on the command line.
    pub open spec fn mark(self) -> FlagSpec {
        FlagSpec { marked: true, ..self }
    }

    /// The flag as declared, its store in the initial state.
    pub open spec fn declaration(self) -> FlagSpec {
        FlagSpec { marked: false, ..self }
    }
}

impl ParameterSpec {
    /// A declaration needs a name to be found by.
    pub open spec fn well_formed(self) -> bool {
        self.short_name.len() > 0 || self.long_name.len() > 0
    }

    /// The name of the given kind. Empty where the declaration has none.
    pub open spec fn name(self, by: NameKind) -> Seq<char> {
        match by {
            NameKind::Short => self.short_name,
            NameKind::Long => self.long_name,
        }
    }

    /// The parameter after `value` was bound to it: an earlier value is lost.
    pub open spec fn bind(self, value: Seq<char>) -> ParameterSpec {
        ParameterSpec { value: Some(value), ..self }
    }

    /// The parameter as declared, its store in the initial state.
    pub open spec fn declaration(self) -> ParameterSpec {
        ParameterSpec { value: None, ..self }
    }
}

impl<F> CommandSpec<F> {
    /// The names of the declared flags, in declaration order.
    pub open spec fn flag_names(self, by: NameKind) -> Seq<Seq<char>> {
        Seq::new(self.flags.len(), |i: int| self.flags[i].name(by))
    }

    /// The names of the declared parameters, in declaration order.
    pub open spec fn parameter_names(self, by: NameKind) -> Seq<Seq<char>> {
        Seq::new(self.parameters.len(), |i: int| self.parameters[i].name(by))
    }

    /// The names of the subcommands, in declaration order.
    pub open spec fn subcommand_names(self) -> Seq<Seq<char>> {
        Seq::new(self.subcommands.len(), |i: int| self.subcommands[i].name)
    }

    /// The first declared flag whose name of the given kind is exactly `name`.
    pub open spec fn find_flag(self, name: Seq<char>, by: NameKind) -> Option<int> {
        first_index(self.flag_names(by), name)
    }

    /// The first declared parameter whose name of the given kind is exactly
    /// `name`.
    pub open spec fn find_parameter(self, name: Seq<char>, by: NameKind) -> Option<int> {
        first_index(self.parameter_names(by), name)
    }

    /// The first subcommand whose name is exactly `name`.
    pub open spec fn find_subcommand(self, name: Seq<char>) -> Option<int> {
        first_index(self.subcommand_names(), name)
    }

    /// This node with the flag at `i` marked, and nothing else changed.
    pub open spec fn mark(self, i: int) -> CommandSpec<F> {
        CommandSpec { flags: self.flags.update(i, self.flags[i].mark()), ..self }
    }

    /// This node with `value` bound to the parameter at `j`, and nothing else
    /// changed.
    pub open spec fn bind(self, j: int, value: Seq<char>) -> CommandSpec<F> {
        CommandSpec { parameters: self.parameters.update(j, self.parameters[j].bind(value)), ..self }
    }

    /// This node with `child` in place of the subcommand at `k`, and nothing
    /// else changed.
    pub open spec fn with_subcommand(self, k: int, child: CommandSpec<F>) -> CommandSpec<F> {
        CommandSpec { subcommands: self.subcommands.update(k, child), ..self }
    }

    /// How a dispatch ends when the tokens end at this node.
    pub open spec fn at_end(self) -> Verdict<F> {
        match self.command {
            Some(callback) => Verdict::Invoke(callback),
            None => Verdict::Fail(Failure::ExpectedSubcommand),
        }
    }

    /// The tree as declared: every store, at every depth, in its initial state.
    pub open spec fn declaration(self) -> CommandSpec<F>
        decreases self,
    {
        CommandSpec {
            flags: Seq::new(self.flags.len(), |i: int| self.flags[i].declaration()),
            parameters: Seq::new(self.parameters.len(), |j: int| self.parameters[j].declaration()),
            subcommands: Seq::new(
                self.subcommands.len(),
                |k: int|
                    if 0 <= k < self.subcommands.len() {
                        self.subcommands[k].declaration()
                    } else {
                        self.subcommands[k]
                    },
            ),
            ..self
        }
    }

    /// Whether every store that is set in `earlier` is set in this tree too:
    /// a flag that was marked is marked, a parameter that was bound is bound,
    /// at every depth. The two trees have the same shape.
    pub open spec fn keeps_stores_of(self, earlier: CommandSpec<F>) -> bool
        decreases self,
    {
        &&& self.flags.len() == earlier.flags.len()
        &&& self.parameters.len() == earlier.parameters.len()
        &&& self.subcommands.len() == earlier.subcommands.len()
        &&& forall|i: int|
            0 <= i < self.flags.len() && earlier.flags[i].marked ==> (#[trigger] self.flags[i]).marked
        &&& forall|j: int|
            0 <= j < self.parameters.len() && earlier.parameters[j].value is Some ==> (
            #[trigger] self.parameters[j]).value is Some
        &&& forall|k: int|
            0 <= k < self.subcommands.len() ==> (#[trigger] self.subcommands[k]).keeps_stores_of(
                earlier.subcommands[k],
            )
    }

    /// A node needs something to do: a callback of its own, or a subcommand to
    /// hand over to.
    pub open spec fn has_target(self) -> bool {
        self.command is Some || self.subcommands.len() > 0
    }

    /// The invariant of an assembled tree. Every declared flag and parameter
    /// has a name, every node has a callback or a subcommand, and every
    /// subcommand has the name by which it is selected.
    pub open spec fn well_formed(self) -> bool
        decreases self,
    {
        &&& self.has_target()
        &&& forall|i: int| 0 <= i < self.flags.len() ==> (#[trigger] self.flags[i]).well_formed()
        &&& forall|j: int|
            0 <= j < self.parameters.len() ==> (#[trigger] self.parameters[j]).well_formed()
        &&& forall|k: int|
            0 <= k < self.subcommands.len() ==> {
                &&& (#[trigger] self.subcommands[k]).name.len() > 0
                &&& self.subcommands[k].well_formed()
            }
    }
}

/// What `token` asks of `node`.
///
/// A token of the long form names a parameter and its value when it holds an
/// `=`, and a flag when it holds none. A token of the short form names a
/// flag, or else a parameter whose value is the next token. Any other token
/// selects a subcommand, or asks for help where that is enabled and no
/// subcommand has that name.
pub open spec fn action<F>(node: CommandSpec<F>, token: Seq<char>) -> Action {
    if is_long_form(token) {
        let body = token.skip(2);
        match split_at_equals(body) {
            Some((name, value)) => match node.find_parameter(name, NameKind::Long) {
                Some(j) => Action::Bind(j, value),
                None => Action::Reject(Failure::UnexpectedParameter(token)),
            },
            None => match node.find_flag(body, NameKind::Long) {
                Some(i) => Action::Mark(i),
                None => Action::Reject(Failure::UnknownArgument(token)),
            },
        }
    } else if is_short_form(token) {
        let body = token.skip(1);
        match node.find_flag(body, NameKind::Short) {
            Some(i) => Action::Mark(i),
            None => match node.find_parameter(body, NameKind::Short) {
                Some(j) => Action::TakeValue(j),
                None => Action::Reject(Failure::UnknownArgument(token)),
            },
        }
    } else {
        match node.find_subcommand(token) {
            Some(k) => Action::Enter(k),
            None => if node.help && token == help_keyword() {
                Action::Help
            } else {
                Action::Reject(Failure::UnknownCommand(token))
            },
        }
    }
}

/// One dispatch of `tokens` at `node`: the tree as the dispatch leaves it, and
/// how the dispatch ends.
///
/// Tokens are read once, left to right. What was stored before a failure
/// stays stored.
pub open spec fn dispatch<F>(node: CommandSpec<F>, tokens: Seq<Seq<char>>) -> (
    CommandSpec<F>,
    Verdict<F>,
)
    decreases tokens.len(),
{
    if tokens.len() == 0 {
        (node, node.at_end())
    } else {
        let token = tokens[0];
        let rest = tokens.drop_first();
        match action(node, token) {
            Action::Mark(i) => dispatch(node.mark(i), rest),
            Action::Bind(j, value) => dispatch(node.bind(j, value), rest),
            Action::TakeValue(j) => if rest.len() == 0 {
                (node, Verdict::Fail(Failure::ExpectedValue(token)))
            } else {
                dispatch(node.bind(j, rest[0]), rest.drop_first())
            },
            Action::Enter(k) => {
                let (child, verdict) = dispatch(node.subcommands[k], rest);
                (node.with_subcommand(k, child), verdict)
            },
            Action::Help => (node, Verdict::Help),
            Action::Reject(failure) => (node, Verdict::Fail(failure)),
        }
    }
}

/// Whether `holds` is true of every callback of the tree.
pub open spec fn every_callback<F>(node: CommandSpec<F>, holds: spec_fn(F) -> bool) -> bool
    decreases node,
{
    &&& node.command matches Some(callback) ==> holds(callback)
    &&& forall|k: int|
        0 <= k < node.subcommands.len() ==> every_callback(#[trigger] node.subcommands[k], holds)
}

/// Every callback of the tree may be called.
pub open spec fn callable<R, F: Fn() -> R>(node: CommandSpec<F>) -> bool {
    every_callback(node, |callback: F| call_requires(callback, ()))
}

/// What a builder of a flag or a parameter holds so far. `S` is the state of
/// the store.
pub ghost struct ArgumentDraft<S> {
    pub short_name: Option<Seq<char>>,
    pub long_name: Option<Seq<char>>,
    pub description: Option<Seq<char>>,
    pub store: Option<S>,
}

/// What a builder of a command node holds so far.
pub ghost struct CommandDraft<F> {
    pub name: Option<Seq<char>>,
    pub description: Option<Seq<char>>,
    pub flags: Option<Seq<FlagSpec>>,
    pub parameters: Option<Seq<ParameterSpec>>,
    pub subcommands: Option<Seq<CommandSpec<F>>>,
    pub command: Option<F>,
    pub help: bool,
}

/// The text that was given, or the empty text.
pub open spec fn text_or_empty(given: Option<Seq<char>>) -> Seq<char> {
    match given {
        Some(text) => text,
        None => Seq::empty(),
    }
}

/// The declarations that were given, or none.
pub open spec fn items_or_none<T>(given: Option<Seq<T>>) -> Seq<T> {
    match given {
        Some(items) => items,
        None => Seq::empty(),
    }
}

impl<S> ArgumentDraft<S> {
    /// A draft that holds nothing yet.
    pub open spec fn blank() -> ArgumentDraft<S> {
        ArgumentDraft { short_name: None, long_name: None, description: None, store: None }
    }

    /// Whether a declaration can be built: the draft holds a store, and a
    /// short or a long name that is not empty.
    pub open spec fn complete(self) -> bool {
        &&& self.store is Some
        &&& text_or_empty(self.short_name).len() > 0 || text_or_empty(self.long_name).len() > 0
    }
}

impl ArgumentDraft<bool> {
    /// The flag that the draft describes. What was not given is empty.
    pub open spec fn flag(self) -> FlagSpec {
        FlagSpec {
            short_name: text_or_empty(self.short_name),
            long_name: text_or_empty(self.long_name),
            description: text_or_empty(self.description),
            marked: self.store->0,
        }
    }
}

impl ArgumentDraft<Option<Seq<char>>> {
    /// The parameter that the draft describes. What was not given is empty.
    pub open spec fn parameter(self) -> ParameterSpec {
        ParameterSpec {
            short_name: text_or_empty(self.short_name),
            long_name: text_or_empty(self.long_name),
            description: text_or_empty(self.description),
            value: self.store->0,
        }
    }
}

impl<F> CommandDraft<F> {
    /// The draft that a builder of an application starts from: nothing given,
    /// help enabled.
    pub open spec fn blank(help: bool) -> CommandDraft<F> {
        CommandDraft {
            name: None,
            description: None,
            flags: None,
            parameters: None,
            subcommands: None,
            command: None,
            help,
        }
    }

    /// Whether the node would have something to do: a callback of its own, or
    /// a subcommand to hand over to.
    pub open spec fn has_target(self) -> bool {
        self.command is Some || items_or_none(self.subcommands).len() > 0
    }

    /// Whether the draft holds the name by which a subcommand is selected.
    pub open spec fn is_named(self) -> bool {
        self.name is Some && self.name->0.len() > 0
    }

    /// Whether what the draft was given is well-formed: every flag and every
    /// parameter, and every subcommand, which has a name.
    pub open spec fn parts_well_formed(self) -> bool {
        &&& forall|i: int|
            0 <= i < items_or_none(self.flags).len() ==> (#[trigger] items_or_none(
                self.flags,
            )[i]).well_formed()
        &&& forall|j: int|
            0 <= j < items_or_none(self.parameters).len() ==> (#[trigger] items_or_none(
                self.parameters,
            )[j]).well_formed()
        &&& forall|k: int|
            0 <= k < items_or_none(self.subcommands).len() ==> {
                &&& (#[trigger] items_or_none(self.subcommands)[k]).name.len() > 0
                &&& items_or_none(self.subcommands)[k].well_formed()
            }
    }

    /// The node that the draft describes. What was not given is empty.
    pub open spec fn node(self) -> CommandSpec<F> {
        CommandSpec {
            name: text_or_empty(self.name),
            description: text_or_empty(self.description),
            flags: items_or_none(self.flags),
            parameters: items_or_none(self.parameters),
            subcommands: items_or_none(self.subcommands),
            command: self.command,
            help: self.help,
        }
    }
}

} // verus!
