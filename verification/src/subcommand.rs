//! Command nodes, and the engine that walks tokens through them.

use vstd::prelude::*;
use crate::arguments::{find_by_long_name, find_by_short_name, names};
use crate::error::{fulfils, CommandLineError, Outcome};
use crate::flags::{flag_specs, Flag};
use crate::laws::{law_callable_is_kept, law_well_formed_is_kept};
use crate::model::{
    action, callable, dispatch, help_keyword, Action, CommandDraft, CommandSpec, NameKind,
};
use crate::parameters::{parameter_specs, Parameter};
use crate::text::{
    format_parameter_value, given_or_empty, index_spec, is_long_name, is_short_name,
    lemma_first_index, lemma_first_index_absent, lemma_first_index_found, split_parameter, str_eq,
    strip_prefix, text_spec, token_seq,
};

verus! {

/// A node of the command tree: a named scope with its own flags, parameters
/// and subcommands, and the callback that runs when the tokens end in it.
#[verifier::reject_recursive_types(R)]
pub struct SubCommand<'a, R = (), F = &'a (dyn Fn() -> R + Sync)> {
    pub(crate) long_name: &'a str,
    pub(crate) description: &'a str,
    pub(crate) flags: Vec<Flag<'a>>,
    pub(crate) params: Vec<Parameter<'a>>,
    pub(crate) subcommands: Vec<SubCommand<'a, R, F>>,
    pub(crate) command: Option<F>,
    pub(crate) help: bool,
    pub(crate) result: core::marker::PhantomData<R>,
}

/// What one token asks of the node that reads it.
pub enum TokenAction<'t> {
    /// Mark the flag at this index.
    Mark(usize),
    /// Bind this value to the parameter at this index.
    Bind(usize, &'t str),
    /// Bind the token that follows to the parameter at this index.
    TakeValue(usize),
    /// Hand the remaining tokens to the subcommand at this index.
    Enter(usize),
    /// Stop and show the node's help text.
    Help,
    /// Stop with this error.
    Reject(CommandLineError),
}

impl<'t> View for TokenAction<'t> {
    type V = Action;

    open spec fn view(&self) -> Action {
        match self {
            TokenAction::Mark(i) => Action::Mark(*i as int),
            TokenAction::Bind(j, value) => Action::Bind(*j as int, value@),
            TokenAction::TakeValue(j) => Action::TakeValue(*j as int),
            TokenAction::Enter(k) => Action::Enter(*k as int),
            TokenAction::Help => Action::Help,
            TokenAction::Reject(error) => Action::Reject(error@),
        }
    }
}

/// The nodes of a sequence, each as its model.
pub open spec fn command_specs<R, F: Fn() -> R>(nodes: Seq<SubCommand<'_, R, F>>) -> Seq<
    CommandSpec<F>,
> {
    Seq::new(nodes.len(), |k: int| nodes[k]@)
}

impl<'a, R, F: Fn() -> R> SubCommand<'a, R, F> {
    /// The tree below this node, with the present state of its stores.
    pub closed spec fn view(&self) -> CommandSpec<F>
        decreases self,
    {
        CommandSpec {
            name: self.long_name@,
            description: self.description@,
            flags: flag_specs(self.flags@),
            parameters: parameter_specs(self.params@),
            subcommands: Seq::new(
                self.subcommands@.len(),
                |k: int|
                    if 0 <= k < self.subcommands@.len() {
                        self.subcommands@[k].view()
                    } else {
                        arbitrary()
                    },
            ),
            command: self.command,
            help: self.help,
        }
    }
}

impl<'a, R, F: Fn() -> R> SubCommand<'a, R, F> {
    /// The model of a node, field by field.
    pub(crate) proof fn lemma_view(&self)
        ensures
            self@.name == self.long_name@,
            self@.description == self.description@,
            self@.flags == flag_specs(self.flags@),
            self@.parameters == parameter_specs(self.params@),
            self@.subcommands == command_specs(self.subcommands@),
            self@.command == self.command,
            self@.help == self.help,
    {
        assert(self@.subcommands =~= command_specs(self.subcommands@));
    }

    /// Starts the declaration of a subcommand.
    pub fn build() -> (builder: SubCommandBuilder<'a, R, F>)
        ensures
            builder@ == CommandDraft::<F>::blank(false),
    {
        SubCommandBuilder {
            long_name: None,
            description: None,
            flags: None,
            params: None,
            subcommands: None,
            command: None,
            result: core::marker::PhantomData,
        }
    }

    /// The token that selects this subcommand.
    pub fn long_name(&self) -> (name: &str)
        ensures
            name@ == self@.name,
    {
        self.long_name
    }

    /// One line that says what the subcommand is for.
    pub fn description(&self) -> (text: &str)
        ensures
            text@ == self@.description,
    {
        self.description
    }

    /// The flags declared at this node, with their stores.
    pub fn flags(&self) -> (flags: &[Flag<'a>])
        ensures
            flag_specs(flags@) == self@.flags,
    {
        self.flags.as_slice()
    }

    /// The parameters declared at this node, with their stores.
    pub fn parameters(&self) -> (parameters: &[Parameter<'a>])
        ensures
            parameter_specs(parameters@) == self@.parameters,
    {
        self.params.as_slice()
    }

    /// The subcommands of this node.
    pub fn subcommands(&self) -> (subcommands: &[SubCommand<'a, R, F>])
        ensures
            command_specs(subcommands@) == self@.subcommands,
    {
        proof {
            assert(command_specs(self.subcommands@) =~= self@.subcommands);
        }
        self.subcommands.as_slice()
    }

    /// Whether the bare token `help` asks this node for its help text.
    pub fn help_enabled(&self) -> (enabled: bool)
        ensures
            enabled == self@.help,
    {
        self.help
    }

    /// The first subcommand whose name is exactly `name`.
    pub fn find_subcommand(&self, name: &str) -> (found: Option<usize>)
        ensures
            index_spec(found) == self@.find_subcommand(name@),
    {
        let ghost all = self@.subcommand_names();
        let mut k: usize = 0;
        while k < self.subcommands.len()
            invariant
                k <= self.subcommands@.len(),
                all == self@.subcommand_names(),
                all.len() == self.subcommands@.len(),
                forall|j: int| 0 <= j < k ==> all[j] != name@,
            decreases self.subcommands@.len() - k,
        {
            assert(all[k as int] == self.subcommands@[k as int]@.name);
            if str_eq(self.subcommands[k].long_name, name) {
                proof {
                    lemma_first_index_found(all, name@, k as int);
                }
                return Some(k);
            }
            k = k + 1;
        }
        proof {
            lemma_first_index_absent(all, name@);
        }
        None
    }

    /// What `token` asks of this node.
    pub fn classify<'t>(&self, token: &'t str) -> (todo: TokenAction<'t>)
        ensures
            todo@ == action(self@, token@),
            todo@.fits(self@),
    {
        proof {
            assert(names(self.flags@, NameKind::Long) =~= self@.flag_names(NameKind::Long));
            assert(names(self.flags@, NameKind::Short) =~= self@.flag_names(NameKind::Short));
            assert(names(self.params@, NameKind::Long) =~= self@.parameter_names(NameKind::Long));
            assert(names(self.params@, NameKind::Short) =~= self@.parameter_names(NameKind::Short));
        }
        if is_long_name(token) {
            let body = strip_prefix(token, 2);
            match split_parameter(body) {
                Some((name, value)) => {
                    proof {
                        lemma_first_index(self@.parameter_names(NameKind::Long), name@);
                    }
                    match find_by_long_name(self.params.as_slice(), name) {
                        Some(j) => TokenAction::Bind(j, value),
                        None => TokenAction::Reject(
                            CommandLineError::UnexpectedParameter(token.to_owned()),
                        ),
                    }
                },
                None => {
                    proof {
                        lemma_first_index(self@.flag_names(NameKind::Long), body@);
                    }
                    match find_by_long_name(self.flags.as_slice(), body) {
                        Some(i) => TokenAction::Mark(i),
                        None => TokenAction::Reject(
                            CommandLineError::UnknownArgument(token.to_owned()),
                        ),
                    }
                },
            }
        } else if is_short_name(token) {
            let body = strip_prefix(token, 1);
            proof {
                lemma_first_index(self@.flag_names(NameKind::Short), body@);
                lemma_first_index(self@.parameter_names(NameKind::Short), body@);
            }
            match find_by_short_name(self.flags.as_slice(), body) {
                Some(i) => TokenAction::Mark(i),
                None => match find_by_short_name(self.params.as_slice(), body) {
                    Some(j) => TokenAction::TakeValue(j),
                    None => TokenAction::Reject(CommandLineError::UnknownArgument(token.to_owned())),
                },
            }
        } else {
            proof {
                lemma_first_index(self@.subcommand_names(), token@);
            }
            match self.find_subcommand(token) {
                Some(k) => TokenAction::Enter(k),
                None => {
                    proof {
                        reveal_strlit("help");
                        assert("help"@ =~= help_keyword());
                    }
                    if self.help && str_eq(token, "help") {
                        TokenAction::Help
                    } else {
                        TokenAction::Reject(CommandLineError::UnknownCommand(token.to_owned()))
                    }
                },
            }
        }
    }

    /// Dispatches the tokens of `args` from position `start` on at this node:
    /// stores what they say, descends into the subcommand they select, and
    /// invokes the callback of the node at which they end.
    pub fn execute_from(&mut self, args: &[&str], start: usize) -> (result: Result<
        Outcome<R>,
        CommandLineError,
    >)
        requires
            start <= args@.len(),
            callable::<R, F>(old(self)@),
        ensures
            final(self)@ == dispatch(old(self)@, token_seq(args@).skip(start as int)).0,
            fulfils(result, dispatch(old(self)@, token_seq(args@).skip(start as int)).1),
            callable::<R, F>(final(self)@),
            old(self)@.well_formed() ==> final(self)@.well_formed(),
        decreases args@.len() - start,
    {
        let ghost tokens = token_seq(args@);
        proof {
            law_callable_is_kept::<R, F>(self@, tokens.skip(start as int));
            if self@.well_formed() {
                law_well_formed_is_kept(self@, tokens.skip(start as int));
            }
        }
        let mut pos: usize = start;
        while pos < args.len()
            invariant
                start <= pos <= args@.len(),
                tokens == token_seq(args@),
                callable::<R, F>(self@),
                dispatch(self@, tokens.skip(pos as int)) == dispatch(
                    old(self)@,
                    tokens.skip(start as int),
                ),
                old(self)@.well_formed() ==> dispatch(
                    old(self)@,
                    tokens.skip(start as int),
                ).0.well_formed(),
            decreases args@.len() - pos,
        {
            let token: &str = args[pos];
            let ghost here = self@;
            let ghost rest = tokens.skip(pos as int).drop_first();
            proof {
                assert(tokens.skip(pos as int)[0] == token@);
                assert(rest =~= tokens.skip(pos + 1));
            }
            match self.classify(token) {
                TokenAction::Mark(i) => {
                    self.flags[i].mark();
                    proof {
                        assert(self@.flags =~= here.mark(i as int).flags);
                    }
                    pos = pos + 1;
                },
                TokenAction::Bind(j, value) => {
                    self.params[j].set_value(format_parameter_value(value));
                    proof {
                        assert(self@.parameters =~= here.bind(j as int, value@).parameters);
                    }
                    pos = pos + 1;
                },
                TokenAction::TakeValue(j) => {
                    if pos + 1 < args.len() {
                        let value: &str = args[pos + 1];
                        self.params[j].set_value(format_parameter_value(value));
                        proof {
                            assert(rest[0] == value@);
                            assert(rest.drop_first() =~= tokens.skip(pos + 2));
                                assert(self@.parameters =~= here.bind(j as int, value@).parameters);
                                }
                        pos = pos + 2;
                    } else {
                        return Err(CommandLineError::ExpectedValue(token.to_owned()));
                    }
                },
                TokenAction::Enter(k) => {
                    let child = &mut self.subcommands[k];
                    let ghost before = child@;
                    let result = child.execute_from(args, pos + 1);
                    proof {
                        let after = dispatch(before, rest).0;
                        assert(self@.subcommands =~= here.with_subcommand(k as int, after).subcommands);
                    }
                    return result;
                },
                TokenAction::Help => {
                    return Ok(Outcome::HelpRequested);
                },
                TokenAction::Reject(error) => {
                    return Err(error);
                },
            }
        }
        proof {
            assert(tokens.skip(pos as int).len() == 0);
        }
        match &self.command {
            Some(callback) => Ok(Outcome::Completed(callback())),
            None => Err(CommandLineError::ExpectedSubcommand),
        }
    }
}

/// Collects what a [`SubCommand`] is made of.
#[verifier::reject_recursive_types(R)]
pub struct SubCommandBuilder<'a, R = (), F = &'a (dyn Fn() -> R + Sync)> {
    long_name: Option<&'a str>,
    description: Option<&'a str>,
    flags: Option<Vec<Flag<'a>>>,
    params: Option<Vec<Parameter<'a>>>,
    subcommands: Option<Vec<SubCommand<'a, R, F>>>,
    command: Option<F>,
    result: core::marker::PhantomData<R>,
}

impl<'a, R, F: Fn() -> R> SubCommandBuilder<'a, R, F> {
    /// What the builder holds so far.
    pub closed spec fn view(&self) -> CommandDraft<F> {
        CommandDraft {
            name: text_spec(self.long_name),
            description: text_spec(self.description),
            flags: match self.flags {
                Some(flags) => Some(flag_specs(flags@)),
                None => None,
            },
            parameters: match self.params {
                Some(params) => Some(parameter_specs(params@)),
                None => None,
            },
            subcommands: match self.subcommands {
                Some(subcommands) => Some(command_specs(subcommands@)),
                None => None,
            },
            command: self.command,
            help: false,
        }
    }

    /// Sets the token that selects the subcommand.
    pub fn with_long_name(self, long_name: &'a str) -> (builder: Self)
        ensures
            builder@ == (CommandDraft { name: Some(long_name@), ..self@ }),
    {
        let mut builder = self;
        builder.long_name = Some(long_name);
        builder
    }

    /// Sets the line that says what the subcommand is for.
    pub fn with_description(self, description: &'a str) -> (builder: Self)
        ensures
            builder@ == (CommandDraft { description: Some(description@), ..self@ }),
    {
        let mut builder = self;
        builder.description = Some(description);
        builder
    }

    /// Sets the flags of the subcommand, in declaration order.
    pub fn with_flags(self, flags: Vec<Flag<'a>>) -> (builder: Self)
        ensures
            builder@ == (CommandDraft { flags: Some(flag_specs(flags@)), ..self@ }),
    {
        let mut builder = self;
        builder.flags = Some(flags);
        builder
    }

    /// Sets the parameters of the subcommand, in declaration order.
    pub fn with_parameters(self, params: Vec<Parameter<'a>>) -> (builder: Self)
        ensures
            builder@ == (CommandDraft { parameters: Some(parameter_specs(params@)), ..self@ }),
    {
        let mut builder = self;
        builder.params = Some(params);
        builder
    }

    /// Sets the subcommands of the subcommand, in declaration order.
    pub fn with_subcommands(self, subcommands: Vec<SubCommand<'a, R, F>>) -> (builder: Self)
        ensures
            builder@ == (CommandDraft { subcommands: Some(command_specs(subcommands@)), ..self@ }),
    {
        let mut builder = self;
        builder.subcommands = Some(subcommands);
        builder
    }

    /// Sets the callback that runs when the tokens end at the subcommand.
    pub fn with_command(self, command: F) -> (builder: Self)
        ensures
            builder@ == (CommandDraft { command: Some(command), ..self@ }),
    {
        let mut builder = self;
        builder.command = Some(command);
        builder
    }

    /// Whether [`SubCommandBuilder::build`] may be called: a name that is not
    /// empty was given, and a callback or at least one subcommand.
    pub fn is_complete(&self) -> (complete: bool)
        ensures
            complete == (self@.is_named() && self@.has_target()),
    {
        let named = match self.long_name {
            Some(name) => !name.is_empty(),
            None => false,
        };
        let has_subcommand = match &self.subcommands {
            Some(subcommands) => subcommands.len() > 0,
            None => false,
        };
        named && (self.command.is_some() || has_subcommand)
    }

    /// The subcommand as declared. What was not given is empty.
    pub fn build(self) -> (subcommand: SubCommand<'a, R, F>)
        requires
            self@.is_named(),
            self@.has_target(),
        ensures
            subcommand@ == self@.node(),
            self@.parts_well_formed() ==> subcommand@.well_formed(),
    {
        let ghost draft = self@;
        let subcommand = SubCommand {
            long_name: given_or_empty(self.long_name),
            description: given_or_empty(self.description),
            flags: match self.flags {
                Some(flags) => flags,
                None => Vec::new(),
            },
            params: match self.params {
                Some(params) => params,
                None => Vec::new(),
            },
            subcommands: match self.subcommands {
                Some(subcommands) => subcommands,
                None => Vec::new(),
            },
            command: self.command,
            help: false,
            result: core::marker::PhantomData,
        };
        proof {
            assert(subcommand@.flags =~= draft.node().flags);
            assert(subcommand@.parameters =~= draft.node().parameters);
            assert(subcommand@.subcommands =~= draft.node().subcommands);
        }
        subcommand
    }
}

} // verus!
