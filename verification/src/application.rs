//! The root of a command tree, and the entry point of a dispatch.

use vstd::prelude::*;
use crate::error::{fulfils, CommandLineError, Outcome};
use crate::flags::{flag_specs, Flag};
use crate::help::help_text;
use crate::model::{callable, dispatch, CommandDraft, CommandSpec};
use crate::parameters::{parameter_specs, Parameter};
use crate::subcommand::{command_specs, SubCommand};
use crate::text::{given_or_empty, text_spec, token_seq};

verus! {

/// The root of a console application: the node at which every dispatch
/// starts.
///
/// `R` is what the callbacks return, `F` the type they all have.
#[verifier::reject_recursive_types(R)]
pub struct Application<'a, R = (), F = &'a (dyn Fn() -> R + Sync)> {
    root: SubCommand<'a, R, F>,
}

impl<'a, R, F: Fn() -> R> Application<'a, R, F> {
    /// The tree below this application, with the present state of its stores.
    pub closed spec fn view(&self) -> CommandSpec<F> {
        self.root@
    }

    /// Starts the declaration of an application. Help is enabled unless the
    /// builder is told otherwise.
    pub fn build() -> (builder: ApplicationBuilder<'a, R, F>)
        ensures
            builder@ == CommandDraft::<F>::blank(true),
    {
        ApplicationBuilder {
            name: None,
            description: None,
            flags: None,
            params: None,
            subcommands: None,
            command: None,
            help: true,
            result: core::marker::PhantomData,
        }
    }

    /// Dispatches `args`, the command line without the program's own path:
    /// stores what the tokens say, descends into the subcommands they select,
    /// and invokes the callback of the node at which they end.
    ///
    /// What was stored before a failing token stays stored, and nothing is
    /// reset before a second dispatch.
    pub fn execute(&mut self, args: &[&str]) -> (result: Result<Outcome<R>, CommandLineError>)
        requires
            callable::<R, F>(old(self)@),
        ensures
            final(self)@ == dispatch(old(self)@, token_seq(args@)).0,
            fulfils(result, dispatch(old(self)@, token_seq(args@)).1),
            callable::<R, F>(final(self)@),
            old(self)@.well_formed() ==> final(self)@.well_formed(),
    {
        proof {
            assert(token_seq(args@).skip(0) =~= token_seq(args@));
        }
        self.root.execute_from(args, 0)
    }

    /// The name of the application.
    pub fn name(&self) -> (name: &str)
        ensures
            name@ == self@.name,
    {
        self.root.long_name()
    }

    /// One line that says what the application is for.
    pub fn description(&self) -> (text: &str)
        ensures
            text@ == self@.description,
    {
        self.root.description()
    }

    /// The flags declared at the root, with their stores.
    pub fn flags(&self) -> (flags: &[Flag<'a>])
        ensures
            flag_specs(flags@) == self@.flags,
    {
        self.root.flags()
    }

    /// The parameters declared at the root, with their stores.
    pub fn parameters(&self) -> (parameters: &[Parameter<'a>])
        ensures
            parameter_specs(parameters@) == self@.parameters,
    {
        self.root.parameters()
    }

    /// The subcommands of the root.
    pub fn subcommands(&self) -> (subcommands: &[SubCommand<'a, R, F>])
        ensures
            command_specs(subcommands@) == self@.subcommands,
    {
        self.root.subcommands()
    }

    /// The help text of the application: its name, its description, and a
    /// block each for the flags, the parameters and the subcommands of the
    /// root.
    pub fn help_text(&self) -> (text: String)
        ensures
            text@ == help_text(self@),
    {
        self.root.help_text()
    }

    /// Whether the bare token `help` asks for the help text.
    pub fn help_enabled(&self) -> (enabled: bool)
        ensures
            enabled == self@.help,
    {
        self.root.help_enabled()
    }
}

/// Collects what an [`Application`] is made of.
#[verifier::reject_recursive_types(R)]
pub struct ApplicationBuilder<'a, R = (), F = &'a (dyn Fn() -> R + Sync)> {
    name: Option<&'a str>,
    description: Option<&'a str>,
    flags: Option<Vec<Flag<'a>>>,
    params: Option<Vec<Parameter<'a>>>,
    subcommands: Option<Vec<SubCommand<'a, R, F>>>,
    command: Option<F>,
    help: bool,
    result: core::marker::PhantomData<R>,
}

impl<'a, R, F: Fn() -> R> ApplicationBuilder<'a, R, F> {
    /// What the builder holds so far.
    pub closed spec fn view(&self) -> CommandDraft<F> {
        CommandDraft {
            name: text_spec(self.name),
            description: text_spec(self.description),
            flags: match self.flags {
                Some(flags) => Some(flag_specs(flags@)),
                None => None,
            },
            parameters: match self.params {
                Some(params) => Some(parameter_specs(params@)),
                None => None,
            },
            subcommands: match self.subcommands {
                Some(subcommands) => Some(command_specs(subcommands@)),
                None => None,
            },
            command: self.command,
            help: self.help,
        }
    }

    /// Sets the name of the application.
    pub fn with_name(self, name: &'a str) -> (builder: Self)
        ensures
            builder@ == (CommandDraft { name: Some(name@), ..self@ }),
    {
        let mut builder = self;
        builder.name = Some(name);
        builder
    }

    /// Sets the line that says what the application is for.
    pub fn with_description(self, description: &'a str) -> (builder: Self)
        ensures
            builder@ == (CommandDraft { description: Some(description@), ..self@ }),
    {
        let mut builder = self;
        builder.description = Some(description);
        builder
    }

    /// Sets the flags of the root, in declaration order.
    pub fn with_flags(self, flags: Vec<Flag<'a>>) -> (builder: Self)
        ensures
            builder@ == (CommandDraft { flags: Some(flag_specs(flags@)), ..self@ }),
    {
        let mut builder = self;
        builder.flags = Some(flags);
        builder
    }

    /// Sets the parameters of the root, in declaration order.
    pub fn with_parameters(self, params: Vec<Parameter<'a>>) -> (builder: Self)
        ensures
            builder@ == (CommandDraft { parameters: Some(parameter_specs(params@)), ..self@ }),
    {
        let mut builder = self;
        builder.params = Some(params);
        builder
    }

    /// Sets the subcommands of the root, in declaration order.
    pub fn with_subcommands(self, subcommands: Vec<SubCommand<'a, R, F>>) -> (builder: Self)
        ensures
            builder@ == (CommandDraft { subcommands: Some(command_specs(subcommands@)), ..self@ }),
    {
        let mut builder = self;
        builder.subcommands = Some(subcommands);
        builder
    }

    /// Sets the callback that runs when the tokens select no subcommand.
    pub fn with_command(self, command: F) -> (builder: Self)
        ensures
            builder@ == (CommandDraft { command: Some(command), ..self@ }),
    {
        let mut builder = self;
        builder.command = Some(command);
        builder
    }

    /// Sets whether the bare token `help` asks for the help text.
    pub fn with_help(self, enabled: bool) -> (builder: Self)
        ensures
            builder@ == (CommandDraft { help: enabled, ..self@ }),
    {
        let mut builder = self;
        builder.help = enabled;
        builder
    }

    /// Whether [`ApplicationBuilder::build`] may be called: a callback was
    /// given, or at least one subcommand.
    pub fn is_complete(&self) -> (complete: bool)
        ensures
            complete == self@.has_target(),
    {
        let has_subcommand = match &self.subcommands {
            Some(subcommands) => subcommands.len() > 0,
            None => false,
        };
        self.command.is_some() || has_subcommand
    }

    /// The application as declared. What was not given is empty.
    pub fn build(self) -> (app: Application<'a, R, F>)
        requires
            self@.has_target(),
        ensures
            app@ == self@.node(),
            self@.parts_well_formed() ==> app@.well_formed(),
    {
        let ghost draft = self@;
        let root = SubCommand {
            long_name: given_or_empty(self.name),
            description: given_or_empty(self.description),
            flags: match self.flags {
                Some(flags) => flags,
                None => Vec::new(),
            },
            params: match self.params {
                Some(params) => params,
                None => Vec::new(),
            },
            subcommands: match self.subcommands {
                Some(subcommands) => subcommands,
                None => Vec::new(),
            },
            command: self.command,
            help: self.help,
            result: core::marker::PhantomData,
        };
        proof {
            root.lemma_view();
            assert(root@.flags =~= draft.node().flags);
            assert(root@.parameters =~= draft.node().parameters);
            assert(root@.subcommands =~= draft.node().subcommands);
        }
        Application { root }
    }
}

} // verus!
