use std::cell::Cell;

use cliutil::{
    Application, CommandLineError, Flag, FlagValue, Outcome, Parameter, ParameterValue, SubCommand,
};

fn seven() -> i32 {
    7
}

fn eleven() -> i32 {
    11
}

fn flag<'a>(short: &'a str, long: &'a str) -> Flag<'a> {
    Flag::build().with_short_name(short).with_long_name(long).with_flag(FlagValue::new()).build()
}

fn parameter<'a>(short: &'a str, long: &'a str) -> Parameter<'a> {
    Parameter::build()
        .with_short_name(short)
        .with_long_name(long)
        .with_parameter(ParameterValue::new())
        .build()
}

/// root{flags:[f/flag], subcommands:[sub{params:[p/param], callback: eleven}]}
fn nested<'a>() -> Application<'a, i32, fn() -> i32> {
    let sub = SubCommand::build()
        .with_long_name("sub")
        .with_parameters(vec![parameter("p", "param")])
        .with_command(eleven as fn() -> i32)
        .build();
    Application::build().with_flags(vec![flag("f", "flag")]).with_subcommands(vec![sub]).build()
}

fn single_flag<'a>() -> Application<'a, i32, fn() -> i32> {
    Application::build()
        .with_flags(vec![flag("f", "flag")])
        .with_command(seven as fn() -> i32)
        .build()
}

fn single_parameter<'a>() -> Application<'a, i32, fn() -> i32> {
    Application::build()
        .with_parameters(vec![parameter("p", "param")])
        .with_command(seven as fn() -> i32)
        .build()
}

#[test]
fn empty_input_invokes_the_root_callback() {
    let mut app = single_flag();
    assert_eq!(app.execute(&[]), Ok(Outcome::Completed(7)));
    assert!(!app.flags()[0].value());
}

#[test]
fn empty_input_without_root_callback_expects_a_subcommand() {
    let mut app = nested();
    assert_eq!(app.execute(&[]), Err(CommandLineError::ExpectedSubcommand));
    assert!(!app.flags()[0].value());
    assert_eq!(app.subcommands()[0].parameters()[0].value(), None);
}

#[test]
fn the_callback_runs_exactly_once() {
    let calls = Cell::new(0);
    let callback = || {
        calls.set(calls.get() + 1);
        3
    };
    let mut app =
        Application::build().with_flags(vec![flag("f", "flag")]).with_command(callback).build();
    assert_eq!(app.execute(&["-f", "--flag"]), Ok(Outcome::Completed(3)));
    assert_eq!(calls.get(), 1);
}

#[test]
fn no_callback_runs_on_failure() {
    let calls = Cell::new(0);
    let callback = || {
        calls.set(calls.get() + 1);
    };
    let mut app =
        Application::build().with_flags(vec![flag("f", "flag")]).with_command(callback).build();
    assert_eq!(app.execute(&["-x"]), Err(CommandLineError::UnknownArgument("-x".to_string())));
    assert_eq!(calls.get(), 0);
}

#[test]
fn short_flag_marks_its_store() {
    let mut app = single_flag();
    assert_eq!(app.execute(&["-f"]), Ok(Outcome::Completed(7)));
    assert!(app.flags()[0].value());
}

#[test]
fn long_flag_marks_its_store() {
    let mut app = single_flag();
    assert_eq!(app.execute(&["--flag"]), Ok(Outcome::Completed(7)));
    assert!(app.flags()[0].value());
}

#[test]
fn a_flag_leaves_the_other_stores_alone() {
    let mut app = Application::build()
        .with_flags(vec![flag("f", "flag"), flag("g", "gflag")])
        .with_parameters(vec![parameter("p", "param")])
        .with_command(seven as fn() -> i32)
        .build();
    assert_eq!(app.execute(&["--gflag"]), Ok(Outcome::Completed(7)));
    assert!(!app.flags()[0].value());
    assert!(app.flags()[1].value());
    assert_eq!(app.parameters()[0].value(), None);
}

#[test]
fn unknown_token_before_a_flag_fails_without_marking_it() {
    let mut app = single_flag();
    assert_eq!(
        app.execute(&["-x", "-f"]),
        Err(CommandLineError::UnknownArgument("-x".to_string()))
    );
    assert!(!app.flags()[0].value());

    let mut app = single_flag();
    assert_eq!(
        app.execute(&["--other", "--flag"]),
        Err(CommandLineError::UnknownArgument("--other".to_string()))
    );
    assert!(!app.flags()[0].value());
}

#[test]
fn names_are_compared_exactly() {
    let mut app = single_flag();
    assert_eq!(app.execute(&["-F"]), Err(CommandLineError::UnknownArgument("-F".to_string())));
    assert_eq!(
        app.execute(&["--fla"]),
        Err(CommandLineError::UnknownArgument("--fla".to_string()))
    );
    assert_eq!(
        app.execute(&["--flags"]),
        Err(CommandLineError::UnknownArgument("--flags".to_string()))
    );
    assert_eq!(app.execute(&["-flag"]), Err(CommandLineError::UnknownArgument("-flag".to_string())));
    assert_eq!(app.execute(&["--f"]), Err(CommandLineError::UnknownArgument("--f".to_string())));
    assert_eq!(app.execute(&["-fg"]), Err(CommandLineError::UnknownArgument("-fg".to_string())));
    assert!(!app.flags()[0].value());
}

#[test]
fn what_was_stored_before_a_failure_stays_stored() {
    let mut app = Application::build()
        .with_flags(vec![flag("f", "flag")])
        .with_parameters(vec![parameter("p", "param")])
        .with_command(seven as fn() -> i32)
        .build();
    assert_eq!(
        app.execute(&["-f", "--param=kept", "--nope"]),
        Err(CommandLineError::UnknownArgument("--nope".to_string()))
    );
    assert!(app.flags()[0].value());
    assert_eq!(app.parameters()[0].value(), Some("kept"));
}

#[test]
fn nothing_is_reset_before_a_second_dispatch() {
    let mut app = Application::build()
        .with_flags(vec![flag("f", "flag")])
        .with_parameters(vec![parameter("p", "param")])
        .with_command(seven as fn() -> i32)
        .build();
    assert_eq!(app.execute(&["-f", "-p", "one"]), Ok(Outcome::Completed(7)));
    assert_eq!(app.execute(&[]), Ok(Outcome::Completed(7)));
    assert!(app.flags()[0].value());
    assert_eq!(app.parameters()[0].value(), Some("one"));
    assert_eq!(app.execute(&["--param=two"]), Ok(Outcome::Completed(7)));
    assert_eq!(app.parameters()[0].value(), Some("two"));
}

#[test]
fn a_parameter_starts_empty() {
    let app = single_parameter();
    assert_eq!(app.parameters()[0].value(), None);
    assert_eq!(ParameterValue::new().value(), None);
}

#[test]
fn short_parameter_binds_the_next_token() {
    let mut app = single_parameter();
    assert_eq!(app.execute(&["-p", "x"]), Ok(Outcome::Completed(7)));
    assert_eq!(app.parameters()[0].value(), Some("x"));
}

#[test]
fn long_parameter_binds_what_follows_the_equals_sign() {
    let mut app = single_parameter();
    assert_eq!(app.execute(&["--param=x"]), Ok(Outcome::Completed(7)));
    assert_eq!(app.parameters()[0].value(), Some("x"));
}

#[test]
fn the_value_is_split_at_the_first_equals_sign() {
    let mut app = single_parameter();
    assert_eq!(app.execute(&["--param=a=b"]), Ok(Outcome::Completed(7)));
    assert_eq!(app.parameters()[0].value(), Some("a=b"));
}

#[test]
fn values_are_stored_verbatim() {
    let mut app = single_parameter();
    assert_eq!(app.execute(&["--param=  spaced \u{e9}\u{4e16} "]), Ok(Outcome::Completed(7)));
    assert_eq!(app.parameters()[0].value(), Some("  spaced \u{e9}\u{4e16} "));
    assert_eq!(app.execute(&["--param="]), Ok(Outcome::Completed(7)));
    assert_eq!(app.parameters()[0].value(), Some(""));
}

#[test]
fn a_short_parameter_takes_any_token_as_its_value() {
    let mut app = Application::build()
        .with_flags(vec![flag("f", "flag")])
        .with_parameters(vec![parameter("p", "param")])
        .with_command(seven as fn() -> i32)
        .build();
    assert_eq!(app.execute(&["-p", "-f"]), Ok(Outcome::Completed(7)));
    assert_eq!(app.parameters()[0].value(), Some("-f"));
    assert!(!app.flags()[0].value());
}

#[test]
fn the_last_binding_wins() {
    let mut app = single_parameter();
    assert_eq!(app.execute(&["-p", "one", "--param=two", "-p", "three"]), Ok(Outcome::Completed(7)));
    assert_eq!(app.parameters()[0].value(), Some("three"));
}

#[test]
fn a_long_parameter_without_equals_sign_is_no_parameter() {
    let mut app = single_parameter();
    assert_eq!(
        app.execute(&["--param", "x"]),
        Err(CommandLineError::UnknownArgument("--param".to_string()))
    );
    assert_eq!(app.parameters()[0].value(), None);
}

#[test]
fn an_undeclared_long_parameter_is_unexpected() {
    let mut app = single_parameter();
    assert_eq!(
        app.execute(&["--other=x"]),
        Err(CommandLineError::UnexpectedParameter("--other=x".to_string()))
    );
    assert_eq!(app.parameters()[0].value(), None);
}

#[test]
fn a_flag_given_a_value_is_unexpected() {
    let mut app = single_flag();
    assert_eq!(
        app.execute(&["--flag=yes"]),
        Err(CommandLineError::UnexpectedParameter("--flag=yes".to_string()))
    );
    assert!(!app.flags()[0].value());
}

#[test]
fn short_parameter_as_last_token_expects_a_value() {
    let mut app = single_parameter();
    assert_eq!(app.execute(&["-p"]), Err(CommandLineError::ExpectedValue("-p".to_string())));
    assert_eq!(app.parameters()[0].value(), None);

    assert_eq!(app.execute(&["-p", "set"]), Ok(Outcome::Completed(7)));
    assert_eq!(app.execute(&["-p"]), Err(CommandLineError::ExpectedValue("-p".to_string())));
    assert_eq!(app.parameters()[0].value(), Some("set"));
}

#[test]
fn a_flag_comes_before_a_parameter_of_the_same_short_name() {
    let mut app = Application::build()
        .with_flags(vec![flag("x", "xflag")])
        .with_parameters(vec![parameter("x", "xparam")])
        .with_command(seven as fn() -> i32)
        .build();
    assert_eq!(app.execute(&["-x"]), Ok(Outcome::Completed(7)));
    assert!(app.flags()[0].value());
    assert_eq!(app.parameters()[0].value(), None);
}

#[test]
fn the_first_declaration_of_a_name_wins() {
    let mut app = Application::build()
        .with_flags(vec![flag("a", "one"), flag("a", "two"), flag("b", "two")])
        .with_command(seven as fn() -> i32)
        .build();
    assert_eq!(app.execute(&["-a", "--two"]), Ok(Outcome::Completed(7)));
    assert!(app.flags()[0].value());
    assert!(app.flags()[1].value());
    assert!(!app.flags()[2].value());
}

#[test]
fn nested_scenario() {
    let mut app = nested();
    assert_eq!(app.execute(&["-f", "sub", "-p", "v"]), Ok(Outcome::Completed(11)));
    assert!(app.flags()[0].value());
    assert_eq!(app.subcommands()[0].parameters()[0].value(), Some("v"));
}

#[test]
fn a_root_flag_behind_the_subcommand_is_rejected() {
    let mut app = nested();
    assert_eq!(
        app.execute(&["sub", "-f"]),
        Err(CommandLineError::UnknownArgument("-f".to_string()))
    );
    assert!(!app.flags()[0].value());

    let mut app = nested();
    assert_eq!(
        app.execute(&["sub", "--flag"]),
        Err(CommandLineError::UnknownArgument("--flag".to_string()))
    );
    assert!(!app.flags()[0].value());
}

#[test]
fn a_subcommand_parameter_before_the_subcommand_is_rejected() {
    let mut app = nested();
    assert_eq!(
        app.execute(&["-p", "v", "sub"]),
        Err(CommandLineError::UnknownArgument("-p".to_string()))
    );
    assert_eq!(app.subcommands()[0].parameters()[0].value(), None);

    let mut app = nested();
    assert_eq!(
        app.execute(&["--param=v", "sub"]),
        Err(CommandLineError::UnexpectedParameter("--param=v".to_string()))
    );
    assert_eq!(app.subcommands()[0].parameters()[0].value(), None);
}

#[test]
fn a_bare_token_that_is_no_subcommand_is_unknown() {
    let mut app = nested();
    assert_eq!(
        app.execute(&["-f", "other"]),
        Err(CommandLineError::UnknownCommand("other".to_string()))
    );
    assert!(app.flags()[0].value());

    let mut app = single_flag();
    assert_eq!(app.execute(&[""]), Err(CommandLineError::UnknownCommand("".to_string())));
}

#[test]
fn each_subcommand_has_its_own_callback() {
    let first = SubCommand::build().with_long_name("first").with_command(seven as fn() -> i32).build();
    let inner =
        SubCommand::build().with_long_name("inner").with_command(eleven as fn() -> i32).build();
    let second = SubCommand::build()
        .with_long_name("second")
        .with_flags(vec![flag("v", "verbose")])
        .with_subcommands(vec![inner])
        .build();
    let mut app = Application::build().with_subcommands(vec![first, second]).build();

    assert_eq!(app.execute(&["first"]), Ok(Outcome::Completed(7)));
    assert_eq!(app.execute(&["second", "-v", "inner"]), Ok(Outcome::Completed(11)));
    assert!(app.subcommands()[1].flags()[0].value());
    assert_eq!(app.execute(&["second"]), Err(CommandLineError::ExpectedSubcommand));
    assert_eq!(
        app.execute(&["second", "first"]),
        Err(CommandLineError::UnknownCommand("first".to_string()))
    );
    assert_eq!(
        app.execute(&["first", "second"]),
        Err(CommandLineError::UnknownCommand("second".to_string()))
    );
}

#[test]
fn dashes_alone_name_the_empty_name() {
    let mut app = single_flag();
    assert_eq!(app.execute(&["--"]), Err(CommandLineError::UnknownArgument("--".to_string())));
    assert_eq!(app.execute(&["-"]), Err(CommandLineError::UnknownArgument("-".to_string())));
    assert_eq!(
        app.execute(&["--=v"]),
        Err(CommandLineError::UnexpectedParameter("--=v".to_string()))
    );
    assert!(!app.flags()[0].value());

    let mut app = Application::build()
        .with_flags(vec![
            Flag::build().with_long_name("long-only").with_flag(FlagValue::new()).build(),
            Flag::build().with_short_name("s").with_flag(FlagValue::new()).build(),
        ])
        .with_command(seven as fn() -> i32)
        .build();
    assert_eq!(app.execute(&["-"]), Ok(Outcome::Completed(7)));
    assert!(app.flags()[0].value());
    assert!(!app.flags()[1].value());
    assert_eq!(app.execute(&["--"]), Ok(Outcome::Completed(7)));
    assert!(app.flags()[1].value());
}

#[test]
fn help_is_asked_for_by_its_keyword() {
    let mut app = single_flag();
    assert!(app.help_enabled());
    assert_eq!(app.execute(&["-f", "help", "ignored"]), Ok(Outcome::HelpRequested));
    assert!(app.flags()[0].value());
}

#[test]
fn help_can_be_switched_off() {
    let mut app = Application::build()
        .with_flags(vec![flag("f", "flag")])
        .with_command(seven as fn() -> i32)
        .with_help(false)
        .build();
    assert!(!app.help_enabled());
    assert_eq!(app.execute(&["help"]), Err(CommandLineError::UnknownCommand("help".to_string())));
}

#[test]
fn a_subcommand_named_help_is_a_subcommand() {
    let help = SubCommand::build().with_long_name("help").with_command(eleven as fn() -> i32).build();
    let mut app = Application::build()
        .with_subcommands(vec![help])
        .with_command(seven as fn() -> i32)
        .build();
    assert_eq!(app.execute(&["help"]), Ok(Outcome::Completed(11)));
}

#[test]
fn help_is_not_asked_for_inside_a_subcommand() {
    let mut app = nested();
    assert_eq!(
        app.execute(&["sub", "help"]),
        Err(CommandLineError::UnknownCommand("help".to_string()))
    );
    assert_eq!(app.execute(&["help"]), Ok(Outcome::HelpRequested));
}

#[test]
fn a_subcommand_dispatches_from_any_position() {
    let mut sub = SubCommand::build()
        .with_long_name("sub")
        .with_flags(vec![flag("f", "flag")])
        .with_command(eleven as fn() -> i32)
        .build();
    assert_eq!(sub.execute_from(&["-x", "ignored", "-f"], 2), Ok(Outcome::Completed(11)));
    assert!(sub.flags()[0].value());
    assert_eq!(sub.execute_from(&["-x"], 1), Ok(Outcome::Completed(11)));
    assert_eq!(
        sub.execute_from(&["-x"], 0),
        Err(CommandLineError::UnknownArgument("-x".to_string()))
    );
}
