use cliutil::help::{argument_line, subcommand_line_of, DESCRIPTION_WIDTH, NAME_WIDTH};
use cliutil::{Application, Flag, FlagValue, Parameter, ParameterValue, SubCommand};

fn nothing() {}

fn flag<'a>(short: &'a str, long: &'a str, description: &'a str) -> Flag<'a> {
    let mut builder = Flag::build().with_description(description).with_flag(FlagValue::new());
    if !short.is_empty() {
        builder = builder.with_short_name(short);
    }
    if !long.is_empty() {
        builder = builder.with_long_name(long);
    }
    builder.build()
}

#[test]
fn the_widths_share_a_console_of_eighty_columns() {
    assert_eq!(NAME_WIDTH, 20);
    assert_eq!(DESCRIPTION_WIDTH, 60);
    assert_eq!(NAME_WIDTH + DESCRIPTION_WIDTH, 80);
}

#[test]
fn a_line_shows_both_names() {
    let line = argument_line(&flag("t", "test", "A test flag"));
    assert_eq!(line, "  -t, --test        A test flag\n");
    assert_eq!(line.find("A test flag"), Some(NAME_WIDTH));
}

#[test]
fn a_line_shows_the_only_name() {
    assert_eq!(argument_line(&flag("t", "", "Short only")), "  -t                Short only\n");
    assert_eq!(argument_line(&flag("", "test", "Long only")), "  --test            Long only\n");
}

#[test]
fn a_wide_label_is_followed_by_the_description_at_once() {
    // "  -v, --verbose-mode" is 20 columns wide: no blank is left.
    assert_eq!(
        argument_line(&flag("v", "verbose-mode", "Says more")),
        "  -v, --verbose-modeSays more\n"
    );
    assert_eq!(
        argument_line(&flag("v", "a-very-long-name-indeed", "Says more")),
        "  -v, --a-very-long-name-indeedSays more\n"
    );
}

#[test]
fn a_description_is_cut_to_its_columns() {
    let sixty = "123456789012345678901234567890123456789012345678901234567890";
    let more = "123456789012345678901234567890123456789012345678901234567890abc";
    assert_eq!(sixty.len(), 60);
    assert_eq!(argument_line(&flag("t", "", sixty)), format!("  -t                {}\n", sixty));
    assert_eq!(argument_line(&flag("t", "", more)), format!("  -t                {}\n", sixty));
    assert_eq!(argument_line(&flag("t", "", "")), "  -t                \n");
}

#[test]
fn a_parameter_has_the_line_of_a_flag() {
    let parameter = Parameter::build()
        .with_short_name("p")
        .with_long_name("param")
        .with_description("A test parameter")
        .with_parameter(ParameterValue::new())
        .build();
    assert_eq!(argument_line(&parameter), "  -p, --param       A test parameter\n");
}

#[test]
fn a_subcommand_is_shown_by_its_name() {
    let sub = SubCommand::build()
        .with_long_name("headless")
        .with_description("Runs the program in headless mode.")
        .with_command(&nothing)
        .build();
    assert_eq!(subcommand_line_of(&sub), "  headless          Runs the program in headless mode.\n");

    let wide = SubCommand::build()
        .with_long_name("a-subcommand-with-a-long-name")
        .with_description("Wide")
        .with_command(&nothing)
        .build();
    assert_eq!(subcommand_line_of(&wide), "  a-subcommand-with-a-long-nameWide\n");
}

#[test]
fn the_help_text_has_a_block_for_each_kind() {
    let sub = SubCommand::build()
        .with_long_name("headless")
        .with_description("Runs the program in headless mode.")
        .with_command(&nothing)
        .build();
    let app = Application::build()
        .with_name("Example App")
        .with_description("An example command line application.")
        .with_flags(vec![flag("t", "test", "A test flag"), flag("q", "", "Quiet")])
        .with_parameters(vec![Parameter::build()
            .with_short_name("p")
            .with_long_name("param")
            .with_description("A test parameter")
            .with_parameter(ParameterValue::new())
            .build()])
        .with_subcommands(vec![sub])
        .with_command(&nothing)
        .build();
    let expected = "Example App\n\
                    An example command line application.\n\
                    \n\
                    Flags:\n\
                    \x20 -t, --test        A test flag\n\
                    \x20 -q                Quiet\n\
                    \n\
                    Parameters:\n\
                    \x20 -p, --param       A test parameter\n\
                    \n\
                    Subcommands:\n\
                    \x20 headless          Runs the program in headless mode.\n\
                    \n";
    assert_eq!(app.help_text(), expected);
    assert_eq!(app.subcommands()[0].help_text(), "headless\nRuns the program in headless mode.\n\n");
}

#[test]
fn an_empty_block_is_left_out() {
    let app = Application::build().with_name("Bare").with_command(&nothing).build();
    assert_eq!(app.help_text(), "Bare\n\n\n");

    let app = Application::build()
        .with_name("Flags only")
        .with_description("Has flags")
        .with_flags(vec![flag("t", "test", "A test flag")])
        .with_command(&nothing)
        .build();
    assert_eq!(
        app.help_text(),
        "Flags only\nHas flags\n\nFlags:\n  -t, --test        A test flag\n\n"
    );
}

#[test]
fn columns_are_characters() {
    // Two characters of two and three bytes each: the label is 7 columns wide.
    let line = argument_line(&flag("", "\u{e9}\u{4e16}x", "d"));
    assert_eq!(line, "  --\u{e9}\u{4e16}x             d\n");
    assert_eq!(line.chars().position(|c| c == 'd'), Some(NAME_WIDTH));
}
