//! Laws of the dispatch, each proved from the definitions in [`crate::model`].
//!
//! The executable functions are proved against [`dispatch`], so whatever is
//! shown here of `dispatch` holds of every run of them.

use vstd::prelude::*;
use crate::model::{
    action, callable, dispatch, help_keyword, Action, CommandSpec, Failure, NameKind, Verdict,
};
use crate::text::{
    first_index, is_bare, is_first, is_long_form, is_short_form, lemma_first_index,
    lemma_first_index_found, split_at_equals,
};

verus! {

/// A token followed by the tokens after it.
pub open spec fn then(token: Seq<char>, rest: Seq<Seq<char>>) -> Seq<Seq<char>> {
    seq![token] + rest
}

proof fn lemma_then(token: Seq<char>, rest: Seq<Seq<char>>)
    ensures
        then(token, rest).len() == rest.len() + 1,
        then(token, rest)[0] == token,
        then(token, rest).drop_first() == rest,
{
    assert(then(token, rest).drop_first() =~= rest);
}

/// An index that a lookup returns is the index of a declaration.
pub proof fn law_action_fits<F>(node: CommandSpec<F>, token: Seq<char>)
    ensures
        action(node, token).fits(node),
{
    lemma_first_index(node.flag_names(NameKind::Long), token.skip(2));
    lemma_first_index(node.flag_names(NameKind::Short), token.skip(1));
    lemma_first_index(node.parameter_names(NameKind::Short), token.skip(1));
    lemma_first_index(node.subcommand_names(), token);
    match split_at_equals(token.skip(2)) {
        Some((name, _)) => {
            lemma_first_index(node.parameter_names(NameKind::Long), name);
        },
        None => {},
    }
}

/// With no tokens nothing is stored, and the dispatch ends at the root: its
/// callback is invoked if it has one, and the dispatch fails with
/// `ExpectedSubcommand` if it has none.
pub proof fn law_empty_input<F>(node: CommandSpec<F>)
    ensures
        dispatch(node, Seq::empty()).0 == node,
        node.command matches Some(callback) ==> dispatch(node, Seq::empty()).1 == Verdict::Invoke(
            callback,
        ),
        node.command is None ==> dispatch(node, Seq::empty()).1 == Verdict::<F>::Fail(
            Failure::ExpectedSubcommand,
        ),
{
}

/// Marking a flag sets its store and leaves every other store, and every
/// declaration, as it was.
pub proof fn law_mark_touches_one_store<F>(node: CommandSpec<F>, i: int)
    requires
        0 <= i < node.flags.len(),
    ensures
        node.mark(i).flags.len() == node.flags.len(),
        node.mark(i).flags[i].marked,
        node.mark(i).flags[i].declaration() == node.flags[i].declaration(),
        forall|m: int| 0 <= m < node.flags.len() && m != i ==> node.mark(i).flags[m] == node.flags[m],
        node.mark(i).parameters == node.parameters,
        node.mark(i).subcommands == node.subcommands,
        node.mark(i).command == node.command,
{
}

/// Binding a value sets the store of one parameter and leaves every other
/// store, and every declaration, as it was.
pub proof fn law_bind_touches_one_store<F>(node: CommandSpec<F>, j: int, value: Seq<char>)
    requires
        0 <= j < node.parameters.len(),
    ensures
        node.bind(j, value).parameters.len() == node.parameters.len(),
        node.bind(j, value).parameters[j].value == Some(value),
        node.bind(j, value).parameters[j].declaration() == node.parameters[j].declaration(),
        forall|m: int|
            0 <= m < node.parameters.len() && m != j ==> node.bind(j, value).parameters[m]
                == node.parameters[m],
        node.bind(j, value).flags == node.flags,
        node.bind(j, value).subcommands == node.subcommands,
        node.bind(j, value).command == node.command,
{
}

/// A token of one dash and the short name of a declared flag marks the first
/// flag of that name, and the dispatch goes on with the next token.
pub proof fn law_short_flag<F>(
    node: CommandSpec<F>,
    token: Seq<char>,
    rest: Seq<Seq<char>>,
    i: int,
)
    requires
        is_short_form(token),
        node.find_flag(token.skip(1), NameKind::Short) == Some(i),
    ensures
        dispatch(node, then(token, rest)) == dispatch(node.mark(i), rest),
        dispatch(node, seq![token]) == (node.mark(i), node.at_end()),
{
    lemma_then(token, rest);
    lemma_then(token, Seq::empty());
    assert(then(token, Seq::empty()) =~= seq![token]);
    law_empty_input(node.mark(i));
}

/// A token of two dashes and the long name of a declared flag has the same
/// effect: it marks the first flag of that name.
pub proof fn law_long_flag<F>(
    node: CommandSpec<F>,
    token: Seq<char>,
    rest: Seq<Seq<char>>,
    i: int,
)
    requires
        is_long_form(token),
        split_at_equals(token.skip(2)) is None,
        node.find_flag(token.skip(2), NameKind::Long) == Some(i),
    ensures
        dispatch(node, then(token, rest)) == dispatch(node.mark(i), rest),
        dispatch(node, seq![token]) == (node.mark(i), node.at_end()),
{
    lemma_then(token, rest);
    lemma_then(token, Seq::empty());
    assert(then(token, Seq::empty()) =~= seq![token]);
    law_empty_input(node.mark(i));
}

/// A token with a dash that names no declared flag and no declared parameter
/// fails the dispatch with `UnknownArgument`. Nothing is stored for it, and
/// the tokens after it are not read.
pub proof fn law_unknown_argument<F>(node: CommandSpec<F>, token: Seq<char>, rest: Seq<Seq<char>>)
    requires
        is_short_form(token) || is_long_form(token),
        is_short_form(token) ==> {
            &&& node.find_flag(token.skip(1), NameKind::Short) is None
            &&& node.find_parameter(token.skip(1), NameKind::Short) is None
        },
        is_long_form(token) ==> {
            &&& split_at_equals(token.skip(2)) is None
            &&& node.find_flag(token.skip(2), NameKind::Long) is None
        },
    ensures
        dispatch(node, then(token, rest)) == (
            node,
            Verdict::<F>::Fail(Failure::UnknownArgument(token)),
        ),
{
    lemma_then(token, rest);
}

/// A `--name=value` token whose name is no declared parameter fails the
/// dispatch with `UnexpectedParameter`, and nothing is stored for it.
pub proof fn law_unexpected_parameter<F>(
    node: CommandSpec<F>,
    token: Seq<char>,
    rest: Seq<Seq<char>>,
)
    requires
        is_long_form(token),
        split_at_equals(token.skip(2)) matches Some((name, _)) && node.find_parameter(
            name,
            NameKind::Long,
        ) is None,
    ensures
        dispatch(node, then(token, rest)) == (
            node,
            Verdict::<F>::Fail(Failure::UnexpectedParameter(token)),
        ),
{
    lemma_then(token, rest);
}

/// A token of one dash and the short name of a declared parameter binds the
/// token after it, whatever that token looks like, to the first parameter of
/// that name. A flag of the same short name comes first.
pub proof fn law_short_parameter<F>(
    node: CommandSpec<F>,
    token: Seq<char>,
    value: Seq<char>,
    rest: Seq<Seq<char>>,
    j: int,
)
    requires
        is_short_form(token),
        node.find_flag(token.skip(1), NameKind::Short) is None,
        node.find_parameter(token.skip(1), NameKind::Short) == Some(j),
    ensures
        dispatch(node, then(token, then(value, rest))) == dispatch(node.bind(j, value), rest),
        dispatch(node, seq![token, value]) == (node.bind(j, value), node.at_end()),
{
    lemma_then(token, then(value, rest));
    lemma_then(value, rest);
    lemma_then(token, then(value, Seq::empty()));
    lemma_then(value, Seq::empty());
    assert(then(token, then(value, Seq::empty())) =~= seq![token, value]);
    law_empty_input(node.bind(j, value));
}

/// A `--name=value` token binds `value` to the first declared parameter
/// whose long name is `name`.
pub proof fn law_long_parameter<F>(
    node: CommandSpec<F>,
    token: Seq<char>,
    name: Seq<char>,
    value: Seq<char>,
    rest: Seq<Seq<char>>,
    j: int,
)
    requires
        is_long_form(token),
        split_at_equals(token.skip(2)) == Some((name, value)),
        node.find_parameter(name, NameKind::Long) == Some(j),
    ensures
        dispatch(node, then(token, rest)) == dispatch(node.bind(j, value), rest),
        dispatch(node, seq![token]) == (node.bind(j, value), node.at_end()),
{
    lemma_then(token, rest);
    lemma_then(token, Seq::empty());
    assert(then(token, Seq::empty()) =~= seq![token]);
    law_empty_input(node.bind(j, value));
}

/// A text is cut at its first `=`, and only there: the name holds no `=`, the
/// value is everything behind that `=`, and name, `=` and value together are
/// the text. A text without `=` is not cut.
pub proof fn law_split_at_first_equals(text: Seq<char>)
    ensures
        match split_at_equals(text) {
            Some((name, value)) => {
                &&& !name.contains('=')
                &&& text == name + seq!['='] + value
            },
            None => !text.contains('='),
        },
{
    lemma_first_index(text, '=');
    match first_index(text, '=') {
        Some(p) => {
            let name = text.take(p);
            let value = text.skip(p + 1);
            assert(text =~= name + seq!['='] + value);
            if name.contains('=') {
                let q = choose|q: int| 0 <= q < name.len() && name[q] == '=';
                assert(text[q] == '=');
            }
        },
        None => {
            if text.contains('=') {
                let q = choose|q: int| 0 <= q < text.len() && text[q] == '=';
                assert(text[q] != '=');
            }
        },
    }
}

/// Whatever stands behind the first `=` is the value, further `=` included.
pub proof fn law_value_may_hold_equals(name: Seq<char>, value: Seq<char>)
    requires
        !name.contains('='),
    ensures
        split_at_equals(name + seq!['='] + value) == Some((name, value)),
{
    let text = name + seq!['='] + value;
    let p = name.len() as int;
    assert(text[p] == '=');
    assert forall|q: int| 0 <= q < p implies text[q] != '=' by {
        assert(text[q] == name[q]);
        assert(name.contains(name[q]));
    }
    assert(is_first(text, '=', p));
    lemma_first_index_found(text, '=', p);
    assert(text.take(p) =~= name);
    assert(text.skip(p + 1) =~= value);
}

/// A bare token that names a subcommand hands every token after it to that
/// subcommand: how the dispatch ends, and what it stores, is what a dispatch
/// of the remaining tokens at the subcommand ends in and stores. The stores
/// of the node itself, and of its other subcommands, are left as they were.
pub proof fn law_subcommand_takes_over<F>(
    node: CommandSpec<F>,
    token: Seq<char>,
    rest: Seq<Seq<char>>,
    k: int,
)
    requires
        is_bare(token),
        node.find_subcommand(token) == Some(k),
    ensures
        0 <= k < node.subcommands.len(),
        node.subcommands[k].name == token,
        dispatch(node, then(token, rest)).1 == dispatch(node.subcommands[k], rest).1,
        dispatch(node, then(token, rest)).0 == node.with_subcommand(
            k,
            dispatch(node.subcommands[k], rest).0,
        ),
        dispatch(node, then(token, rest)).0.flags == node.flags,
        dispatch(node, then(token, rest)).0.parameters == node.parameters,
{
    lemma_then(token, rest);
    lemma_first_index(node.subcommand_names(), token);
}

/// Behind the token of a subcommand, only the subcommand's own declarations
/// count: a flag that the subcommand does not declare is rejected there, and
/// is not marked, whether or not the node above declares it.
pub proof fn law_outer_flag_is_rejected_inside<F>(
    node: CommandSpec<F>,
    token: Seq<char>,
    flag: Seq<char>,
    rest: Seq<Seq<char>>,
    k: int,
)
    requires
        is_bare(token),
        node.find_subcommand(token) == Some(k),
        is_short_form(flag) || is_long_form(flag),
        is_short_form(flag) ==> {
            &&& node.subcommands[k].find_flag(flag.skip(1), NameKind::Short) is None
            &&& node.subcommands[k].find_parameter(flag.skip(1), NameKind::Short) is None
        },
        is_long_form(flag) ==> {
            &&& split_at_equals(flag.skip(2)) is None
            &&& node.subcommands[k].find_flag(flag.skip(2), NameKind::Long) is None
        },
    ensures
        dispatch(node, then(token, then(flag, rest))) == (
            node,
            Verdict::<F>::Fail(Failure::UnknownArgument(flag)),
        ),
{
    law_subcommand_takes_over(node, token, then(flag, rest), k);
    law_unknown_argument(node.subcommands[k], flag, rest);
    assert(node.with_subcommand(k, node.subcommands[k]).subcommands =~= node.subcommands);
}

/// A bare token that names no subcommand fails the dispatch with
/// `UnknownCommand`, unless it is `help` at a node that has help enabled.
pub proof fn law_unknown_command<F>(node: CommandSpec<F>, token: Seq<char>, rest: Seq<Seq<char>>)
    requires
        is_bare(token),
        node.find_subcommand(token) is None,
    ensures
        dispatch(node, then(token, rest)) == (
            node,
            if node.help && token == help_keyword() {
                Verdict::<F>::Help
            } else {
                Verdict::<F>::Fail(Failure::UnknownCommand(token))
            },
        ),
{
    lemma_then(token, rest);
}

/// A short-form parameter as the last token fails the dispatch with
/// `ExpectedValue`, and that token stores nothing.
pub proof fn law_expected_value<F>(node: CommandSpec<F>, token: Seq<char>, j: int)
    requires
        is_short_form(token),
        node.find_flag(token.skip(1), NameKind::Short) is None,
        node.find_parameter(token.skip(1), NameKind::Short) == Some(j),
    ensures
        dispatch(node, seq![token]) == (node, Verdict::<F>::Fail(Failure::ExpectedValue(token))),
{
    lemma_then(token, Seq::empty());
    assert(then(token, Seq::empty()) =~= seq![token]);
}

/// A dispatch changes stores and nothing else: the names, the descriptions,
/// the shape of the tree and its callbacks are afterwards what they were
/// before, at every depth and however the dispatch ends.
pub proof fn law_declarations_are_kept<F>(node: CommandSpec<F>, tokens: Seq<Seq<char>>)
    ensures
        dispatch(node, tokens).0.declaration() == node.declaration(),
    decreases tokens.len(),
{
    if tokens.len() > 0 {
        let token = tokens[0];
        let rest = tokens.drop_first();
        law_action_fits(node, token);
        match action(node, token) {
            Action::Mark(i) => {
                law_declarations_are_kept(node.mark(i), rest);
                assert(node.mark(i).declaration().flags =~= node.declaration().flags);
            },
            Action::Bind(j, value) => {
                law_declarations_are_kept(node.bind(j, value), rest);
                assert(node.bind(j, value).declaration().parameters
                    =~= node.declaration().parameters);
            },
            Action::TakeValue(j) => {
                if rest.len() > 0 {
                    law_declarations_are_kept(node.bind(j, rest[0]), rest.drop_first());
                    assert(node.bind(j, rest[0]).declaration().parameters
                        =~= node.declaration().parameters);
                }
            },
            Action::Enter(k) => {
                let child = dispatch(node.subcommands[k], rest).0;
                law_declarations_are_kept(node.subcommands[k], rest);
                assert(node.with_subcommand(k, child).declaration().subcommands
                    =~= node.declaration().subcommands);
            },
            Action::Help => {},
            Action::Reject(_) => {},
        }
    }
}

/// The name of a node is part of its declaration.
proof fn lemma_declaration_holds_the_name<F>(a: CommandSpec<F>, b: CommandSpec<F>)
    requires
        a.declaration() == b.declaration(),
    ensures
        a.name == b.name,
        a.command == b.command,
        a.help == b.help,
        a.flags.len() == b.flags.len(),
        a.parameters.len() == b.parameters.len(),
        a.subcommands.len() == b.subcommands.len(),
{
    assert(a.declaration().flags.len() == a.flags.len());
    assert(a.declaration().parameters.len() == a.parameters.len());
    assert(a.declaration().subcommands.len() == a.subcommands.len());
}

/// A dispatch keeps a well-formed tree well-formed.
pub proof fn law_well_formed_is_kept<F>(node: CommandSpec<F>, tokens: Seq<Seq<char>>)
    requires
        node.well_formed(),
    ensures
        dispatch(node, tokens).0.well_formed(),
    decreases tokens.len(),
{
    if tokens.len() > 0 {
        let token = tokens[0];
        let rest = tokens.drop_first();
        law_action_fits(node, token);
        match action(node, token) {
            Action::Mark(i) => {
                assert(node.mark(i).well_formed());
                law_well_formed_is_kept(node.mark(i), rest);
            },
            Action::Bind(j, value) => {
                assert(node.bind(j, value).well_formed());
                law_well_formed_is_kept(node.bind(j, value), rest);
            },
            Action::TakeValue(j) => {
                if rest.len() > 0 {
                    assert(node.bind(j, rest[0]).well_formed());
                    law_well_formed_is_kept(node.bind(j, rest[0]), rest.drop_first());
                }
            },
            Action::Enter(k) => {
                let child = dispatch(node.subcommands[k], rest).0;
                law_well_formed_is_kept(node.subcommands[k], rest);
                law_declarations_are_kept(node.subcommands[k], rest);
                lemma_declaration_holds_the_name(child, node.subcommands[k]);
                assert(node.with_subcommand(k, child).well_formed());
            },
            Action::Help => {},
            Action::Reject(_) => {},
        }
    }
}

/// A dispatch leaves every callback of the tree callable: the tree can be
/// dispatched over again.
pub proof fn law_callable_is_kept<R, F: Fn() -> R>(node: CommandSpec<F>, tokens: Seq<Seq<char>>)
    requires
        callable::<R, F>(node),
    ensures
        callable::<R, F>(dispatch(node, tokens).0),
    decreases tokens.len(),
{
    if tokens.len() > 0 {
        let token = tokens[0];
        let rest = tokens.drop_first();
        law_action_fits(node, token);
        match action(node, token) {
            Action::Mark(i) => {
                assert(callable::<R, F>(node.mark(i)));
                law_callable_is_kept::<R, F>(node.mark(i), rest);
            },
            Action::Bind(j, value) => {
                assert(callable::<R, F>(node.bind(j, value)));
                law_callable_is_kept::<R, F>(node.bind(j, value), rest);
            },
            Action::TakeValue(j) => {
                if rest.len() > 0 {
                    assert(callable::<R, F>(node.bind(j, rest[0])));
                    law_callable_is_kept::<R, F>(node.bind(j, rest[0]), rest.drop_first());
                }
            },
            Action::Enter(k) => {
                let child = dispatch(node.subcommands[k], rest).0;
                law_callable_is_kept::<R, F>(node.subcommands[k], rest);
                assert(callable::<R, F>(node.with_subcommand(k, child)));
            },
            Action::Help => {},
            Action::Reject(_) => {},
        }
    }
}

/// A tree keeps its own stores.
proof fn lemma_keeps_own_stores<F>(node: CommandSpec<F>)
    ensures
        node.keeps_stores_of(node),
    decreases node,
{
    assert forall|k: int| 0 <= k < node.subcommands.len() implies (
    #[trigger] node.subcommands[k]).keeps_stores_of(node.subcommands[k]) by {
        lemma_keeps_own_stores(node.subcommands[k]);
    }
}

/// What keeps the stores of a tree keeps those of every earlier state of it.
proof fn lemma_keeps_stores_in_turn<F>(
    last: CommandSpec<F>,
    middle: CommandSpec<F>,
    first: CommandSpec<F>,
)
    requires
        last.keeps_stores_of(middle),
        middle.keeps_stores_of(first),
    ensures
        last.keeps_stores_of(first),
    decreases last,
{
    assert forall|i: int| 0 <= i < last.flags.len() && first.flags[i].marked implies (
    #[trigger] last.flags[i]).marked by {
        assert(middle.flags[i].marked);
    }
    assert forall|j: int|
        0 <= j < last.parameters.len() && first.parameters[j].value is Some implies (
    #[trigger] last.parameters[j]).value is Some by {
        assert(middle.parameters[j].value is Some);
    }
    assert forall|k: int| 0 <= k < last.subcommands.len() implies (
    #[trigger] last.subcommands[k]).keeps_stores_of(first.subcommands[k]) by {
        assert(middle.subcommands[k].keeps_stores_of(first.subcommands[k]));
        lemma_keeps_stores_in_turn(last.subcommands[k], middle.subcommands[k], first.subcommands[k]);
    }
}

/// A dispatch never clears a store: a flag that was marked before is marked
/// afterwards, and a parameter that was bound before is bound afterwards, at
/// every depth and however the dispatch ends.
pub proof fn law_stores_are_never_cleared<F>(node: CommandSpec<F>, tokens: Seq<Seq<char>>)
    ensures
        dispatch(node, tokens).0.keeps_stores_of(node),
    decreases tokens.len(),
{
    lemma_keeps_own_stores(node);
    if tokens.len() > 0 {
        let token = tokens[0];
        let rest = tokens.drop_first();
        law_action_fits(node, token);
        match action(node, token) {
            Action::Mark(i) => {
                assert(node.mark(i).keeps_stores_of(node));
                law_stores_are_never_cleared(node.mark(i), rest);
                lemma_keeps_stores_in_turn(dispatch(node.mark(i), rest).0, node.mark(i), node);
            },
            Action::Bind(j, value) => {
                assert(node.bind(j, value).keeps_stores_of(node));
                law_stores_are_never_cleared(node.bind(j, value), rest);
                lemma_keeps_stores_in_turn(
                    dispatch(node.bind(j, value), rest).0,
                    node.bind(j, value),
                    node,
                );
            },
            Action::TakeValue(j) => {
                if rest.len() > 0 {
                    let bound = node.bind(j, rest[0]);
                    assert(bound.keeps_stores_of(node));
                    law_stores_are_never_cleared(bound, rest.drop_first());
                    lemma_keeps_stores_in_turn(dispatch(bound, rest.drop_first()).0, bound, node);
                }
            },
            Action::Enter(k) => {
                let child = dispatch(node.subcommands[k], rest).0;
                law_stores_are_never_cleared(node.subcommands[k], rest);
                assert(node.with_subcommand(k, child).keeps_stores_of(node));
            },
            Action::Help => {},
            Action::Reject(_) => {},
        }
    }
}

} // verus!
