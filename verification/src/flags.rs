//! Boolean flags: the store, the declaration, and its builder.

use vstd::prelude::*;
use crate::arguments::Argument;
use crate::model::{ArgumentDraft, FlagSpec, NameKind};
use crate::text::{given_or_empty, text_spec};

verus! {

/// The store of a flag: `false` until the flag is seen on the command line,
/// `true` from then on.
pub struct FlagValue {
    value: bool,
}

impl View for FlagValue {
    type V = bool;

    closed spec fn view(&self) -> bool {
        self.value
    }
}

impl FlagValue {
    /// A store in its initial state.
    pub fn new() -> (store: Self)
        ensures
            !store@,
    {
        FlagValue { value: false }
    }

    /// Whether the flag was seen.
    pub fn value(&self) -> (seen: bool)
        ensures
            seen == self@,
    {
        self.value
    }

    /// Records that the flag was seen. There is no way back.
    pub fn mark(&mut self)
        ensures
            final(self)@,
    {
        self.value = true;
    }
}

/// A command line boolean flag, given as `-{short_name}` or `--{long_name}`.
pub struct Flag<'a> {
    short_name: &'a str,
    long_name: &'a str,
    description: &'a str,
    flag: FlagValue,
}

impl<'a> View for Flag<'a> {
    type V = FlagSpec;

    closed spec fn view(&self) -> FlagSpec {
        FlagSpec {
            short_name: self.short_name@,
            long_name: self.long_name@,
            description: self.description@,
            marked: self.flag@,
        }
    }
}

/// The flags of a sequence, each as its model.
pub open spec fn flag_specs(flags: Seq<Flag<'_>>) -> Seq<FlagSpec> {
    Seq::new(flags.len(), |i: int| flags[i]@)
}

impl<'a> Flag<'a> {
    /// Starts the declaration of a flag.
    pub fn build() -> (builder: FlagBuilder<'a>)
        ensures
            builder@ == ArgumentDraft::<bool>::blank(),
    {
        FlagBuilder { short_name: None, long_name: None, description: None, flag: None }
    }

    /// Records that the flag was seen on the command line.
    pub fn mark(&mut self)
        ensures
            final(self)@ == old(self)@.mark(),
    {
        self.flag.mark();
    }

    /// Whether the flag was seen on the command line.
    pub fn value(&self) -> (seen: bool)
        ensures
            seen == self@.marked,
    {
        self.flag.value()
    }

    /// The name matched after one dash. Empty if the flag has none.
    pub fn short_name(&self) -> (name: &str)
        ensures
            name@ == self@.short_name,
    {
        self.short_name
    }

    /// The name matched after two dashes. Empty if the flag has none.
    pub fn long_name(&self) -> (name: &str)
        ensures
            name@ == self@.long_name,
    {
        self.long_name
    }

    /// One line that says what the flag is for.
    pub fn description(&self) -> (text: &str)
        ensures
            text@ == self@.description,
    {
        self.description
    }
}

impl<'a> Argument for Flag<'a> {
    open spec fn name_spec(&self, by: NameKind) -> Seq<char> {
        self@.name(by)
    }

    open spec fn description_spec(&self) -> Seq<char> {
        self@.description
    }

    fn long_name(&self) -> (name: &str) {
        self.long_name
    }

    fn short_name(&self) -> (name: &str) {
        self.short_name
    }

    fn description(&self) -> (text: &str) {
        self.description
    }
}

/// Collects what a [`Flag`] is made of.
pub struct FlagBuilder<'a> {
    short_name: Option<&'a str>,
    long_name: Option<&'a str>,
    description: Option<&'a str>,
    flag: Option<FlagValue>,
}

impl<'a> View for FlagBuilder<'a> {
    type V = ArgumentDraft<bool>;

    closed spec fn view(&self) -> ArgumentDraft<bool> {
        ArgumentDraft {
            short_name: text_spec(self.short_name),
            long_name: text_spec(self.long_name),
            description: text_spec(self.description),
            store: match self.flag {
                Some(store) => Some(store@),
                None => None,
            },
        }
    }
}

impl<'a> FlagBuilder<'a> {
    /// Sets the name matched after one dash.
    pub fn with_short_name(self, short_name: &'a str) -> (builder: Self)
        ensures
            builder@ == (ArgumentDraft { short_name: Some(short_name@), ..self@ }),
    {
        let mut builder = self;
        builder.short_name = Some(short_name);
        builder
    }

    /// Sets the name matched after two dashes.
    pub fn with_long_name(self, long_name: &'a str) -> (builder: Self)
        ensures
            builder@ == (ArgumentDraft { long_name: Some(long_name@), ..self@ }),
    {
        let mut builder = self;
        builder.long_name = Some(long_name);
        builder
    }

    /// Sets the line that says what the flag is for.
    pub fn with_description(self, description: &'a str) -> (builder: Self)
        ensures
            builder@ == (ArgumentDraft { description: Some(description@), ..self@ }),
    {
        let mut builder = self;
        builder.description = Some(description);
        builder
    }

    /// Sets the store that the flag marks.
    pub fn with_flag(self, flag: FlagValue) -> (builder: Self)
        ensures
            builder@ == (ArgumentDraft { store: Some(flag@), ..self@ }),
    {
        let mut builder = self;
        builder.flag = Some(flag);
        builder
    }

    /// Whether [`FlagBuilder::build`] may be called: a store was given, and a
    /// short or a long name that is not empty.
    pub fn is_complete(&self) -> (complete: bool)
        ensures
            complete == self@.complete(),
    {
        self.flag.is_some() && !(given_or_empty(self.short_name).is_empty() && given_or_empty(
            self.long_name,
        ).is_empty())
    }

    /// The flag as declared. A name or a description that was not given is
    /// empty.
    pub fn build(self) -> (flag: Flag<'a>)
        requires
            self@.complete(),
        ensures
            flag@ == self@.flag(),
            flag@.well_formed(),
    {
        let short_name = given_or_empty(self.short_name);
        let long_name = given_or_empty(self.long_name);
        let description = given_or_empty(self.description);
        let flag = self.flag.unwrap();
        Flag { short_name, long_name, description, flag }
    }
}

} // verus!
