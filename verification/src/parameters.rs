//! String parameters: the store, the declaration, and its builder.

use vstd::prelude::*;
use crate::arguments::Argument;
use crate::model::{ArgumentDraft, NameKind, ParameterSpec};
use crate::text::{given_or_empty, text_spec};

verus! {

/// The store of a parameter: empty until a value is bound, then the value
/// bound last.
pub struct ParameterValue {
    value: Option<String>,
}

impl View for ParameterValue {
    type V = Option<Seq<char>>;

    closed spec fn view(&self) -> Option<Seq<char>> {
        match self.value {
            Some(text) => Some(text@),
            None => None,
        }
    }
}

impl ParameterValue {
    /// A store in its initial state.
    pub fn new() -> (store: Self)
        ensures
            store@ is None,
    {
        ParameterValue { value: None }
    }

    /// The value bound last, if any was.
    pub fn value(&self) -> (bound: Option<&str>)
        ensures
            match self@ {
                Some(text) => bound matches Some(s) && s@ == text,
                None => bound is None,
            },
    {
        match &self.value {
            Some(text) => Some(text.as_str()),
            None => None,
        }
    }

    /// Binds `value`, in place of whatever was bound before.
    pub fn set_value(&mut self, value: String)
        ensures
            final(self)@ == Some(value@),
    {
        self.value = Some(value);
    }
}

/// A command line string parameter, given as `-{short_name} {value}` or
/// `--{long_name}={value}`.
pub struct Parameter<'a> {
    short_name: &'a str,
    long_name: &'a str,
    description: &'a str,
    value: ParameterValue,
}

impl<'a> View for Parameter<'a> {
    type V = ParameterSpec;

    closed spec fn view(&self) -> ParameterSpec {
        ParameterSpec {
            short_name: self.short_name@,
            long_name: self.long_name@,
            description: self.description@,
            value: self.value@,
        }
    }
}

/// The parameters of a sequence, each as its model.
pub open spec fn parameter_specs(parameters: Seq<Parameter<'_>>) -> Seq<ParameterSpec> {
    Seq::new(parameters.len(), |j: int| parameters[j]@)
}

impl<'a> Parameter<'a> {
    /// Starts the declaration of a parameter.
    pub fn build() -> (builder: ParameterBuilder<'a>)
        ensures
            builder@ == ArgumentDraft::<Option<Seq<char>>>::blank(),
    {
        ParameterBuilder { short_name: None, long_name: None, description: None, parameter: None }
    }

    /// Binds `value` to the parameter, in place of whatever was bound before.
    pub fn set_value(&mut self, value: String)
        ensures
            final(self)@ == old(self)@.bind(value@),
    {
        self.value.set_value(value);
    }

    /// The value bound last, if any was.
    pub fn value(&self) -> (bound: Option<&str>)
        ensures
            match self@.value {
                Some(text) => bound matches Some(s) && s@ == text,
                None => bound is None,
            },
    {
        self.value.value()
    }

    /// The name matched after one dash. Empty if the parameter has none.
    pub fn short_name(&self) -> (name: &str)
        ensures
            name@ == self@.short_name,
    {
        self.short_name
    }

    /// The name matched after two dashes. Empty if the parameter has none.
    pub fn long_name(&self) -> (name: &str)
        ensures
            name@ == self@.long_name,
    {
        self.long_name
    }

    /// One line that says what the parameter is for.
    pub fn description(&self) -> (text: &str)
        ensures
            text@ == self@.description,
    {
        self.description
    }
}

impl<'a> Argument for Parameter<'a> {
    open spec fn name_spec(&self, by: NameKind) -> Seq<char> {
        self@.name(by)
    }

    open spec fn description_spec(&self) -> Seq<char> {
        self@.description
    }

    fn long_name(&self) -> (name: &str) {
        self.long_name
    }

    fn short_name(&self) -> (name: &str) {
        self.short_name
    }

    fn description(&self) -> (text: &str) {
        self.description
    }
}

/// Collects what a [`Parameter`] is made of.
pub struct ParameterBuilder<'a> {
    short_name: Option<&'a str>,
    long_name: Option<&'a str>,
    description: Option<&'a str>,
    parameter: Option<ParameterValue>,
}

impl<'a> View for ParameterBuilder<'a> {
    type V = ArgumentDraft<Option<Seq<char>>>;

    closed spec fn view(&self) -> ArgumentDraft<Option<Seq<char>>> {
        ArgumentDraft {
            short_name: text_spec(self.short_name),
            long_name: text_spec(self.long_name),
            description: text_spec(self.description),
            store: match self.parameter {
                Some(store) => Some(store@),
                None => None,
            },
        }
    }
}

impl<'a> ParameterBuilder<'a> {
    /// Sets the name matched after one dash.
    pub fn with_short_name(self, short_name: &'a str) -> (builder: Self)
        ensures
            builder@ == (ArgumentDraft { short_name: Some(short_name@), ..self@ }),
    {
        let mut builder = self;
        builder.short_name = Some(short_name);
        builder
    }

    /// Sets the name matched after two dashes.
    pub fn with_long_name(self, long_name: &'a str) -> (builder: Self)
        ensures
            builder@ == (ArgumentDraft { long_name: Some(long_name@), ..self@ }),
    {
        let mut builder = self;
        builder.long_name = Some(long_name);
        builder
    }

    /// Sets the line that says what the parameter is for.
    pub fn with_description(self, description: &'a str) -> (builder: Self)
        ensures
            builder@ == (ArgumentDraft { description: Some(description@), ..self@ }),
    {
        let mut builder = self;
        builder.description = Some(description);
        builder
    }

    /// Sets the store that the parameter binds its value to.
    pub fn with_parameter(self, value: ParameterValue) -> (builder: Self)
        ensures
            builder@ == (ArgumentDraft { store: Some(value@), ..self@ }),
    {
        let mut builder = self;
        builder.parameter = Some(value);
        builder
    }

    /// Whether [`ParameterBuilder::build`] may be called: a store was given,
    /// and a short or a long name that is not empty.
    pub fn is_complete(&self) -> (complete: bool)
        ensures
            complete == self@.complete(),
    {
        self.parameter.is_some() && !(given_or_empty(self.short_name).is_empty() && given_or_empty(
            self.long_name,
        ).is_empty())
    }

    /// The parameter as declared. A name or a description that was not given
    /// is empty.
    pub fn build(self) -> (parameter: Parameter<'a>)
        requires
            self@.complete(),
        ensures
            parameter@ == self@.parameter(),
            parameter@.well_formed(),
    {
        let short_name = given_or_empty(self.short_name);
        let long_name = given_or_empty(self.long_name);
        let description = given_or_empty(self.description);
        let value = self.parameter.unwrap();
        Parameter { short_name, long_name, description, value }
    }
}

} // verus!
