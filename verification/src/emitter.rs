//! The code emitter: what takes the place of the invocation.
//!
//! A version becomes a string constant that holds it; a failure becomes a
//! diagnostic that stops the compilation, with the failure's message. The
//! caller writes either as tokens.

use crate::config::ConfigurationView;
use crate::directory::DirectoryErrorView;
use crate::parser::{ParseError, ParseErrorView};
use crate::resolver::{
    spec_resolve, spec_usable_version, ObservationView, OutcomeView, ResolutionOutcome,
};
use vstd::prelude::*;

verus! {

/// What is emitted in place of an invocation.
#[derive(Clone, Debug, PartialEq, Eq)]
pub enum Emission {
    /// A string constant with this value.
    Constant(String),
    /// A compile-time diagnostic with this message, and no expression.
    Diagnostic(String),
}

/// The mathematical content of an [`Emission`].
pub enum EmissionView {
    Constant(Seq<char>),
    Diagnostic(Seq<char>),
}

impl View for Emission {
    type V = EmissionView;

    open spec fn view(&self) -> EmissionView {
        match self {
            Emission::Constant(value) => EmissionView::Constant(value@),
            Emission::Diagnostic(message) => EmissionView::Diagnostic(message@),
        }
    }
}

/// What is emitted for an outcome: the constant that holds the version,
/// from wherever it came, or the diagnostic that holds the failure's
/// message.
pub open spec fn spec_emission(outcome: OutcomeView) -> EmissionView {
    match outcome {
        OutcomeView::Resolved(version) => EmissionView::Constant(version),
        OutcomeView::FellBackToPackageVersion(version) => EmissionView::Constant(version),
        OutcomeView::FellBackToLiteral(text) => EmissionView::Constant(text),
        OutcomeView::Failed(detail) => EmissionView::Diagnostic(detail.message),
    }
}

/// What is emitted for a refused invocation: the diagnostic that holds
/// the refusal's message.
pub open spec fn spec_refusal(error: ParseErrorView) -> EmissionView {
    EmissionView::Diagnostic(error.kind.message())
}

/// Decides what is emitted for `outcome`: a string constant with the
/// version where there is one, else a diagnostic with the failure's
/// message and nothing besides.
pub fn emission(outcome: &ResolutionOutcome) -> (emitted: Emission)
    ensures
        emitted@ == spec_emission(outcome@),
{
    match outcome {
        ResolutionOutcome::Resolved(version) => Emission::Constant(version.clone()),
        ResolutionOutcome::FellBackToPackageVersion(version) => Emission::Constant(version.clone()),
        ResolutionOutcome::FellBackToLiteral(text) => Emission::Constant(text.clone()),
        ResolutionOutcome::Failed(detail) => Emission::Diagnostic(detail.message.clone()),
    }
}

/// Decides what is emitted for a refused invocation: a diagnostic with
/// the refusal's message.
pub fn refusal(error: &ParseError) -> (emitted: Emission)
    ensures
        emitted@ == spec_refusal(error@),
{
    Emission::Diagnostic(error.message())
}

/// An outcome with a value is emitted as the constant of that value; one
/// without, as the diagnostic of its message.
pub proof fn lemma_emission_follows_value(outcome: OutcomeView)
    ensures
        match outcome.value() {
            Some(value) => spec_emission(outcome) == EmissionView::Constant(value),
            None => outcome matches OutcomeView::Failed(detail) && spec_emission(outcome)
                == EmissionView::Diagnostic(detail.message),
        },
{
}

/// Where `fallback` is written, the package version does not stand in,
/// and no repository root is found, the constant that is emitted holds
/// the fallback text exactly as written.
pub proof fn lemma_literal_fallback_is_emitted(
    config: ConfigurationView,
    package_version: Option<Seq<char>>,
    error: DirectoryErrorView,
    text: Seq<char>,
)
    requires
        config.fallback == Some(text),
        spec_usable_version(config, package_version) is None,
    ensures
        spec_emission(spec_resolve(config, package_version, ObservationView::RootMissing(error)))
            == EmissionView::Constant(text),
{
}

/// Two expansions with the same configuration, the same package version
/// and the same answers from outside emit the same constant or the same
/// diagnostic.
pub proof fn lemma_emission_is_repeatable(
    config: ConfigurationView,
    package_version: Option<Seq<char>>,
    observation: ObservationView,
    first: EmissionView,
    second: EmissionView,
)
    requires
        first == spec_emission(spec_resolve(config, package_version, observation)),
        second == spec_emission(spec_resolve(config, package_version, observation)),
    ensures
        first == second,
{
}

} // verus!
