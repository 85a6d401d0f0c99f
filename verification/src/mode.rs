//! Build configuration and the failure that a violated claim produces.
//!
//! A reachability claim is enforced in one of three ways, chosen before any
//! code is generated: a diagnostic panic when the point is reached, a link
//! failure when the call survives optimization, or no detection at all.

use vstd::prelude::*;

verus! {

/// The two switches that a build is made with.
#[derive(Clone, Copy, Debug, PartialEq, Eq, Structural)]
pub struct BuildConfig {
    /// Debug assertions are compiled in.
    pub debug_assertions: bool,
    /// Link-time enforcement was opted into. Meant for final binaries only.
    pub static_mode: bool,
}

/// What a pair of switches resolves to.
#[derive(Clone, Copy, Debug, PartialEq, Eq, Structural)]
pub enum BuildMode {
    /// Debug assertions on, with or without static mode.
    DebugChecked,
    /// Debug assertions off, static mode off.
    ReleaseChecked,
    /// Debug assertions off, static mode on.
    ReleaseStatic,
}

/// The three ways in which a broken claim shows.
#[derive(Clone, Copy, Debug, PartialEq, Eq, Structural)]
pub enum Failure {
    /// The running program aborts the current execution with a report.
    DiagnosticPanic,
    /// The call to the reserved undefined symbol is left unresolved, and no
    /// artifact is produced.
    LinkFailure,
    /// Nothing detects it; the program has no defined meaning.
    UndefinedBehavior,
}

impl BuildConfig {
    /// Debug assertions take precedence over static mode.
    pub open spec fn spec_mode(self) -> BuildMode {
        if self.debug_assertions {
            BuildMode::DebugChecked
        } else if self.static_mode {
            BuildMode::ReleaseStatic
        } else {
            BuildMode::ReleaseChecked
        }
    }

    pub fn new(debug_assertions: bool, static_mode: bool) -> (config: BuildConfig)
        ensures
            config.debug_assertions == debug_assertions,
            config.static_mode == static_mode,
    {
        BuildConfig { debug_assertions, static_mode }
    }

    /// Resolves the switches to a build mode.
    #[verifier::when_used_as_spec(spec_mode)]
    pub fn mode(self) -> (mode: BuildMode)
        ensures
            mode == self.spec_mode(),
    {
        if self.debug_assertions {
            BuildMode::DebugChecked
        } else if self.static_mode {
            BuildMode::ReleaseStatic
        } else {
            BuildMode::ReleaseChecked
        }
    }
}

impl BuildMode {
    /// Only a release build with static mode on enforces at link time.
    pub open spec fn spec_static_assertion(self) -> Failure {
        match self {
            BuildMode::ReleaseStatic => Failure::LinkFailure,
            _ => Failure::DiagnosticPanic,
        }
    }

    /// The forced form does not look at the mode.
    pub open spec fn spec_forced_static_assertion(self) -> Failure {
        Failure::LinkFailure
    }

    /// Checked in debug builds, a bare optimizer hint otherwise.
    pub open spec fn spec_unchecked_hint(self) -> Failure {
        match self {
            BuildMode::DebugChecked => Failure::DiagnosticPanic,
            _ => Failure::UndefinedBehavior,
        }
    }

    /// How a broken static reachability assertion shows in this mode.
    #[verifier::when_used_as_spec(spec_static_assertion)]
    pub fn static_assertion(self) -> (failure: Failure)
        ensures
            failure == self.spec_static_assertion(),
    {
        match self {
            BuildMode::ReleaseStatic => Failure::LinkFailure,
            BuildMode::DebugChecked | BuildMode::ReleaseChecked => Failure::DiagnosticPanic,
        }
    }

    /// How a broken forced static reachability assertion shows in this mode.
    #[verifier::when_used_as_spec(spec_forced_static_assertion)]
    pub fn forced_static_assertion(self) -> (failure: Failure)
        ensures
            failure == self.spec_forced_static_assertion(),
    {
        Failure::LinkFailure
    }

    /// How a broken unchecked reachability hint shows in this mode.
    #[verifier::when_used_as_spec(spec_unchecked_hint)]
    pub fn unchecked_hint(self) -> (failure: Failure)
        ensures
            failure == self.spec_unchecked_hint(),
    {
        match self {
            BuildMode::DebugChecked => Failure::DiagnosticPanic,
            BuildMode::ReleaseChecked | BuildMode::ReleaseStatic => Failure::UndefinedBehavior,
        }
    }
}

/// With debug assertions on, a broken static assertion and a broken unchecked
/// hint are both diagnostic panics, whatever the static-mode switch says.
pub proof fn debug_builds_panic(config: BuildConfig)
    requires
        config.debug_assertions,
    ensures
        config.mode().static_assertion() == Failure::DiagnosticPanic,
        config.mode().unchecked_hint() == Failure::DiagnosticPanic,
{
}

/// A static assertion is enforced at link time exactly when static mode is on
/// and debug assertions are off; in every other build it is a diagnostic panic.
pub proof fn static_assertion_links_or_panics(config: BuildConfig)
    ensures
        config.static_mode && !config.debug_assertions
            <==> config.mode().static_assertion() == Failure::LinkFailure,
        !config.static_mode || config.debug_assertions
            <==> config.mode().static_assertion() == Failure::DiagnosticPanic,
{
}

/// The forced form is enforced at link time under every pair of switches, so
/// also with static mode off and debug assertions off.
pub proof fn forced_form_always_links(config: BuildConfig)
    ensures
        config.mode().forced_static_assertion() == Failure::LinkFailure,
{
}

/// An unchecked hint is never enforced at link time, and it is undefined
/// behaviour exactly when debug assertions are off.
pub proof fn unchecked_hint_is_unchecked_in_release(config: BuildConfig)
    ensures
        config.mode().unchecked_hint() != Failure::LinkFailure,
        !config.debug_assertions
            <==> config.mode().unchecked_hint() == Failure::UndefinedBehavior,
{
}

} // verus!
