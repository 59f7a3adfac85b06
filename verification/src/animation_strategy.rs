//! Animation strategies and the style hints they resolve to.
//!
//! A strategy picks one technique for stretching a leg and one for pushing
//! the items behind the cursor. Each technique yields a base hint, which is
//! always applied, and an active hint, which is applied while the flag it
//! belongs to is set.

use vstd::prelude::*;
use vstd::string::StringExecFns;

verus! {

/// The vocabulary of visual techniques.
#[derive(Clone, Copy, Debug, PartialEq, Eq, Structural)]
pub enum Css {
    Off,
    Keyframes,
    Transform,
    Transition,
}

pub type Push = Css;

pub type Stretch = Css;

/// The strategies a user can select.
#[derive(Clone, Copy, Debug, PartialEq, Eq, Structural)]
pub enum Strategy {
    Off,
    Transform,
    Transition,
    ScaleAndSlide,
}

/// The base hint of a stretch technique.
pub open spec fn stretch_base(css: Css) -> Seq<char> {
    match css {
        Css::Off => ""@,
        Css::Keyframes => ""@,
        Css::Transform => " stretch-transform-base"@,
        Css::Transition => " stretch-transition-base"@,
    }
}

/// The hint of a stretch technique that applies while a leg is stretched.
pub open spec fn stretch_active(css: Css) -> Seq<char> {
    match css {
        Css::Off => ""@,
        Css::Keyframes => " stretch-keyframes"@,
        Css::Transform => " stretch-transform"@,
        Css::Transition => " stretch-transition"@,
    }
}

/// The base hint of a push technique.
pub open spec fn push_base(css: Css) -> Seq<char> {
    match css {
        Css::Off => ""@,
        Css::Keyframes => ""@,
        Css::Transform => " push-transform-base"@,
        Css::Transition => " push-transition-base"@,
    }
}

/// The hint of a push technique that applies while an item is pushed.
pub open spec fn push_active(css: Css) -> Seq<char> {
    match css {
        Css::Off => ""@,
        Css::Keyframes => " push-keyframes"@,
        Css::Transform => " push-transform"@,
        Css::Transition => " push-transition"@,
    }
}

impl Strategy {
    /// The stretch technique and the push technique of a strategy.
    pub open spec fn techniques(self) -> (Stretch, Push) {
        match self {
            Strategy::Off => (Css::Off, Css::Off),
            Strategy::Transform => (Css::Transform, Css::Off),
            Strategy::Transition => (Css::Transition, Css::Off),
            Strategy::ScaleAndSlide => (Css::Keyframes, Css::Keyframes),
        }
    }

    /// Splits a strategy into its stretch technique and its push technique.
    pub fn parts(&self) -> (techniques: (Stretch, Push))
        ensures
            techniques == self.techniques(),
    {
        match self {
            Self::Off => (Stretch::Off, Push::Off),
            Self::Transform => (Stretch::Transform, Push::Off),
            Self::ScaleAndSlide => (Stretch::Keyframes, Push::Keyframes),
            Self::Transition => (Stretch::Transition, Push::Off),
        }
    }
}

impl Stretch {
    /// The base hint and the stretched hint of this technique.
    pub fn stretch_classes(&self) -> (classes: (String, String))
        ensures
            classes.0@ == stretch_base(*self),
            classes.1@ == stretch_active(*self),
    {
        let vals = match self {
            Self::Off => ("", ""),
            Self::Keyframes => ("", " stretch-keyframes"),
            Self::Transform => (" stretch-transform-base", " stretch-transform"),
            Self::Transition => (" stretch-transition-base", " stretch-transition"),
        };
        (String::from_str(vals.0), String::from_str(vals.1))
    }
}

impl Push {
    /// The base hint and the pushed hint of this technique.
    pub fn push_classes(&self) -> (classes: (String, String))
        ensures
            classes.0@ == push_base(*self),
            classes.1@ == push_active(*self),
    {
        let vals = match self {
            Self::Off => ("", ""),
            Self::Keyframes => ("", " push-keyframes"),
            Self::Transform => (" push-transform-base", " push-transform"),
            Self::Transition => (" push-transition-base", " push-transition"),
        };
        (String::from_str(vals.0), String::from_str(vals.1))
    }
}

/// The three hint strings of a strategy: the base hint, the hint of a
/// stretched leg and the hint of a pushed leg.
pub open spec fn classes_of(strategy: Strategy) -> (Seq<char>, Seq<char>, Seq<char>) {
    let (stretch, push) = strategy.techniques();
    (
        push_base(push) + stretch_base(stretch),
        push_base(push) + stretch_active(stretch),
        stretch_base(stretch) + push_active(push),
    )
}

/// Resolves a strategy to its base, stretched and pushed hints. The result
/// is a function of the strategy alone.
pub fn get_classes(strategy: Strategy) -> (classes: (String, String, String))
    ensures
        classes.0@ == classes_of(strategy).0,
        classes.1@ == classes_of(strategy).1,
        classes.2@ == classes_of(strategy).2,
{
    let (stretch_approach, push_approach) = strategy.parts();
    let (no_stretch, stretch) = stretch_approach.stretch_classes();
    let (no_push, push) = push_approach.push_classes();
    (
        no_push.clone().concat(no_stretch.as_str()),
        no_push.concat(stretch.as_str()),
        no_stretch.concat(push.as_str()),
    )
}

} // verus!
