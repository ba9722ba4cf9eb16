//! Graph layout engines the renderer can be asked to use.

use vstd::prelude::*;

verus! {

/// A layout algorithm of the external renderer.
///
/// The order of the variants is the order in which the engines are offered
/// in the engine selector, so each engine also has a stable index.
#[derive(Debug, Clone, Copy, PartialEq, Eq, Structural)]
pub enum LayoutEngine {
    Dot,
    Circo,
    Fdp,
    Sfdp,
    Neato,
    Osage,
    Patchwork,
    Twopi,
}

impl LayoutEngine {
    /// The engine's name as the external renderer expects it.
    pub fn as_raw(&self) -> (r: &'static str)
        ensures
            self is Dot ==> r@ == "dot"@,
            self is Circo ==> r@ == "circo"@,
            self is Fdp ==> r@ == "fdp"@,
            self is Sfdp ==> r@ == "sfdp"@,
            self is Neato ==> r@ == "neato"@,
            self is Osage ==> r@ == "osage"@,
            self is Patchwork ==> r@ == "patchwork"@,
            self is Twopi ==> r@ == "twopi"@,
    {
        match self {
            Self::Dot => "dot",
            Self::Circo => "circo",
            Self::Fdp => "fdp",
            Self::Sfdp => "sfdp",
            Self::Neato => "neato",
            Self::Osage => "osage",
            Self::Patchwork => "patchwork",
            Self::Twopi => "twopi",
        }
    }

    /// The engine's position in the selector.
    pub fn index(&self) -> (r: u32)
        ensures
            r == self.spec_index(),
    {
        match self {
            Self::Dot => 0,
            Self::Circo => 1,
            Self::Fdp => 2,
            Self::Sfdp => 3,
            Self::Neato => 4,
            Self::Osage => 5,
            Self::Patchwork => 6,
            Self::Twopi => 7,
        }
    }

    /// The engine at the given selector position, if any.
    pub fn from_index(index: u32) -> (r: Option<LayoutEngine>)
        ensures
            index <= 7 ==> (r matches Some(e) && e.spec_index() == index),
            index > 7 ==> r is None,
    {
        match index {
            0 => Some(Self::Dot),
            1 => Some(Self::Circo),
            2 => Some(Self::Fdp),
            3 => Some(Self::Sfdp),
            4 => Some(Self::Neato),
            5 => Some(Self::Osage),
            6 => Some(Self::Patchwork),
            7 => Some(Self::Twopi),
            _ => None,
        }
    }

    /// The selector position of each engine.
    pub open spec fn spec_index(&self) -> u32 {
        match self {
            Self::Dot => 0,
            Self::Circo => 1,
            Self::Fdp => 2,
            Self::Sfdp => 3,
            Self::Neato => 4,
            Self::Osage => 5,
            Self::Patchwork => 6,
            Self::Twopi => 7,
        }
    }
}

} // verus!
