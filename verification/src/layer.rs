//! Configuration precedence layers and their order.

use vstd::prelude::*;
use core::cmp::Ordering;

verus! {

/// Identifies which precedence layer a config fragment came from.
/// Later layers override earlier ones: Default < Global < Project < Environment < Cli.
#[derive(Debug, Clone, Copy, PartialEq, Eq, Structural)]
pub enum ConfigLayer {
    Default,
    Global,
    Project,
    Environment,
    Cli,
}

/// Position of a layer in the precedence order.
pub open spec fn layer_rank(l: ConfigLayer) -> nat {
    match l {
        ConfigLayer::Default => 0,
        ConfigLayer::Global => 1,
        ConfigLayer::Project => 2,
        ConfigLayer::Environment => 3,
        ConfigLayer::Cli => 4,
    }
}

impl ConfigLayer {
    /// Position of the layer in the precedence order.
    pub fn rank(&self) -> (r: u8)
        ensures
            r == layer_rank(*self),
    {
        match self {
            ConfigLayer::Default => 0,
            ConfigLayer::Global => 1,
            ConfigLayer::Project => 2,
            ConfigLayer::Environment => 3,
            ConfigLayer::Cli => 4,
        }
    }
}

/// Comparison of two layers by precedence.
pub open spec fn layer_order(a: ConfigLayer, b: ConfigLayer) -> Option<Ordering> {
    if layer_rank(a) < layer_rank(b) {
        Some(Ordering::Less)
    } else if layer_rank(a) == layer_rank(b) {
        Some(Ordering::Equal)
    } else {
        Some(Ordering::Greater)
    }
}

impl PartialOrd for ConfigLayer {
    fn partial_cmp(&self, other: &ConfigLayer) -> (r: Option<Ordering>) {
        let a = self.rank();
        let b = other.rank();
        if a < b {
            Some(Ordering::Less)
        } else if a == b {
            Some(Ordering::Equal)
        } else {
            Some(Ordering::Greater)
        }
    }
}

impl vstd::std_specs::cmp::PartialOrdSpecImpl for ConfigLayer {
    open spec fn obeys_partial_cmp_spec() -> bool {
        true
    }

    open spec fn partial_cmp_spec(&self, other: &ConfigLayer) -> Option<Ordering> {
        layer_order(*self, *other)
    }
}

/// Earlier layers precede later ones: the documented precedence is a strict
/// total order, Default < Global < Project < Environment < Cli.
pub proof fn law_layer_precedence()
    ensures
        layer_rank(ConfigLayer::Default) < layer_rank(ConfigLayer::Global),
        layer_rank(ConfigLayer::Global) < layer_rank(ConfigLayer::Project),
        layer_rank(ConfigLayer::Project) < layer_rank(ConfigLayer::Environment),
        layer_rank(ConfigLayer::Environment) < layer_rank(ConfigLayer::Cli),
        forall|a: ConfigLayer, b: ConfigLayer| layer_rank(a) == layer_rank(b) ==> a == b,
{
}

} // verus!
