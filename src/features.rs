use vstd::prelude::*;

verus! {

/// Which parts of a robot a run sets up: its physical body, its on-screen
/// representation, or both.
#[derive(Debug, Clone, Copy, PartialEq, Eq, Structural)]
pub enum BotFeatures {
    Physics,
    Visualization,
    PhysicsAndVisualization,
}

impl BotFeatures {
    pub fn has_physics(&self) -> (r: bool)
        ensures
            r == !(*self is Visualization),
    {
        match self {
            BotFeatures::Physics => true,
            BotFeatures::Visualization => false,
            BotFeatures::PhysicsAndVisualization => true,
        }
    }

    pub fn has_visualization(&self) -> (r: bool)
        ensures
            r == !(*self is Physics),
    {
        match self {
            BotFeatures::Physics => false,
            BotFeatures::Visualization => true,
            BotFeatures::PhysicsAndVisualization => true,
        }
    }
}

} // verus!
