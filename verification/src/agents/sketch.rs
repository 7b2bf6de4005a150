//! The sketch agent and its processing engine.

use crate::text_map::TextMap;
use vstd::prelude::*;

verus! {

/// The engine that reads sketches: the vision models it has loaded, each
/// under its name.
#[derive(Clone, Debug)]
pub struct SketchProcessingEngine {
    pub cv_models: TextMap,
}

#[derive(Clone, Debug)]
pub struct SketchAgent {
    pub processing_engine: SketchProcessingEngine,
}

impl SketchProcessingEngine {
    /// An engine without models.
    pub fn new() -> (engine: SketchProcessingEngine)
        ensures
            engine.cv_models@ == Map::<Seq<char>, Seq<char>>::empty(),
    {
        SketchProcessingEngine { cv_models: TextMap::new() }
    }
}

impl SketchAgent {
    /// An agent with a fresh engine.
    pub fn new() -> (agent: SketchAgent)
        ensures
            agent.processing_engine.cv_models@ == Map::<Seq<char>, Seq<char>>::empty(),
    {
        SketchAgent { processing_engine: SketchProcessingEngine::new() }
    }

    /// The name under which the agent is registered and addressed.
    pub fn id(&self) -> (id: &'static str)
        ensures
            id@ == "sketch-agent"@,
    {
        "sketch-agent"
    }

    /// The content types that the agent says it can handle.
    pub fn capabilities(&self) -> (list: Vec<String>)
        ensures
            list@.len() == 5,
            list@[0]@ == "sketch-analysis"@,
            list@[1]@ == "floor-plan-extraction"@,
            list@[2]@ == "3d-modeling"@,
            list@[3]@ == "gla-calculation"@,
            list@[4]@ == "room-schedule-generation"@,
    {
        let mut list: Vec<String> = Vec::new();
        list.push("sketch-analysis".to_owned());
        list.push("floor-plan-extraction".to_owned());
        list.push("3d-modeling".to_owned());
        list.push("gla-calculation".to_owned());
        list.push("room-schedule-generation".to_owned());
        list
    }
}

} // verus!
