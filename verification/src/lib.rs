//! Scenario plans, acceptance rules and the idle brain of the sandbox rover.
//!
//! The library describes each scenario as plain values (a [`plan::ScenarioPlan`])
//! and decides, from the plain facts of a finished run (a [`run::ScenarioRun`]),
//! whether the scenario accepts it. Handing a plan to the simulator and reading
//! a run back are left to the program around the library.

pub mod brain;
pub mod payload;
pub mod plan;
pub mod port;
pub mod run;
pub mod scenarios;
