//! Conformance tests for Cargo registries: what the tests do, and how what came
//! of them is judged.
pub mod cargo_command;
pub mod cargo_laws;
pub mod cargo_toml;
pub mod command;
pub mod conformance_tests;
pub mod crate_laws;
pub mod crates;
pub mod creation;
pub mod definition;
pub mod disk;
pub mod dotcargo_config;
pub mod file_laws;
pub mod harness;
pub mod name_map;
pub mod outcome_laws;
pub mod scenario_run;
pub mod scenarios;
pub mod scratch_path;
pub mod scratch_space;
pub mod script_laws;
pub mod selection;
pub mod steps;
pub mod text;
pub mod title_laws;

pub use cargo_command::{
    CargoCommand, CargoCommandBuilder, EnvValue, PackageAction, PackageError, PackageEvent,
    PackageStage,
};
pub use command::{
    expect_failure, expect_success, CommandError, CommandOutput, Expectation, RawOutput,
};
pub use conformance_tests::ConformanceTest;
pub use crates::Crate;
pub use creation::{CrateCreation, CreateAction, CreateCrateError, CreateEvent, CreatedCrate};
pub use definition::{
    CreatedRegistry, Dependency2, DependencyDefinition, InRegistry, Optional, RegistryDefinition,
    RenamedAs, WithFeature,
};
pub use harness::{
    conclude, Exit, FailureReport, TestAction, TestError, TestEvent, TestOutcome, TestResult,
    TestResultKind, TestStage, CONCURRENT_TESTS,
};
pub use name_map::NameMap;
pub use scenario_run::{ScenarioAction, ScenarioError, ScenarioEvent, ScenarioRun};
pub use scratch_path::ScratchPath;
pub use scratch_space::{
    CacheAction, CacheEvent, CacheScan, DownloadedCratesError, ScratchAction, ScratchSpace,
    ScratchSpaceError, ScratchStage,
};
pub use selection::{plan_tests, select_tests, PlannedTest, SelectionError};
pub use steps::Step;
pub use text::{ascii_uppercase, comes_before, decimal};
