//! Builders that assemble each instruction from its parts and check the
//! combinations that Dockerfile rejects.

mod base;
mod commands;
mod files;
mod triggers;

pub use self::base::{
    ArgBuilder, ArgBuilderInner, EnvBuilder, EnvBuilderInner, ExposeBuilder, ExposeBuilderInner,
    FromBuilder, FromBuilderInner, LabelBuilder, LabelBuilderInner, StopsignalBuilder,
    StopsignalBuilderInner, UserBuilder, UserBuilderInner, WorkdirBuilder, WorkdirBuilderInner,
};
pub use self::commands::{
    CmdBuilder, CmdBuilderInner, CmdExecBuilder, CmdExecBuilderInner, EntrypointBuilder,
    EntrypointBuilderInner, EntrypointExecBuilder, EntrypointExecBuilderInner, RunBuilder,
    RunBuilderInner, RunExecBuilder, RunExecBuilderInner, ShellBuilder, ShellBuilderInner,
};
pub use self::files::{
    AddBuilder, AddBuilderInner, AddGitBuilder, AddGitBuilderInner, AddHttpBuilder,
    AddHttpBuilderInner, CopyBuilder, CopyBuilderInner, VolumeBuilder, VolumeBuilderInner,
};
pub use self::triggers::{
    HealthcheckBuilder, HealthcheckBuilderInner, OnbuildBuilder, OnbuildBuilderInner,
};
