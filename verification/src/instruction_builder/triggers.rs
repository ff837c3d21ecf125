//! Builders for the instructions that wrap another one: `ONBUILD` and
//! `HEALTHCHECK`.

use std::time::Duration;
use vstd::prelude::*;

use crate::duration::{duration_secs, whole_secs};
use crate::error::{missing, missing_field, outcome, text_outcome, BuildError};
use crate::instruction::{Instruction, CMD, HEALTHCHECK, ONBUILD};
use crate::text::{opt_decimal_part, opt_nat, opt_signed_part, owned, push_opt_decimal, push_opt_signed};

verus! {

/// Builder for `ONBUILD`: `ONBUILD <instruction>`. The triggered instruction
/// may be neither `ONBUILD` nor `FROM`.
#[derive(Debug)]
pub struct OnbuildBuilder {
    pub instruction: Instruction,
}

/// The fields of [`OnbuildBuilder`] as they are being set.
#[derive(Debug)]
pub struct OnbuildBuilderInner {
    pub instruction: Option<Instruction>,
}

impl OnbuildBuilder {
    /// The text after `ONBUILD`: the line of the triggered instruction; an
    /// error when that instruction is `ONBUILD` or `FROM`.
    pub open spec fn spec_value(&self) -> Result<Seq<char>, BuildError> {
        match self.instruction {
            Instruction::ONBUILD(_) => Err(BuildError::ChainedOnbuild),
            Instruction::FROM(_) => Err(BuildError::OnbuildFrom),
            i => Ok(i.rendered()),
        }
    }

    /// The text after `ONBUILD`.
    pub fn value(&self) -> (r: Result<String, BuildError>)
        ensures
            text_outcome(r) == self.spec_value(),
    {
        match &self.instruction {
            Instruction::ONBUILD(_) => Err(BuildError::ChainedOnbuild),
            Instruction::FROM(_) => Err(BuildError::OnbuildFrom),
            i => Ok(i.to_string()),
        }
    }

    /// A builder with no field set.
    pub fn builder() -> (r: OnbuildBuilderInner)
        ensures
            r.instruction is None,
    {
        OnbuildBuilderInner { instruction: None }
    }
}

impl OnbuildBuilderInner {
    /// Sets the instruction to trigger.
    pub fn instruction(self, instruction: Instruction) -> (r: Self)
        ensures
            (r == OnbuildBuilderInner { instruction: r.instruction, ..self }),
            r.instruction == Some(instruction),
    {
        OnbuildBuilderInner { instruction: Some(instruction), ..self }
    }

    /// The fields, once every required one is set.
    pub open spec fn fields(self) -> Option<OnbuildBuilder> {
        match self.instruction {
            Some(instruction) => Some(OnbuildBuilder { instruction }),
            None => None,
        }
    }

    /// The `ONBUILD` instruction, or why it cannot be built.
    pub fn build(self) -> (r: Result<ONBUILD, BuildError>)
        ensures
            self.instruction is None ==> missing_field(r, "instruction"@),
            self.fields() matches Some(b) ==> outcome(r, |i: ONBUILD| i.value@) == b.spec_value(),
    {
        let instruction = match self.instruction {
            Some(v) => v,
            None => return Err(missing("instruction")),
        };
        let b = OnbuildBuilder { instruction };
        match b.value() {
            Ok(v) => Ok(ONBUILD { value: v }),
            Err(e) => Err(e),
        }
    }
}

/// Builder for `HEALTHCHECK`:
/// `HEALTHCHECK [--interal=<secs>] [--timeout=<secs>] [--start-period=<secs>]
/// [--start-interval=<secs>] [--retries=<n>] CMD <command>`, or
/// `HEALTHCHECK NONE` when no command is set. Durations are rendered in
/// whole seconds.
#[derive(Debug)]
pub struct HealthcheckBuilder {
    pub cmd: Option<CMD>,
    pub interval: Option<u64>,
    pub timeout: Option<u64>,
    pub start_period: Option<u64>,
    pub start_interval: Option<u64>,
    pub retries: Option<i32>,
}

/// The fields of [`HealthcheckBuilder`] as they are being set.
#[derive(Debug)]
pub struct HealthcheckBuilderInner {
    pub cmd: Option<CMD>,
    pub interval: Option<u64>,
    pub timeout: Option<u64>,
    pub start_period: Option<u64>,
    pub start_interval: Option<u64>,
    pub retries: Option<i32>,
}

impl HealthcheckBuilder {
    /// The text after `HEALTHCHECK`: `NONE` without a command; otherwise the
    /// options that are set, each followed by a space, then the command's line.
    pub open spec fn spec_value(&self) -> Result<Seq<char>, BuildError> {
        match self.cmd {
            None => Ok("NONE"@),
            Some(c) => Ok(opt_decimal_part("--interal="@, opt_nat(self.interval), " "@)
                + opt_decimal_part("--timeout="@, opt_nat(self.timeout), " "@) + opt_decimal_part(
                "--start-period="@,
                opt_nat(self.start_period),
                " "@,
            ) + opt_decimal_part("--start-interval="@, opt_nat(self.start_interval), " "@)
                + opt_signed_part("--retries="@, self.retries, " "@) + c.rendered()),
        }
    }

    /// The text after `HEALTHCHECK`.
    pub fn value(&self) -> (r: Result<String, BuildError>)
        ensures
            text_outcome(r) == self.spec_value(),
    {
        match &self.cmd {
            None => Ok(owned("NONE")),
            Some(c) => {
                let mut s = String::new();
                push_opt_decimal(&mut s, "--interal=", self.interval, " ");
                push_opt_decimal(&mut s, "--timeout=", self.timeout, " ");
                push_opt_decimal(&mut s, "--start-period=", self.start_period, " ");
                push_opt_decimal(&mut s, "--start-interval=", self.start_interval, " ");
                push_opt_signed(&mut s, "--retries=", self.retries, " ");
                let line = c.to_string();
                s.append(line.as_str());
                Ok(s)
            },
        }
    }

    /// `HEALTHCHECK NONE`, which turns off any check inherited from the base image.
    pub fn set_none() -> (r: Result<HEALTHCHECK, BuildError>)
        ensures
            outcome(r, |i: HEALTHCHECK| i.value@) == Ok::<Seq<char>, BuildError>("NONE"@),
    {
        HealthcheckBuilder::builder().build()
    }

    /// A builder with no field set.
    pub fn builder() -> (r: HealthcheckBuilderInner)
        ensures
            r.cmd is None,
            r.interval is None,
            r.timeout is None,
            r.start_period is None,
            r.start_interval is None,
            r.retries is None,
    {
        HealthcheckBuilderInner { cmd: None, interval: None, timeout: None, start_period: None, start_interval: None, retries: None }
    }
}

impl HealthcheckBuilderInner {
    /// Sets the check command.
    pub fn cmd(self, cmd: CMD) -> (r: Self)
        ensures
            (r == HealthcheckBuilderInner { cmd: r.cmd, ..self }),
            r.cmd == Some(cmd),
    {
        HealthcheckBuilderInner { cmd: Some(cmd), ..self }
    }

    /// Sets the interval between checks.
    pub fn interval(self, interval: Duration) -> (r: Self)
        ensures
            (r == HealthcheckBuilderInner { interval: r.interval, ..self }),
            r.interval == Some(duration_secs(interval)),
    {
        HealthcheckBuilderInner { interval: Some(whole_secs(interval)), ..self }
    }

    /// Sets how long one check may take.
    pub fn timeout(self, timeout: Duration) -> (r: Self)
        ensures
            (r == HealthcheckBuilderInner { timeout: r.timeout, ..self }),
            r.timeout == Some(duration_secs(timeout)),
    {
        HealthcheckBuilderInner { timeout: Some(whole_secs(timeout)), ..self }
    }

    /// Sets the start period.
    pub fn start_period(self, start_period: Duration) -> (r: Self)
        ensures
            (r == HealthcheckBuilderInner { start_period: r.start_period, ..self }),
            r.start_period == Some(duration_secs(start_period)),
    {
        HealthcheckBuilderInner { start_period: Some(whole_secs(start_period)), ..self }
    }

    /// Sets the interval between checks during the start period.
    pub fn start_interval(self, start_interval: Duration) -> (r: Self)
        ensures
            (r == HealthcheckBuilderInner { start_interval: r.start_interval, ..self }),
            r.start_interval == Some(duration_secs(start_interval)),
    {
        HealthcheckBuilderInner { start_interval: Some(whole_secs(start_interval)), ..self }
    }

    /// Sets how many failures in a row mark the container unhealthy.
    pub fn retries(self, retries: i32) -> (r: Self)
        ensures
            (r == HealthcheckBuilderInner { retries: r.retries, ..self }),
            r.retries == Some(retries),
    {
        HealthcheckBuilderInner { retries: Some(retries), ..self }
    }

    /// The fields, once every required one is set.
    pub open spec fn fields(self) -> Option<HealthcheckBuilder> {
        Some(HealthcheckBuilder { cmd: self.cmd, interval: self.interval, timeout: self.timeout, start_period: self.start_period, start_interval: self.start_interval, retries: self.retries })
    }

    /// The `HEALTHCHECK` instruction, or why it cannot be built.
    pub fn build(self) -> (r: Result<HEALTHCHECK, BuildError>)
        ensures
            self.fields() matches Some(b) ==> outcome(r, |i: HEALTHCHECK| i.value@) == b.spec_value(),
    {
        let b = HealthcheckBuilder { cmd: self.cmd, interval: self.interval, timeout: self.timeout, start_period: self.start_period, start_interval: self.start_interval, retries: self.retries };
        match b.value() {
            Ok(v) => Ok(HEALTHCHECK { value: v }),
            Err(e) => Err(e),
        }
    }
}

} // verus!
