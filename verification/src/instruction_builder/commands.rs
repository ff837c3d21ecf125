//! Builders for the instructions that run a command, in shell form
//! (`command param ...`) and in exec form (`["executable", "param", ...]`).

use vstd::prelude::*;

use crate::error::{missing, missing_field, outcome, text_outcome, BuildError};
use crate::instruction::{CMD, ENTRYPOINT, RUN, SHELL};
use crate::text::{
    exec_array, join, list_after, opt_list, opt_list_after, opt_single, opt_view, opt_views,
    owned, owned_all, push_exec_array, push_join, str_views, views,
};

verus! {

/// Builder for `RUN` in shell form: `RUN <command> && <command> ...`. The
/// commands run one after the other, joined by ` && `.
#[derive(Debug)]
pub struct RunBuilder {
    pub commands: Vec<String>,
}

/// The fields of [`RunBuilder`] as they are being set.
#[derive(Debug)]
pub struct RunBuilderInner {
    pub commands: Vec<String>,
}

impl RunBuilder {
    /// The text after `RUN`: the commands, separated by ` && `.
    pub open spec fn spec_value(&self) -> Result<Seq<char>, BuildError> {
        Ok(join(views(self.commands@), " && "@))
    }

    /// The text after `RUN`.
    pub fn value(&self) -> (r: Result<String, BuildError>)
        ensures
            text_outcome(r) == self.spec_value(),
    {
        let mut s = String::new();
        push_join(&mut s, &self.commands, " && ");
        assert(s@ =~= join(views(self.commands@), " && "@));
        Ok(s)
    }

    /// A builder with no field set.
    pub fn builder() -> (r: RunBuilderInner)
        ensures
            r.commands@.len() == 0,
    {
        RunBuilderInner { commands: Vec::new() }
    }
}

impl RunBuilderInner {
    /// Adds one command after those already set.
    pub fn command(self, command: &str) -> (r: Self)
        ensures
            (r == RunBuilderInner { commands: r.commands, ..self }),
            views(r.commands@) == views(self.commands@).push(command@),
    {
        let ghost before = views(self.commands@);
        let mut items = self.commands;
        items.push(owned(command));
        assert(views(items@) =~= before.push(command@));
        RunBuilderInner { commands: items, ..self }
    }

    /// Sets all the commands at once, replacing those already set.
    pub fn commands(self, commands: Vec<&str>) -> (r: Self)
        ensures
            (r == RunBuilderInner { commands: r.commands, ..self }),
            views(r.commands@) == str_views(commands@),
    {
        RunBuilderInner { commands: owned_all(&commands), ..self }
    }

    /// The fields, once every required one is set.
    pub open spec fn fields(self) -> Option<RunBuilder> {
        Some(RunBuilder { commands: self.commands })
    }

    /// The `RUN` instruction, or why it cannot be built.
    pub fn build(self) -> (r: Result<RUN, BuildError>)
        ensures
            self.fields() matches Some(b) ==> outcome(r, |i: RUN| i.value@) == b.spec_value(),
    {
        let b = RunBuilder { commands: self.commands };
        match b.value() {
            Ok(v) => Ok(RUN { value: v }),
            Err(e) => Err(e),
        }
    }
}

/// Builder for `RUN` in exec form: `RUN ["executable", "param", ...]`.
#[derive(Debug)]
pub struct RunExecBuilder {
    pub executable: String,
    pub params: Option<Vec<String>>,
}

/// The fields of [`RunExecBuilder`] as they are being set.
#[derive(Debug)]
pub struct RunExecBuilderInner {
    pub executable: Option<String>,
    pub params: Option<Vec<String>>,
}

impl RunExecBuilder {
    /// The text after `RUN`: the executable and the parameters in exec form.
    pub open spec fn spec_value(&self) -> Result<Seq<char>, BuildError> {
        Ok(exec_array(seq![self.executable@] + opt_list(self.params)))
    }

    /// The text after `RUN`.
    pub fn value(&self) -> (r: Result<String, BuildError>)
        ensures
            text_outcome(r) == self.spec_value(),
    {
        let items = list_after(&self.executable, &self.params);
        let mut s = String::new();
        push_exec_array(&mut s, &items);
        assert(s@ =~= exec_array(seq![self.executable@] + opt_list(self.params)));
        Ok(s)
    }

    /// A builder with no field set.
    pub fn builder() -> (r: RunExecBuilderInner)
        ensures
            r.executable is None,
            r.params is None,
    {
        RunExecBuilderInner { executable: None, params: None }
    }
}

impl RunExecBuilderInner {
    /// Sets the executable.
    pub fn executable(self, executable: &str) -> (r: Self)
        ensures
            (r == RunExecBuilderInner { executable: r.executable, ..self }),
            opt_view(r.executable) == Some(executable@),
    {
        RunExecBuilderInner { executable: Some(owned(executable)), ..self }
    }

    /// Adds one parameter after those already set.
    pub fn param(self, param: &str) -> (r: Self)
        ensures
            (r == RunExecBuilderInner { params: r.params, ..self }),
            opt_views(r.params) == Some(opt_list(self.params).push(param@)),
    {
        let ghost before = opt_list(self.params);
        let mut items = match self.params {
            Some(v) => v,
            None => Vec::new(),
        };
        assert(views(items@) =~= before);
        items.push(owned(param));
        assert(views(items@) =~= before.push(param@));
        RunExecBuilderInner { params: Some(items), ..self }
    }

    /// Sets all the parameters at once, replacing those already set.
    pub fn params(self, params: Vec<&str>) -> (r: Self)
        ensures
            (r == RunExecBuilderInner { params: r.params, ..self }),
            opt_views(r.params) == Some(str_views(params@)),
    {
        RunExecBuilderInner { params: Some(owned_all(&params)), ..self }
    }

    /// The fields, once every required one is set.
    pub open spec fn fields(self) -> Option<RunExecBuilder> {
        match self.executable {
            Some(executable) => Some(RunExecBuilder { executable, params: self.params }),
            None => None,
        }
    }

    /// The `RUN` instruction, or why it cannot be built.
    pub fn build(self) -> (r: Result<RUN, BuildError>)
        ensures
            self.executable is None ==> missing_field(r, "executable"@),
            self.fields() matches Some(b) ==> outcome(r, |i: RUN| i.value@) == b.spec_value(),
    {
        let executable = match self.executable {
            Some(v) => v,
            None => return Err(missing("executable")),
        };
        let b = RunExecBuilder { executable, params: self.params };
        match b.value() {
            Ok(v) => Ok(RUN { value: v }),
            Err(e) => Err(e),
        }
    }
}

/// Builder for `CMD` in shell form: `CMD <command> <param> ...`.
#[derive(Debug)]
pub struct CmdBuilder {
    pub command: String,
    pub params: Option<Vec<String>>,
}

/// The fields of [`CmdBuilder`] as they are being set.
#[derive(Debug)]
pub struct CmdBuilderInner {
    pub command: Option<String>,
    pub params: Option<Vec<String>>,
}

impl CmdBuilder {
    /// The text after `CMD`: the command and the parameters, separated by spaces.
    pub open spec fn spec_value(&self) -> Result<Seq<char>, BuildError> {
        Ok(join(seq![self.command@] + opt_list(self.params), " "@))
    }

    /// The text after `CMD`.
    pub fn value(&self) -> (r: Result<String, BuildError>)
        ensures
            text_outcome(r) == self.spec_value(),
    {
        let items = list_after(&self.command, &self.params);
        let mut s = String::new();
        push_join(&mut s, &items, " ");
        assert(s@ =~= join(seq![self.command@] + opt_list(self.params), " "@));
        Ok(s)
    }

    /// A builder with no field set.
    pub fn builder() -> (r: CmdBuilderInner)
        ensures
            r.command is None,
            r.params is None,
    {
        CmdBuilderInner { command: None, params: None }
    }
}

impl CmdBuilderInner {
    /// Sets the command.
    pub fn command(self, command: &str) -> (r: Self)
        ensures
            (r == CmdBuilderInner { command: r.command, ..self }),
            opt_view(r.command) == Some(command@),
    {
        CmdBuilderInner { command: Some(owned(command)), ..self }
    }

    /// Adds one parameter after those already set.
    pub fn param(self, param: &str) -> (r: Self)
        ensures
            (r == CmdBuilderInner { params: r.params, ..self }),
            opt_views(r.params) == Some(opt_list(self.params).push(param@)),
    {
        let ghost before = opt_list(self.params);
        let mut items = match self.params {
            Some(v) => v,
            None => Vec::new(),
        };
        assert(views(items@) =~= before);
        items.push(owned(param));
        assert(views(items@) =~= before.push(param@));
        CmdBuilderInner { params: Some(items), ..self }
    }

    /// Sets all the parameters at once, replacing those already set.
    pub fn params(self, params: Vec<&str>) -> (r: Self)
        ensures
            (r == CmdBuilderInner { params: r.params, ..self }),
            opt_views(r.params) == Some(str_views(params@)),
    {
        CmdBuilderInner { params: Some(owned_all(&params)), ..self }
    }

    /// The fields, once every required one is set.
    pub open spec fn fields(self) -> Option<CmdBuilder> {
        match self.command {
            Some(command) => Some(CmdBuilder { command, params: self.params }),
            None => None,
        }
    }

    /// The `CMD` instruction, or why it cannot be built.
    pub fn build(self) -> (r: Result<CMD, BuildError>)
        ensures
            self.command is None ==> missing_field(r, "command"@),
            self.fields() matches Some(b) ==> outcome(r, |i: CMD| i.value@) == b.spec_value(),
    {
        let command = match self.command {
            Some(v) => v,
            None => return Err(missing("command")),
        };
        let b = CmdBuilder { command, params: self.params };
        match b.value() {
            Ok(v) => Ok(CMD { value: v }),
            Err(e) => Err(e),
        }
    }
}

/// Builder for `CMD` in exec form: `CMD ["executable", "param", ...]`, or,
/// without an executable, `CMD ["param", ...]` as default parameters of
/// `ENTRYPOINT`. It needs an executable or at least one parameter.
#[derive(Debug)]
pub struct CmdExecBuilder {
    pub executable: Option<String>,
    pub params: Option<Vec<String>>,
}

/// The fields of [`CmdExecBuilder`] as they are being set.
#[derive(Debug)]
pub struct CmdExecBuilderInner {
    pub executable: Option<String>,
    pub params: Option<Vec<String>>,
}

impl CmdExecBuilder {
    /// The items of the exec form: the executable, if set, then the parameters.
    pub open spec fn items(&self) -> Seq<Seq<char>> {
        opt_single(opt_view(self.executable)) + opt_list(self.params)
    }

    /// The text after `CMD`: the items in exec form; an error when there is no item.
    pub open spec fn spec_value(&self) -> Result<Seq<char>, BuildError> {
        if self.items().len() == 0 {
            Err(BuildError::EmptyCmd)
        } else {
            Ok(exec_array(self.items()))
        }
    }

    /// The text after `CMD`.
    pub fn value(&self) -> (r: Result<String, BuildError>)
        ensures
            text_outcome(r) == self.spec_value(),
    {
        let items = opt_list_after(&self.executable, &self.params);
        if items.len() == 0 {
            return Err(BuildError::EmptyCmd);
        }
        let mut s = String::new();
        push_exec_array(&mut s, &items);
        assert(s@ =~= exec_array(self.items()));
        Ok(s)
    }

    /// A builder with no field set.
    pub fn builder() -> (r: CmdExecBuilderInner)
        ensures
            r.executable is None,
            r.params is None,
    {
        CmdExecBuilderInner { executable: None, params: None }
    }
}

impl CmdExecBuilderInner {
    /// Sets the executable.
    pub fn executable(self, executable: &str) -> (r: Self)
        ensures
            (r == CmdExecBuilderInner { executable: r.executable, ..self }),
            opt_view(r.executable) == Some(executable@),
    {
        CmdExecBuilderInner { executable: Some(owned(executable)), ..self }
    }

    /// Adds one parameter after those already set.
    pub fn param(self, param: &str) -> (r: Self)
        ensures
            (r == CmdExecBuilderInner { params: r.params, ..self }),
            opt_views(r.params) == Some(opt_list(self.params).push(param@)),
    {
        let ghost before = opt_list(self.params);
        let mut items = match self.params {
            Some(v) => v,
            None => Vec::new(),
        };
        assert(views(items@) =~= before);
        items.push(owned(param));
        assert(views(items@) =~= before.push(param@));
        CmdExecBuilderInner { params: Some(items), ..self }
    }

    /// Sets all the parameters at once, replacing those already set.
    pub fn params(self, params: Vec<&str>) -> (r: Self)
        ensures
            (r == CmdExecBuilderInner { params: r.params, ..self }),
            opt_views(r.params) == Some(str_views(params@)),
    {
        CmdExecBuilderInner { params: Some(owned_all(&params)), ..self }
    }

    /// The fields, once every required one is set.
    pub open spec fn fields(self) -> Option<CmdExecBuilder> {
        Some(CmdExecBuilder { executable: self.executable, params: self.params })
    }

    /// The `CMD` instruction, or why it cannot be built.
    pub fn build(self) -> (r: Result<CMD, BuildError>)
        ensures
            self.fields() matches Some(b) ==> outcome(r, |i: CMD| i.value@) == b.spec_value(),
    {
        let b = CmdExecBuilder { executable: self.executable, params: self.params };
        match b.value() {
            Ok(v) => Ok(CMD { value: v }),
            Err(e) => Err(e),
        }
    }
}

/// Builder for `ENTRYPOINT` in shell form: `ENTRYPOINT <command> <param> ...`.
#[derive(Debug)]
pub struct EntrypointBuilder {
    pub command: String,
    pub params: Option<Vec<String>>,
}

/// The fields of [`EntrypointBuilder`] as they are being set.
#[derive(Debug)]
pub struct EntrypointBuilderInner {
    pub command: Option<String>,
    pub params: Option<Vec<String>>,
}

impl EntrypointBuilder {
    /// The text after `ENTRYPOINT`: the command and the parameters, separated by spaces.
    pub open spec fn spec_value(&self) -> Result<Seq<char>, BuildError> {
        Ok(join(seq![self.command@] + opt_list(self.params), " "@))
    }

    /// The text after `ENTRYPOINT`.
    pub fn value(&self) -> (r: Result<String, BuildError>)
        ensures
            text_outcome(r) == self.spec_value(),
    {
        let items = list_after(&self.command, &self.params);
        let mut s = String::new();
        push_join(&mut s, &items, " ");
        assert(s@ =~= join(seq![self.command@] + opt_list(self.params), " "@));
        Ok(s)
    }

    /// A builder with no field set.
    pub fn builder() -> (r: EntrypointBuilderInner)
        ensures
            r.command is None,
            r.params is None,
    {
        EntrypointBuilderInner { command: None, params: None }
    }
}

impl EntrypointBuilderInner {
    /// Sets the command.
    pub fn command(self, command: &str) -> (r: Self)
        ensures
            (r == EntrypointBuilderInner { command: r.command, ..self }),
            opt_view(r.command) == Some(command@),
    {
        EntrypointBuilderInner { command: Some(owned(command)), ..self }
    }

    /// Adds one parameter after those already set.
    pub fn param(self, param: &str) -> (r: Self)
        ensures
            (r == EntrypointBuilderInner { params: r.params, ..self }),
            opt_views(r.params) == Some(opt_list(self.params).push(param@)),
    {
        let ghost before = opt_list(self.params);
        let mut items = match self.params {
            Some(v) => v,
            None => Vec::new(),
        };
        assert(views(items@) =~= before);
        items.push(owned(param));
        assert(views(items@) =~= before.push(param@));
        EntrypointBuilderInner { params: Some(items), ..self }
    }

    /// Sets all the parameters at once, replacing those already set.
    pub fn params(self, params: Vec<&str>) -> (r: Self)
        ensures
            (r == EntrypointBuilderInner { params: r.params, ..self }),
            opt_views(r.params) == Some(str_views(params@)),
    {
        EntrypointBuilderInner { params: Some(owned_all(&params)), ..self }
    }

    /// The fields, once every required one is set.
    pub open spec fn fields(self) -> Option<EntrypointBuilder> {
        match self.command {
            Some(command) => Some(EntrypointBuilder { command, params: self.params }),
            None => None,
        }
    }

    /// The `ENTRYPOINT` instruction, or why it cannot be built.
    pub fn build(self) -> (r: Result<ENTRYPOINT, BuildError>)
        ensures
            self.command is None ==> missing_field(r, "command"@),
            self.fields() matches Some(b) ==> outcome(r, |i: ENTRYPOINT| i.value@) == b.spec_value(),
    {
        let command = match self.command {
            Some(v) => v,
            None => return Err(missing("command")),
        };
        let b = EntrypointBuilder { command, params: self.params };
        match b.value() {
            Ok(v) => Ok(ENTRYPOINT { value: v }),
            Err(e) => Err(e),
        }
    }
}

/// Builder for `ENTRYPOINT` in exec form: `ENTRYPOINT ["executable", "param", ...]`.
#[derive(Debug)]
pub struct EntrypointExecBuilder {
    pub executable: String,
    pub params: Option<Vec<String>>,
}

/// The fields of [`EntrypointExecBuilder`] as they are being set.
#[derive(Debug)]
pub struct EntrypointExecBuilderInner {
    pub executable: Option<String>,
    pub params: Option<Vec<String>>,
}

impl EntrypointExecBuilder {
    /// The text after `ENTRYPOINT`: the executable and the parameters in exec form.
    pub open spec fn spec_value(&self) -> Result<Seq<char>, BuildError> {
        Ok(exec_array(seq![self.executable@] + opt_list(self.params)))
    }

    /// The text after `ENTRYPOINT`.
    pub fn value(&self) -> (r: Result<String, BuildError>)
        ensures
            text_outcome(r) == self.spec_value(),
    {
        let items = list_after(&self.executable, &self.params);
        let mut s = String::new();
        push_exec_array(&mut s, &items);
        assert(s@ =~= exec_array(seq![self.executable@] + opt_list(self.params)));
        Ok(s)
    }

    /// A builder with no field set.
    pub fn builder() -> (r: EntrypointExecBuilderInner)
        ensures
            r.executable is None,
            r.params is None,
    {
        EntrypointExecBuilderInner { executable: None, params: None }
    }
}

impl EntrypointExecBuilderInner {
    /// Sets the executable.
    pub fn executable(self, executable: &str) -> (r: Self)
        ensures
            (r == EntrypointExecBuilderInner { executable: r.executable, ..self }),
            opt_view(r.executable) == Some(executable@),
    {
        EntrypointExecBuilderInner { executable: Some(owned(executable)), ..self }
    }

    /// Adds one parameter after those already set.
    pub fn param(self, param: &str) -> (r: Self)
        ensures
            (r == EntrypointExecBuilderInner { params: r.params, ..self }),
            opt_views(r.params) == Some(opt_list(self.params).push(param@)),
    {
        let ghost before = opt_list(self.params);
        let mut items = match self.params {
            Some(v) => v,
            None => Vec::new(),
        };
        assert(views(items@) =~= before);
        items.push(owned(param));
        assert(views(items@) =~= before.push(param@));
        EntrypointExecBuilderInner { params: Some(items), ..self }
    }

    /// Sets all the parameters at once, replacing those already set.
    pub fn params(self, params: Vec<&str>) -> (r: Self)
        ensures
            (r == EntrypointExecBuilderInner { params: r.params, ..self }),
            opt_views(r.params) == Some(str_views(params@)),
    {
        EntrypointExecBuilderInner { params: Some(owned_all(&params)), ..self }
    }

    /// The fields, once every required one is set.
    pub open spec fn fields(self) -> Option<EntrypointExecBuilder> {
        match self.executable {
            Some(executable) => Some(EntrypointExecBuilder { executable, params: self.params }),
            None => None,
        }
    }

    /// The `ENTRYPOINT` instruction, or why it cannot be built.
    pub fn build(self) -> (r: Result<ENTRYPOINT, BuildError>)
        ensures
            self.executable is None ==> missing_field(r, "executable"@),
            self.fields() matches Some(b) ==> outcome(r, |i: ENTRYPOINT| i.value@) == b.spec_value(),
    {
        let executable = match self.executable {
            Some(v) => v,
            None => return Err(missing("executable")),
        };
        let b = EntrypointExecBuilder { executable, params: self.params };
        match b.value() {
            Ok(v) => Ok(ENTRYPOINT { value: v }),
            Err(e) => Err(e),
        }
    }
}

/// Builder for `SHELL`: `SHELL ["executable", "param", ...]`.
#[derive(Debug)]
pub struct ShellBuilder {
    pub executable: String,
    pub params: Option<Vec<String>>,
}

/// The fields of [`ShellBuilder`] as they are being set.
#[derive(Debug)]
pub struct ShellBuilderInner {
    pub executable: Option<String>,
    pub params: Option<Vec<String>>,
}

impl ShellBuilder {
    /// The text after `SHELL`: the executable and the parameters in exec form.
    pub open spec fn spec_value(&self) -> Result<Seq<char>, BuildError> {
        Ok(exec_array(seq![self.executable@] + opt_list(self.params)))
    }

    /// The text after `SHELL`.
    pub fn value(&self) -> (r: Result<String, BuildError>)
        ensures
            text_outcome(r) == self.spec_value(),
    {
        let items = list_after(&self.executable, &self.params);
        let mut s = String::new();
        push_exec_array(&mut s, &items);
        assert(s@ =~= exec_array(seq![self.executable@] + opt_list(self.params)));
        Ok(s)
    }

    /// A builder with no field set.
    pub fn builder() -> (r: ShellBuilderInner)
        ensures
            r.executable is None,
            r.params is None,
    {
        ShellBuilderInner { executable: None, params: None }
    }
}

impl ShellBuilderInner {
    /// Sets the executable.
    pub fn executable(self, executable: &str) -> (r: Self)
        ensures
            (r == ShellBuilderInner { executable: r.executable, ..self }),
            opt_view(r.executable) == Some(executable@),
    {
        ShellBuilderInner { executable: Some(owned(executable)), ..self }
    }

    /// Adds one parameter after those already set.
    pub fn param(self, param: &str) -> (r: Self)
        ensures
            (r == ShellBuilderInner { params: r.params, ..self }),
            opt_views(r.params) == Some(opt_list(self.params).push(param@)),
    {
        let ghost before = opt_list(self.params);
        let mut items = match self.params {
            Some(v) => v,
            None => Vec::new(),
        };
        assert(views(items@) =~= before);
        items.push(owned(param));
        assert(views(items@) =~= before.push(param@));
        ShellBuilderInner { params: Some(items), ..self }
    }

    /// Sets all the parameters at once, replacing those already set.
    pub fn params(self, params: Vec<&str>) -> (r: Self)
        ensures
            (r == ShellBuilderInner { params: r.params, ..self }),
            opt_views(r.params) == Some(str_views(params@)),
    {
        ShellBuilderInner { params: Some(owned_all(&params)), ..self }
    }

    /// The fields, once every required one is set.
    pub open spec fn fields(self) -> Option<ShellBuilder> {
        match self.executable {
            Some(executable) => Some(ShellBuilder { executable, params: self.params }),
            None => None,
        }
    }

    /// The `SHELL` instruction, or why it cannot be built.
    pub fn build(self) -> (r: Result<SHELL, BuildError>)
        ensures
            self.executable is None ==> missing_field(r, "executable"@),
            self.fields() matches Some(b) ==> outcome(r, |i: SHELL| i.value@) == b.spec_value(),
    {
        let executable = match self.executable {
            Some(v) => v,
            None => return Err(missing("executable")),
        };
        let b = ShellBuilder { executable, params: self.params };
        match b.value() {
            Ok(v) => Ok(SHELL { value: v }),
            Err(e) => Err(e),
        }
    }
}

} // verus!
