//! Builders for instructions made of a few named parts.

use vstd::prelude::*;

use crate::error::{missing, missing_field, outcome, text_outcome, BuildError};
use crate::instruction::{ARG, ENV, EXPOSE, FROM, LABEL, STOPSIGNAL, USER, WORKDIR};
use crate::text::{
    decimal, opt_part, opt_prefixed, opt_view, owned, push_decimal, push_opt, push_opt_prefixed,
};

verus! {

/// Builder for `FROM`:
/// `FROM [--platform=<platform>] <image>[:<tag>|@<digest>] [AS <name>]`.
/// For example image `cargo-chef`, tag `latest` and name `chef` give
/// `FROM cargo-chef:latest AS chef`.
#[derive(Debug)]
pub struct FromBuilder {
    pub image: String,
    pub name: Option<String>,
    pub tag: Option<String>,
    pub digest: Option<String>,
    pub platform: Option<String>,
}

/// The fields of [`FromBuilder`] as they are being set.
#[derive(Debug)]
pub struct FromBuilderInner {
    pub image: Option<String>,
    pub name: Option<String>,
    pub tag: Option<String>,
    pub digest: Option<String>,
    pub platform: Option<String>,
}

impl FromBuilder {
    /// The text after `FROM`; an image cannot have both a tag and a digest.
    pub open spec fn spec_value(&self) -> Result<Seq<char>, BuildError> {
        if self.tag is Some && self.digest is Some {
            Err(BuildError::TagAndDigest)
        } else {
            Ok(opt_part("--platform="@, opt_view(self.platform), " "@) + self.image@ + opt_prefixed(
                ":"@,
                opt_view(self.tag),
            ) + opt_prefixed("@"@, opt_view(self.digest)) + opt_prefixed(" AS "@, opt_view(self.name)))
        }
    }

    /// The text after `FROM`.
    pub fn value(&self) -> (r: Result<String, BuildError>)
        ensures
            text_outcome(r) == self.spec_value(),
    {
        if self.tag.is_some() && self.digest.is_some() {
            return Err(BuildError::TagAndDigest);
        }
        let mut s = String::new();
        push_opt(&mut s, "--platform=", &self.platform, " ");
        s.append(self.image.as_str());
        push_opt_prefixed(&mut s, ":", &self.tag);
        push_opt_prefixed(&mut s, "@", &self.digest);
        push_opt_prefixed(&mut s, " AS ", &self.name);
        Ok(s)
    }

    /// A builder with no field set.
    pub fn builder() -> (r: FromBuilderInner)
        ensures
            r.image is None,
            r.name is None,
            r.tag is None,
            r.digest is None,
            r.platform is None,
    {
        FromBuilderInner { image: None, name: None, tag: None, digest: None, platform: None }
    }
}

impl FromBuilderInner {
    /// Sets the image.
    pub fn image(self, image: &str) -> (r: Self)
        ensures
            (r == FromBuilderInner { image: r.image, ..self }),
            opt_view(r.image) == Some(image@),
    {
        FromBuilderInner { image: Some(owned(image)), ..self }
    }

    /// Sets the stage name, rendered as ` AS <name>`.
    pub fn name(self, name: &str) -> (r: Self)
        ensures
            (r == FromBuilderInner { name: r.name, ..self }),
            opt_view(r.name) == Some(name@),
    {
        FromBuilderInner { name: Some(owned(name)), ..self }
    }

    /// Sets the tag, rendered as `:<tag>`.
    pub fn tag(self, tag: &str) -> (r: Self)
        ensures
            (r == FromBuilderInner { tag: r.tag, ..self }),
            opt_view(r.tag) == Some(tag@),
    {
        FromBuilderInner { tag: Some(owned(tag)), ..self }
    }

    /// Sets the digest, rendered as `@<digest>`.
    pub fn digest(self, digest: &str) -> (r: Self)
        ensures
            (r == FromBuilderInner { digest: r.digest, ..self }),
            opt_view(r.digest) == Some(digest@),
    {
        FromBuilderInner { digest: Some(owned(digest)), ..self }
    }

    /// Sets the platform, rendered as `--platform=<platform> `.
    pub fn platform(self, platform: &str) -> (r: Self)
        ensures
            (r == FromBuilderInner { platform: r.platform, ..self }),
            opt_view(r.platform) == Some(platform@),
    {
        FromBuilderInner { platform: Some(owned(platform)), ..self }
    }

    /// The fields, once every required one is set.
    pub open spec fn fields(self) -> Option<FromBuilder> {
        match self.image {
            Some(image) => Some(FromBuilder { image, name: self.name, tag: self.tag, digest: self.digest, platform: self.platform }),
            None => None,
        }
    }

    /// The `FROM` instruction, or why it cannot be built.
    pub fn build(self) -> (r: Result<FROM, BuildError>)
        ensures
            self.image is None ==> missing_field(r, "image"@),
            self.fields() matches Some(b) ==> outcome(r, |i: FROM| i.value@) == b.spec_value(),
    {
        let image = match self.image {
            Some(v) => v,
            None => return Err(missing("image")),
        };
        let b = FromBuilder { image, name: self.name, tag: self.tag, digest: self.digest, platform: self.platform };
        match b.value() {
            Ok(v) => Ok(FROM { value: v }),
            Err(e) => Err(e),
        }
    }
}

/// Builder for `ENV`: `ENV <key>="<value>"`. The value is put between double
/// quotes, so that one holding spaces or `|` stays a single value: key `foo`
/// and value `bar` give `ENV foo="bar"`.
#[derive(Debug)]
pub struct EnvBuilder {
    pub key: String,
    pub value: String,
}

/// The fields of [`EnvBuilder`] as they are being set.
#[derive(Debug)]
pub struct EnvBuilderInner {
    pub key: Option<String>,
    pub value: Option<String>,
}

impl EnvBuilder {
    /// The text after `ENV`: the key, `=`, and the value between double quotes.
    pub open spec fn spec_value(&self) -> Result<Seq<char>, BuildError> {
        Ok(self.key@ + "="@ + "\""@ + self.value@ + "\""@)
    }

    /// The text after `ENV`.
    pub fn value(&self) -> (r: Result<String, BuildError>)
        ensures
            text_outcome(r) == self.spec_value(),
    {
        let mut s = self.key.clone();
        s.append("=");
        s.append("\"");
        s.append(self.value.as_str());
        s.append("\"");
        Ok(s)
    }

    /// A builder with no field set.
    pub fn builder() -> (r: EnvBuilderInner)
        ensures
            r.key is None,
            r.value is None,
    {
        EnvBuilderInner { key: None, value: None }
    }
}

impl EnvBuilderInner {
    /// Sets the variable name.
    pub fn key(self, key: &str) -> (r: Self)
        ensures
            (r == EnvBuilderInner { key: r.key, ..self }),
            opt_view(r.key) == Some(key@),
    {
        EnvBuilderInner { key: Some(owned(key)), ..self }
    }

    /// Sets the value.
    pub fn value(self, value: &str) -> (r: Self)
        ensures
            (r == EnvBuilderInner { value: r.value, ..self }),
            opt_view(r.value) == Some(value@),
    {
        EnvBuilderInner { value: Some(owned(value)), ..self }
    }

    /// The fields, once every required one is set.
    pub open spec fn fields(self) -> Option<EnvBuilder> {
        match (self.key, self.value) {
            (Some(key), Some(value)) => Some(EnvBuilder { key, value }),
            _ => None,
        }
    }

    /// The `ENV` instruction, or why it cannot be built.
    pub fn build(self) -> (r: Result<ENV, BuildError>)
        ensures
            self.key is None ==> missing_field(r, "key"@),
            self.key is Some && self.value is None ==> missing_field(r, "value"@),
            self.fields() matches Some(b) ==> outcome(r, |i: ENV| i.value@) == b.spec_value(),
    {
        let key = match self.key {
            Some(v) => v,
            None => return Err(missing("key")),
        };
        let value = match self.value {
            Some(v) => v,
            None => return Err(missing("value")),
        };
        let b = EnvBuilder { key, value };
        match b.value() {
            Ok(v) => Ok(ENV { value: v }),
            Err(e) => Err(e),
        }
    }
}

/// Builder for `LABEL`: `LABEL <key>=<value>`; key `foo` and value `bar`
/// give `LABEL foo=bar`.
#[derive(Debug)]
pub struct LabelBuilder {
    pub key: String,
    pub value: String,
}

/// The fields of [`LabelBuilder`] as they are being set.
#[derive(Debug)]
pub struct LabelBuilderInner {
    pub key: Option<String>,
    pub value: Option<String>,
}

impl LabelBuilder {
    /// The text after `LABEL`: the key, `=`, and the value.
    pub open spec fn spec_value(&self) -> Result<Seq<char>, BuildError> {
        Ok(self.key@ + "="@ + self.value@)
    }

    /// The text after `LABEL`.
    pub fn value(&self) -> (r: Result<String, BuildError>)
        ensures
            text_outcome(r) == self.spec_value(),
    {
        let mut s = self.key.clone();
        s.append("=");
        s.append(self.value.as_str());
        Ok(s)
    }

    /// A builder with no field set.
    pub fn builder() -> (r: LabelBuilderInner)
        ensures
            r.key is None,
            r.value is None,
    {
        LabelBuilderInner { key: None, value: None }
    }
}

impl LabelBuilderInner {
    /// Sets the label key.
    pub fn key(self, key: &str) -> (r: Self)
        ensures
            (r == LabelBuilderInner { key: r.key, ..self }),
            opt_view(r.key) == Some(key@),
    {
        LabelBuilderInner { key: Some(owned(key)), ..self }
    }

    /// Sets the label value.
    pub fn value(self, value: &str) -> (r: Self)
        ensures
            (r == LabelBuilderInner { value: r.value, ..self }),
            opt_view(r.value) == Some(value@),
    {
        LabelBuilderInner { value: Some(owned(value)), ..self }
    }

    /// The fields, once every required one is set.
    pub open spec fn fields(self) -> Option<LabelBuilder> {
        match (self.key, self.value) {
            (Some(key), Some(value)) => Some(LabelBuilder { key, value }),
            _ => None,
        }
    }

    /// The `LABEL` instruction, or why it cannot be built.
    pub fn build(self) -> (r: Result<LABEL, BuildError>)
        ensures
            self.key is None ==> missing_field(r, "key"@),
            self.key is Some && self.value is None ==> missing_field(r, "value"@),
            self.fields() matches Some(b) ==> outcome(r, |i: LABEL| i.value@) == b.spec_value(),
    {
        let key = match self.key {
            Some(v) => v,
            None => return Err(missing("key")),
        };
        let value = match self.value {
            Some(v) => v,
            None => return Err(missing("value")),
        };
        let b = LabelBuilder { key, value };
        match b.value() {
            Ok(v) => Ok(LABEL { value: v }),
            Err(e) => Err(e),
        }
    }
}

/// Builder for `EXPOSE`: `EXPOSE <port>[/<protocol>]`; port 80 and protocol
/// `udp` give `EXPOSE 80/udp`.
#[derive(Debug)]
pub struct ExposeBuilder {
    pub port: u16,
    pub protocol: Option<String>,
}

/// The fields of [`ExposeBuilder`] as they are being set.
#[derive(Debug)]
pub struct ExposeBuilderInner {
    pub port: Option<u16>,
    pub protocol: Option<String>,
}

impl ExposeBuilder {
    /// The text after `EXPOSE`: the port in decimal, then `/<protocol>` if set.
    pub open spec fn spec_value(&self) -> Result<Seq<char>, BuildError> {
        Ok(decimal(self.port as nat) + opt_prefixed("/"@, opt_view(self.protocol)))
    }

    /// The text after `EXPOSE`.
    pub fn value(&self) -> (r: Result<String, BuildError>)
        ensures
            text_outcome(r) == self.spec_value(),
    {
        let mut s = String::new();
        push_decimal(&mut s, self.port as u64);
        push_opt_prefixed(&mut s, "/", &self.protocol);
        assert(s@ =~= decimal(self.port as nat) + opt_prefixed("/"@, opt_view(self.protocol)));
        Ok(s)
    }

    /// A builder with no field set.
    pub fn builder() -> (r: ExposeBuilderInner)
        ensures
            r.port is None,
            r.protocol is None,
    {
        ExposeBuilderInner { port: None, protocol: None }
    }
}

impl ExposeBuilderInner {
    /// Sets the port.
    pub fn port(self, port: u16) -> (r: Self)
        ensures
            (r == ExposeBuilderInner { port: r.port, ..self }),
            r.port == Some(port),
    {
        ExposeBuilderInner { port: Some(port), ..self }
    }

    /// Sets the protocol, rendered as `/<protocol>`.
    pub fn protocol(self, protocol: &str) -> (r: Self)
        ensures
            (r == ExposeBuilderInner { protocol: r.protocol, ..self }),
            opt_view(r.protocol) == Some(protocol@),
    {
        ExposeBuilderInner { protocol: Some(owned(protocol)), ..self }
    }

    /// The fields, once every required one is set.
    pub open spec fn fields(self) -> Option<ExposeBuilder> {
        match self.port {
            Some(port) => Some(ExposeBuilder { port, protocol: self.protocol }),
            None => None,
        }
    }

    /// The `EXPOSE` instruction, or why it cannot be built.
    pub fn build(self) -> (r: Result<EXPOSE, BuildError>)
        ensures
            self.port is None ==> missing_field(r, "port"@),
            self.fields() matches Some(b) ==> outcome(r, |i: EXPOSE| i.value@) == b.spec_value(),
    {
        let port = match self.port {
            Some(v) => v,
            None => return Err(missing("port")),
        };
        let b = ExposeBuilder { port, protocol: self.protocol };
        match b.value() {
            Ok(v) => Ok(EXPOSE { value: v }),
            Err(e) => Err(e),
        }
    }
}

/// Builder for `USER`: `USER <user>[:<group>]`.
#[derive(Debug)]
pub struct UserBuilder {
    pub user: String,
    pub group: Option<String>,
}

/// The fields of [`UserBuilder`] as they are being set.
#[derive(Debug)]
pub struct UserBuilderInner {
    pub user: Option<String>,
    pub group: Option<String>,
}

impl UserBuilder {
    /// The text after `USER`: the user, then `:<group>` if set.
    pub open spec fn spec_value(&self) -> Result<Seq<char>, BuildError> {
        Ok(self.user@ + opt_prefixed(":"@, opt_view(self.group)))
    }

    /// The text after `USER`.
    pub fn value(&self) -> (r: Result<String, BuildError>)
        ensures
            text_outcome(r) == self.spec_value(),
    {
        let mut s = self.user.clone();
        push_opt_prefixed(&mut s, ":", &self.group);
        Ok(s)
    }

    /// A builder with no field set.
    pub fn builder() -> (r: UserBuilderInner)
        ensures
            r.user is None,
            r.group is None,
    {
        UserBuilderInner { user: None, group: None }
    }
}

impl UserBuilderInner {
    /// Sets the user.
    pub fn user(self, user: &str) -> (r: Self)
        ensures
            (r == UserBuilderInner { user: r.user, ..self }),
            opt_view(r.user) == Some(user@),
    {
        UserBuilderInner { user: Some(owned(user)), ..self }
    }

    /// Sets the group, rendered as `:<group>`.
    pub fn group(self, group: &str) -> (r: Self)
        ensures
            (r == UserBuilderInner { group: r.group, ..self }),
            opt_view(r.group) == Some(group@),
    {
        UserBuilderInner { group: Some(owned(group)), ..self }
    }

    /// The fields, once every required one is set.
    pub open spec fn fields(self) -> Option<UserBuilder> {
        match self.user {
            Some(user) => Some(UserBuilder { user, group: self.group }),
            None => None,
        }
    }

    /// The `USER` instruction, or why it cannot be built.
    pub fn build(self) -> (r: Result<USER, BuildError>)
        ensures
            self.user is None ==> missing_field(r, "user"@),
            self.fields() matches Some(b) ==> outcome(r, |i: USER| i.value@) == b.spec_value(),
    {
        let user = match self.user {
            Some(v) => v,
            None => return Err(missing("user")),
        };
        let b = UserBuilder { user, group: self.group };
        match b.value() {
            Ok(v) => Ok(USER { value: v }),
            Err(e) => Err(e),
        }
    }
}

/// Builder for `WORKDIR`: `WORKDIR <path>`.
#[derive(Debug)]
pub struct WorkdirBuilder {
    pub path: String,
}

/// The fields of [`WorkdirBuilder`] as they are being set.
#[derive(Debug)]
pub struct WorkdirBuilderInner {
    pub path: Option<String>,
}

impl WorkdirBuilder {
    /// The text after `WORKDIR`: the path.
    pub open spec fn spec_value(&self) -> Result<Seq<char>, BuildError> {
        Ok(self.path@)
    }

    /// The text after `WORKDIR`.
    pub fn value(&self) -> (r: Result<String, BuildError>)
        ensures
            text_outcome(r) == self.spec_value(),
    {
        Ok(self.path.clone())
    }

    /// A builder with no field set.
    pub fn builder() -> (r: WorkdirBuilderInner)
        ensures
            r.path is None,
    {
        WorkdirBuilderInner { path: None }
    }
}

impl WorkdirBuilderInner {
    /// Sets the working directory.
    pub fn path(self, path: &str) -> (r: Self)
        ensures
            (r == WorkdirBuilderInner { path: r.path, ..self }),
            opt_view(r.path) == Some(path@),
    {
        WorkdirBuilderInner { path: Some(owned(path)), ..self }
    }

    /// The fields, once every required one is set.
    pub open spec fn fields(self) -> Option<WorkdirBuilder> {
        match self.path {
            Some(path) => Some(WorkdirBuilder { path }),
            None => None,
        }
    }

    /// The `WORKDIR` instruction, or why it cannot be built.
    pub fn build(self) -> (r: Result<WORKDIR, BuildError>)
        ensures
            self.path is None ==> missing_field(r, "path"@),
            self.fields() matches Some(b) ==> outcome(r, |i: WORKDIR| i.value@) == b.spec_value(),
    {
        let path = match self.path {
            Some(v) => v,
            None => return Err(missing("path")),
        };
        let b = WorkdirBuilder { path };
        match b.value() {
            Ok(v) => Ok(WORKDIR { value: v }),
            Err(e) => Err(e),
        }
    }
}

/// Builder for `ARG`: `ARG <name>[="<value>"]`; the default value, if any,
/// is put between double quotes.
#[derive(Debug)]
pub struct ArgBuilder {
    pub name: String,
    pub value: Option<String>,
}

/// The fields of [`ArgBuilder`] as they are being set.
#[derive(Debug)]
pub struct ArgBuilderInner {
    pub name: Option<String>,
    pub value: Option<String>,
}

impl ArgBuilder {
    /// The text after `ARG`: the name, then `="<value>"` if a value is set.
    pub open spec fn spec_value(&self) -> Result<Seq<char>, BuildError> {
        Ok(self.name@ + opt_part("=\""@, opt_view(self.value), "\""@))
    }

    /// The text after `ARG`.
    pub fn value(&self) -> (r: Result<String, BuildError>)
        ensures
            text_outcome(r) == self.spec_value(),
    {
        let mut s = self.name.clone();
        push_opt(&mut s, "=\"", &self.value, "\"");
        Ok(s)
    }

    /// A builder with no field set.
    pub fn builder() -> (r: ArgBuilderInner)
        ensures
            r.name is None,
            r.value is None,
    {
        ArgBuilderInner { name: None, value: None }
    }
}

impl ArgBuilderInner {
    /// Sets the argument name.
    pub fn name(self, name: &str) -> (r: Self)
        ensures
            (r == ArgBuilderInner { name: r.name, ..self }),
            opt_view(r.name) == Some(name@),
    {
        ArgBuilderInner { name: Some(owned(name)), ..self }
    }

    /// Sets the default value.
    pub fn value(self, value: &str) -> (r: Self)
        ensures
            (r == ArgBuilderInner { value: r.value, ..self }),
            opt_view(r.value) == Some(value@),
    {
        ArgBuilderInner { value: Some(owned(value)), ..self }
    }

    /// The fields, once every required one is set.
    pub open spec fn fields(self) -> Option<ArgBuilder> {
        match self.name {
            Some(name) => Some(ArgBuilder { name, value: self.value }),
            None => None,
        }
    }

    /// The `ARG` instruction, or why it cannot be built.
    pub fn build(self) -> (r: Result<ARG, BuildError>)
        ensures
            self.name is None ==> missing_field(r, "name"@),
            self.fields() matches Some(b) ==> outcome(r, |i: ARG| i.value@) == b.spec_value(),
    {
        let name = match self.name {
            Some(v) => v,
            None => return Err(missing("name")),
        };
        let b = ArgBuilder { name, value: self.value };
        match b.value() {
            Ok(v) => Ok(ARG { value: v }),
            Err(e) => Err(e),
        }
    }
}

/// Builder for `STOPSIGNAL`: `STOPSIGNAL <signal>`.
#[derive(Debug)]
pub struct StopsignalBuilder {
    pub signal: String,
}

/// The fields of [`StopsignalBuilder`] as they are being set.
#[derive(Debug)]
pub struct StopsignalBuilderInner {
    pub signal: Option<String>,
}

impl StopsignalBuilder {
    /// The text after `STOPSIGNAL`: the signal.
    pub open spec fn spec_value(&self) -> Result<Seq<char>, BuildError> {
        Ok(self.signal@)
    }

    /// The text after `STOPSIGNAL`.
    pub fn value(&self) -> (r: Result<String, BuildError>)
        ensures
            text_outcome(r) == self.spec_value(),
    {
        Ok(self.signal.clone())
    }

    /// A builder with no field set.
    pub fn builder() -> (r: StopsignalBuilderInner)
        ensures
            r.signal is None,
    {
        StopsignalBuilderInner { signal: None }
    }
}

impl StopsignalBuilderInner {
    /// Sets the signal.
    pub fn signal(self, signal: &str) -> (r: Self)
        ensures
            (r == StopsignalBuilderInner { signal: r.signal, ..self }),
            opt_view(r.signal) == Some(signal@),
    {
        StopsignalBuilderInner { signal: Some(owned(signal)), ..self }
    }

    /// The fields, once every required one is set.
    pub open spec fn fields(self) -> Option<StopsignalBuilder> {
        match self.signal {
            Some(signal) => Some(StopsignalBuilder { signal }),
            None => None,
        }
    }

    /// The `STOPSIGNAL` instruction, or why it cannot be built.
    pub fn build(self) -> (r: Result<STOPSIGNAL, BuildError>)
        ensures
            self.signal is None ==> missing_field(r, "signal"@),
            self.fields() matches Some(b) ==> outcome(r, |i: STOPSIGNAL| i.value@) == b.spec_value(),
    {
        let signal = match self.signal {
            Some(v) => v,
            None => return Err(missing("signal")),
        };
        let b = StopsignalBuilder { signal };
        match b.value() {
            Ok(v) => Ok(STOPSIGNAL { value: v }),
            Err(e) => Err(e),
        }
    }
}

} // verus!
