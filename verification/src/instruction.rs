//! Dockerfile instructions: a keyword and the text that follows it.

use vstd::prelude::*;

verus! {
/// The `FROM` instruction; `value` is the text after the keyword.
#[allow(non_camel_case_types)]
#[derive(Debug)]
pub struct FROM {
    pub value: String,
}

impl FROM {
    /// The line this instruction renders to.
    pub open spec fn rendered(self) -> Seq<char> {
        "FROM "@ + self.value@
    }

    /// The instruction with the given text after the keyword.
    pub fn from(value: &str) -> (r: Self)
        ensures
            r.value@ == value@,
    {
        FROM { value: value.to_owned() }
    }

    /// The line this instruction renders to.
    pub fn to_string(&self) -> (r: String)
        ensures
            r@ == self.rendered(),
    {
        let mut r = "FROM ".to_owned();
        r.append(self.value.as_str());
        r
    }
}
/// The `ENV` instruction; `value` is the text after the keyword.
#[allow(non_camel_case_types)]
#[derive(Debug)]
pub struct ENV {
    pub value: String,
}

impl ENV {
    /// The line this instruction renders to.
    pub open spec fn rendered(self) -> Seq<char> {
        "ENV "@ + self.value@
    }

    /// The instruction with the given text after the keyword.
    pub fn from(value: &str) -> (r: Self)
        ensures
            r.value@ == value@,
    {
        ENV { value: value.to_owned() }
    }

    /// The line this instruction renders to.
    pub fn to_string(&self) -> (r: String)
        ensures
            r@ == self.rendered(),
    {
        let mut r = "ENV ".to_owned();
        r.append(self.value.as_str());
        r
    }
}
/// The `RUN` instruction; `value` is the text after the keyword.
#[allow(non_camel_case_types)]
#[derive(Debug)]
pub struct RUN {
    pub value: String,
}

impl RUN {
    /// The line this instruction renders to.
    pub open spec fn rendered(self) -> Seq<char> {
        "RUN "@ + self.value@
    }

    /// The instruction with the given text after the keyword.
    pub fn from(value: &str) -> (r: Self)
        ensures
            r.value@ == value@,
    {
        RUN { value: value.to_owned() }
    }

    /// The line this instruction renders to.
    pub fn to_string(&self) -> (r: String)
        ensures
            r@ == self.rendered(),
    {
        let mut r = "RUN ".to_owned();
        r.append(self.value.as_str());
        r
    }
}
/// The `CMD` instruction; `value` is the text after the keyword.
#[allow(non_camel_case_types)]
#[derive(Debug)]
pub struct CMD {
    pub value: String,
}

impl CMD {
    /// The line this instruction renders to.
    pub open spec fn rendered(self) -> Seq<char> {
        "CMD "@ + self.value@
    }

    /// The instruction with the given text after the keyword.
    pub fn from(value: &str) -> (r: Self)
        ensures
            r.value@ == value@,
    {
        CMD { value: value.to_owned() }
    }

    /// The line this instruction renders to.
    pub fn to_string(&self) -> (r: String)
        ensures
            r@ == self.rendered(),
    {
        let mut r = "CMD ".to_owned();
        r.append(self.value.as_str());
        r
    }
}
/// The `LABEL` instruction; `value` is the text after the keyword.
#[allow(non_camel_case_types)]
#[derive(Debug)]
pub struct LABEL {
    pub value: String,
}

impl LABEL {
    /// The line this instruction renders to.
    pub open spec fn rendered(self) -> Seq<char> {
        "LABEL "@ + self.value@
    }

    /// The instruction with the given text after the keyword.
    pub fn from(value: &str) -> (r: Self)
        ensures
            r.value@ == value@,
    {
        LABEL { value: value.to_owned() }
    }

    /// The line this instruction renders to.
    pub fn to_string(&self) -> (r: String)
        ensures
            r@ == self.rendered(),
    {
        let mut r = "LABEL ".to_owned();
        r.append(self.value.as_str());
        r
    }
}
/// The `EXPOSE` instruction; `value` is the text after the keyword.
#[allow(non_camel_case_types)]
#[derive(Debug)]
pub struct EXPOSE {
    pub value: String,
}

impl EXPOSE {
    /// The line this instruction renders to.
    pub open spec fn rendered(self) -> Seq<char> {
        "EXPOSE "@ + self.value@
    }

    /// The instruction with the given text after the keyword.
    pub fn from(value: &str) -> (r: Self)
        ensures
            r.value@ == value@,
    {
        EXPOSE { value: value.to_owned() }
    }

    /// The line this instruction renders to.
    pub fn to_string(&self) -> (r: String)
        ensures
            r@ == self.rendered(),
    {
        let mut r = "EXPOSE ".to_owned();
        r.append(self.value.as_str());
        r
    }
}
/// The `ADD` instruction; `value` is the text after the keyword.
#[allow(non_camel_case_types)]
#[derive(Debug)]
pub struct ADD {
    pub value: String,
}

impl ADD {
    /// The line this instruction renders to.
    pub open spec fn rendered(self) -> Seq<char> {
        "ADD "@ + self.value@
    }

    /// The instruction with the given text after the keyword.
    pub fn from(value: &str) -> (r: Self)
        ensures
            r.value@ == value@,
    {
        ADD { value: value.to_owned() }
    }

    /// The line this instruction renders to.
    pub fn to_string(&self) -> (r: String)
        ensures
            r@ == self.rendered(),
    {
        let mut r = "ADD ".to_owned();
        r.append(self.value.as_str());
        r
    }
}
/// The `COPY` instruction; `value` is the text after the keyword.
#[allow(non_camel_case_types)]
#[derive(Debug)]
pub struct COPY {
    pub value: String,
}

impl COPY {
    /// The line this instruction renders to.
    pub open spec fn rendered(self) -> Seq<char> {
        "COPY "@ + self.value@
    }

    /// The instruction with the given text after the keyword.
    pub fn from(value: &str) -> (r: Self)
        ensures
            r.value@ == value@,
    {
        COPY { value: value.to_owned() }
    }

    /// The line this instruction renders to.
    pub fn to_string(&self) -> (r: String)
        ensures
            r@ == self.rendered(),
    {
        let mut r = "COPY ".to_owned();
        r.append(self.value.as_str());
        r
    }
}
/// The `ENTRYPOINT` instruction; `value` is the text after the keyword.
#[allow(non_camel_case_types)]
#[derive(Debug)]
pub struct ENTRYPOINT {
    pub value: String,
}

impl ENTRYPOINT {
    /// The line this instruction renders to.
    pub open spec fn rendered(self) -> Seq<char> {
        "ENTRYPOINT "@ + self.value@
    }

    /// The instruction with the given text after the keyword.
    pub fn from(value: &str) -> (r: Self)
        ensures
            r.value@ == value@,
    {
        ENTRYPOINT { value: value.to_owned() }
    }

    /// The line this instruction renders to.
    pub fn to_string(&self) -> (r: String)
        ensures
            r@ == self.rendered(),
    {
        let mut r = "ENTRYPOINT ".to_owned();
        r.append(self.value.as_str());
        r
    }
}
/// The `VOLUME` instruction; `value` is the text after the keyword.
#[allow(non_camel_case_types)]
#[derive(Debug)]
pub struct VOLUME {
    pub value: String,
}

impl VOLUME {
    /// The line this instruction renders to.
    pub open spec fn rendered(self) -> Seq<char> {
        "VOLUME "@ + self.value@
    }

    /// The instruction with the given text after the keyword.
    pub fn from(value: &str) -> (r: Self)
        ensures
            r.value@ == value@,
    {
        VOLUME { value: value.to_owned() }
    }

    /// The line this instruction renders to.
    pub fn to_string(&self) -> (r: String)
        ensures
            r@ == self.rendered(),
    {
        let mut r = "VOLUME ".to_owned();
        r.append(self.value.as_str());
        r
    }
}
/// The `USER` instruction; `value` is the text after the keyword.
#[allow(non_camel_case_types)]
#[derive(Debug)]
pub struct USER {
    pub value: String,
}

impl USER {
    /// The line this instruction renders to.
    pub open spec fn rendered(self) -> Seq<char> {
        "USER "@ + self.value@
    }

    /// The instruction with the given text after the keyword.
    pub fn from(value: &str) -> (r: Self)
        ensures
            r.value@ == value@,
    {
        USER { value: value.to_owned() }
    }

    /// The line this instruction renders to.
    pub fn to_string(&self) -> (r: String)
        ensures
            r@ == self.rendered(),
    {
        let mut r = "USER ".to_owned();
        r.append(self.value.as_str());
        r
    }
}
/// The `WORKDIR` instruction; `value` is the text after the keyword.
#[allow(non_camel_case_types)]
#[derive(Debug)]
pub struct WORKDIR {
    pub value: String,
}

impl WORKDIR {
    /// The line this instruction renders to.
    pub open spec fn rendered(self) -> Seq<char> {
        "WORKDIR "@ + self.value@
    }

    /// The instruction with the given text after the keyword.
    pub fn from(value: &str) -> (r: Self)
        ensures
            r.value@ == value@,
    {
        WORKDIR { value: value.to_owned() }
    }

    /// The line this instruction renders to.
    pub fn to_string(&self) -> (r: String)
        ensures
            r@ == self.rendered(),
    {
        let mut r = "WORKDIR ".to_owned();
        r.append(self.value.as_str());
        r
    }
}
/// The `ARG` instruction; `value` is the text after the keyword.
#[allow(non_camel_case_types)]
#[derive(Debug)]
pub struct ARG {
    pub value: String,
}

impl ARG {
    /// The line this instruction renders to.
    pub open spec fn rendered(self) -> Seq<char> {
        "ARG "@ + self.value@
    }

    /// The instruction with the given text after the keyword.
    pub fn from(value: &str) -> (r: Self)
        ensures
            r.value@ == value@,
    {
        ARG { value: value.to_owned() }
    }

    /// The line this instruction renders to.
    pub fn to_string(&self) -> (r: String)
        ensures
            r@ == self.rendered(),
    {
        let mut r = "ARG ".to_owned();
        r.append(self.value.as_str());
        r
    }
}
/// The `ONBUILD` instruction; `value` is the text after the keyword.
#[allow(non_camel_case_types)]
#[derive(Debug)]
pub struct ONBUILD {
    pub value: String,
}

impl ONBUILD {
    /// The line this instruction renders to.
    pub open spec fn rendered(self) -> Seq<char> {
        "ONBUILD "@ + self.value@
    }

    /// The instruction with the given text after the keyword.
    pub fn from(value: &str) -> (r: Self)
        ensures
            r.value@ == value@,
    {
        ONBUILD { value: value.to_owned() }
    }

    /// The line this instruction renders to.
    pub fn to_string(&self) -> (r: String)
        ensures
            r@ == self.rendered(),
    {
        let mut r = "ONBUILD ".to_owned();
        r.append(self.value.as_str());
        r
    }
}
/// The `STOPSIGNAL` instruction; `value` is the text after the keyword.
#[allow(non_camel_case_types)]
#[derive(Debug)]
pub struct STOPSIGNAL {
    pub value: String,
}

impl STOPSIGNAL {
    /// The line this instruction renders to.
    pub open spec fn rendered(self) -> Seq<char> {
        "STOPSIGNAL "@ + self.value@
    }

    /// The instruction with the given text after the keyword.
    pub fn from(value: &str) -> (r: Self)
        ensures
            r.value@ == value@,
    {
        STOPSIGNAL { value: value.to_owned() }
    }

    /// The line this instruction renders to.
    pub fn to_string(&self) -> (r: String)
        ensures
            r@ == self.rendered(),
    {
        let mut r = "STOPSIGNAL ".to_owned();
        r.append(self.value.as_str());
        r
    }
}
/// The `HEALTHCHECK` instruction; `value` is the text after the keyword.
#[allow(non_camel_case_types)]
#[derive(Debug)]
pub struct HEALTHCHECK {
    pub value: String,
}

impl HEALTHCHECK {
    /// The line this instruction renders to.
    pub open spec fn rendered(self) -> Seq<char> {
        "HEALTHCHECK "@ + self.value@
    }

    /// The instruction with the given text after the keyword.
    pub fn from(value: &str) -> (r: Self)
        ensures
            r.value@ == value@,
    {
        HEALTHCHECK { value: value.to_owned() }
    }

    /// The line this instruction renders to.
    pub fn to_string(&self) -> (r: String)
        ensures
            r@ == self.rendered(),
    {
        let mut r = "HEALTHCHECK ".to_owned();
        r.append(self.value.as_str());
        r
    }
}
/// The `SHELL` instruction; `value` is the text after the keyword.
#[allow(non_camel_case_types)]
#[derive(Debug)]
pub struct SHELL {
    pub value: String,
}

impl SHELL {
    /// The line this instruction renders to.
    pub open spec fn rendered(self) -> Seq<char> {
        "SHELL "@ + self.value@
    }

    /// The instruction with the given text after the keyword.
    pub fn from(value: &str) -> (r: Self)
        ensures
            r.value@ == value@,
    {
        SHELL { value: value.to_owned() }
    }

    /// The line this instruction renders to.
    pub fn to_string(&self) -> (r: String)
        ensures
            r@ == self.rendered(),
    {
        let mut r = "SHELL ".to_owned();
        r.append(self.value.as_str());
        r
    }
}
/// Any Dockerfile instruction.
#[allow(non_camel_case_types)]
#[derive(Debug)]
pub enum Instruction {
    FROM(FROM),
    ENV(ENV),
    RUN(RUN),
    CMD(CMD),
    LABEL(LABEL),
    EXPOSE(EXPOSE),
    ADD(ADD),
    COPY(COPY),
    ENTRYPOINT(ENTRYPOINT),
    VOLUME(VOLUME),
    USER(USER),
    WORKDIR(WORKDIR),
    ARG(ARG),
    ONBUILD(ONBUILD),
    STOPSIGNAL(STOPSIGNAL),
    HEALTHCHECK(HEALTHCHECK),
    SHELL(SHELL),
}

impl Instruction {
    /// The line this instruction renders to.
    pub open spec fn rendered(self) -> Seq<char> {
        match self {
            Instruction::FROM(i) => i.rendered(),
            Instruction::ENV(i) => i.rendered(),
            Instruction::RUN(i) => i.rendered(),
            Instruction::CMD(i) => i.rendered(),
            Instruction::LABEL(i) => i.rendered(),
            Instruction::EXPOSE(i) => i.rendered(),
            Instruction::ADD(i) => i.rendered(),
            Instruction::COPY(i) => i.rendered(),
            Instruction::ENTRYPOINT(i) => i.rendered(),
            Instruction::VOLUME(i) => i.rendered(),
            Instruction::USER(i) => i.rendered(),
            Instruction::WORKDIR(i) => i.rendered(),
            Instruction::ARG(i) => i.rendered(),
            Instruction::ONBUILD(i) => i.rendered(),
            Instruction::STOPSIGNAL(i) => i.rendered(),
            Instruction::HEALTHCHECK(i) => i.rendered(),
            Instruction::SHELL(i) => i.rendered(),
        }
    }

    /// The line this instruction renders to.
    pub fn to_string(&self) -> (r: String)
        ensures
            r@ == self.rendered(),
    {
        match self {
            Instruction::FROM(i) => i.to_string(),
            Instruction::ENV(i) => i.to_string(),
            Instruction::RUN(i) => i.to_string(),
            Instruction::CMD(i) => i.to_string(),
            Instruction::LABEL(i) => i.to_string(),
            Instruction::EXPOSE(i) => i.to_string(),
            Instruction::ADD(i) => i.to_string(),
            Instruction::COPY(i) => i.to_string(),
            Instruction::ENTRYPOINT(i) => i.to_string(),
            Instruction::VOLUME(i) => i.to_string(),
            Instruction::USER(i) => i.to_string(),
            Instruction::WORKDIR(i) => i.to_string(),
            Instruction::ARG(i) => i.to_string(),
            Instruction::ONBUILD(i) => i.to_string(),
            Instruction::STOPSIGNAL(i) => i.to_string(),
            Instruction::HEALTHCHECK(i) => i.to_string(),
            Instruction::SHELL(i) => i.to_string(),
        }
    }
}

} // verus!
