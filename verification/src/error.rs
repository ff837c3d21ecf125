//! Why an instruction could not be built.

use vstd::prelude::*;

verus! {

/// Why an instruction could not be built.
#[derive(Debug)]
pub enum BuildError {
    /// A field that the instruction needs was never set; it holds the field's name.
    MissingField(String),
    /// `FROM` was given both a tag and a digest.
    TagAndDigest,
    /// `CMD` in exec form was given neither an executable nor a parameter.
    EmptyCmd,
    /// `ONBUILD` was asked to trigger another `ONBUILD`.
    ChainedOnbuild,
    /// `ONBUILD` was asked to trigger `FROM`.
    OnbuildFrom,
    /// A source that must be a URL does not parse as one.
    InvalidUrl,
}

impl BuildError {
    /// The message that describes the error.
    pub open spec fn message(&self) -> Seq<char> {
        match self {
            BuildError::MissingField(field) => "missing field: "@ + field@,
            BuildError::TagAndDigest => "Dockerfile image can only have tag OR digest"@,
            BuildError::EmptyCmd => "CMD cannot be empty"@,
            BuildError::ChainedOnbuild => "Chaining ONBUILD instructions using ONBUILD ONBUILD isn’t allowed"@,
            BuildError::OnbuildFrom => "ONBUILD instruction may not trigger FROM instruction"@,
            BuildError::InvalidUrl => "source is not a valid URL"@,
        }
    }

    /// The message that describes the error.
    pub fn to_string(&self) -> (r: String)
        ensures
            r@ == self.message(),
    {
        match self {
            BuildError::MissingField(field) => {
                let mut r = "missing field: ".to_owned();
                r.append(field.as_str());
                r
            },
            BuildError::TagAndDigest => "Dockerfile image can only have tag OR digest".to_owned(),
            BuildError::EmptyCmd => "CMD cannot be empty".to_owned(),
            BuildError::ChainedOnbuild => "Chaining ONBUILD instructions using ONBUILD ONBUILD isn’t allowed".to_owned(),
            BuildError::OnbuildFrom => "ONBUILD instruction may not trigger FROM instruction".to_owned(),
            BuildError::InvalidUrl => "source is not a valid URL".to_owned(),
        }
    }
}

/// The text of a successful result, or its error.
pub open spec fn outcome<T>(r: Result<T, BuildError>, text: spec_fn(T) -> Seq<char>) -> Result<
    Seq<char>,
    BuildError,
> {
    match r {
        Ok(t) => Ok(text(t)),
        Err(e) => Err(e),
    }
}

/// The text of a successful result of rendering, or its error.
pub open spec fn text_outcome(r: Result<String, BuildError>) -> Result<Seq<char>, BuildError> {
    outcome(r, |s: String| s@)
}

/// Whether `r` failed because the field `name` was never set.
pub open spec fn missing_field<T>(r: Result<T, BuildError>, name: Seq<char>) -> bool {
    r matches Err(BuildError::MissingField(f)) && f@ == name
}

/// The error for a required field that was never set.
pub fn missing(field: &str) -> (r: BuildError)
    ensures
        r matches BuildError::MissingField(f) && f@ == field@,
{
    BuildError::MissingField(field.to_owned())
}

} // verus!
