//! Builders for the instructions that bring files into the image.

use vstd::prelude::*;

use crate::error::{missing, missing_field, outcome, text_outcome, BuildError};
use crate::instruction::{ADD, COPY, VOLUME};
use crate::text::{
    join, opt_bool_part, opt_decimal_part, opt_nat16, opt_part, opt_view, owned, owned_all,
    push_join, push_opt, push_opt_bool, push_opt_decimal16, str_views, views,
};
use crate::url_check::{is_url, parses_as_url};

verus! {

/// Builder for `ADD`:
/// `ADD [--chown=<chown>] [--chmod=<chmod>] <src>... <dest>`; for example
/// `ADD --chown=myuser:mygroup --chmod=655 hom* /mydir/`.
#[derive(Debug)]
pub struct AddBuilder {
    pub sources: Vec<String>,
    pub dest: String,
    pub chown: Option<String>,
    pub chmod: Option<u16>,
}

/// The fields of [`AddBuilder`] as they are being set.
#[derive(Debug)]
pub struct AddBuilderInner {
    pub sources: Vec<String>,
    pub dest: Option<String>,
    pub chown: Option<String>,
    pub chmod: Option<u16>,
}

impl AddBuilder {
    /// The text after `ADD`: the flags that are set, the sources separated by
    /// spaces, a space and the destination.
    pub open spec fn spec_value(&self) -> Result<Seq<char>, BuildError> {
        Ok(opt_part("--chown="@, opt_view(self.chown), " "@) + opt_decimal_part(
            "--chmod="@,
            opt_nat16(self.chmod),
            " "@,
        ) + join(views(self.sources@), " "@) + " "@ + self.dest@)
    }

    /// The text after `ADD`.
    pub fn value(&self) -> (r: Result<String, BuildError>)
        ensures
            text_outcome(r) == self.spec_value(),
    {
        let mut s = String::new();
        push_opt(&mut s, "--chown=", &self.chown, " ");
        push_opt_decimal16(&mut s, "--chmod=", self.chmod, " ");
        push_join(&mut s, &self.sources, " ");
        s.append(" ");
        s.append(self.dest.as_str());
        Ok(s)
    }

    /// A builder with no field set.
    pub fn builder() -> (r: AddBuilderInner)
        ensures
            r.sources@.len() == 0,
            r.dest is None,
            r.chown is None,
            r.chmod is None,
    {
        AddBuilderInner { sources: Vec::new(), dest: None, chown: None, chmod: None }
    }
}

impl AddBuilderInner {
    /// Adds one source after those already set.
    pub fn src(self, src: &str) -> (r: Self)
        ensures
            (r == AddBuilderInner { sources: r.sources, ..self }),
            views(r.sources@) == views(self.sources@).push(src@),
    {
        let ghost before = views(self.sources@);
        let mut items = self.sources;
        items.push(owned(src));
        assert(views(items@) =~= before.push(src@));
        AddBuilderInner { sources: items, ..self }
    }

    /// Sets all the sources at once, replacing those already set.
    pub fn sources(self, sources: Vec<&str>) -> (r: Self)
        ensures
            (r == AddBuilderInner { sources: r.sources, ..self }),
            views(r.sources@) == str_views(sources@),
    {
        AddBuilderInner { sources: owned_all(&sources), ..self }
    }

    /// Sets the destination.
    pub fn dest(self, dest: &str) -> (r: Self)
        ensures
            (r == AddBuilderInner { dest: r.dest, ..self }),
            opt_view(r.dest) == Some(dest@),
    {
        AddBuilderInner { dest: Some(owned(dest)), ..self }
    }

    /// Sets the owner, rendered as `--chown=<chown> `.
    pub fn chown(self, chown: &str) -> (r: Self)
        ensures
            (r == AddBuilderInner { chown: r.chown, ..self }),
            opt_view(r.chown) == Some(chown@),
    {
        AddBuilderInner { chown: Some(owned(chown)), ..self }
    }

    /// Sets the mode, rendered as `--chmod=<chmod> `.
    pub fn chmod(self, chmod: u16) -> (r: Self)
        ensures
            (r == AddBuilderInner { chmod: r.chmod, ..self }),
            r.chmod == Some(chmod),
    {
        AddBuilderInner { chmod: Some(chmod), ..self }
    }

    /// The fields, once every required one is set.
    pub open spec fn fields(self) -> Option<AddBuilder> {
        match self.dest {
            Some(dest) => Some(AddBuilder { sources: self.sources, dest, chown: self.chown, chmod: self.chmod }),
            None => None,
        }
    }

    /// The `ADD` instruction, or why it cannot be built.
    pub fn build(self) -> (r: Result<ADD, BuildError>)
        ensures
            self.dest is None ==> missing_field(r, "dest"@),
            self.fields() matches Some(b) ==> outcome(r, |i: ADD| i.value@) == b.spec_value(),
    {
        let dest = match self.dest {
            Some(v) => v,
            None => return Err(missing("dest")),
        };
        let b = AddBuilder { sources: self.sources, dest, chown: self.chown, chmod: self.chmod };
        match b.value() {
            Ok(v) => Ok(ADD { value: v }),
            Err(e) => Err(e),
        }
    }
}

/// Builder for `ADD` from a remote URL:
/// `ADD [--checksum=<checksum>] <src> <dest>`. The source must parse as an
/// absolute URL.
#[derive(Debug)]
pub struct AddHttpBuilder {
    pub src: String,
    pub dest: String,
    pub checksum: Option<String>,
}

/// The fields of [`AddHttpBuilder`] as they are being set.
#[derive(Debug)]
pub struct AddHttpBuilderInner {
    pub src: Option<String>,
    pub dest: Option<String>,
    pub checksum: Option<String>,
}

impl AddHttpBuilder {
    /// The text after `ADD`, given whether the source parses as a URL.
    pub open spec fn spec_value_given(&self, src_is_url: bool) -> Result<Seq<char>, BuildError> {
        if !src_is_url {
            Err(BuildError::InvalidUrl)
        } else {
            Ok(opt_part("--checksum="@, opt_view(self.checksum), " "@) + self.src@ + " "@ + self.dest@)
        }
    }

    /// The text after `ADD`; an error when the source is not a URL.
    pub open spec fn spec_value(&self) -> Result<Seq<char>, BuildError> {
        self.spec_value_given(parses_as_url(self.src@))
    }

    /// The text after `ADD`, given whether the source parses as a URL.
    pub fn value_given(&self, src_is_url: bool) -> (r: Result<String, BuildError>)
        ensures
            text_outcome(r) == self.spec_value_given(src_is_url),
    {
        if !src_is_url {
            return Err(BuildError::InvalidUrl);
        }
        let mut s = String::new();
        push_opt(&mut s, "--checksum=", &self.checksum, " ");
        s.append(self.src.as_str());
        s.append(" ");
        s.append(self.dest.as_str());
        Ok(s)
    }

    /// The text after `ADD`.
    pub fn value(&self) -> (r: Result<String, BuildError>)
        ensures
            text_outcome(r) == self.spec_value(),
    {
        let src_is_url = is_url(self.src.as_str());
        self.value_given(src_is_url)
    }

    /// A builder with no field set.
    pub fn builder() -> (r: AddHttpBuilderInner)
        ensures
            r.src is None,
            r.dest is None,
            r.checksum is None,
    {
        AddHttpBuilderInner { src: None, dest: None, checksum: None }
    }
}

impl AddHttpBuilderInner {
    /// Sets the source URL.
    pub fn src(self, src: &str) -> (r: Self)
        ensures
            (r == AddHttpBuilderInner { src: r.src, ..self }),
            opt_view(r.src) == Some(src@),
    {
        AddHttpBuilderInner { src: Some(owned(src)), ..self }
    }

    /// Sets the destination.
    pub fn dest(self, dest: &str) -> (r: Self)
        ensures
            (r == AddHttpBuilderInner { dest: r.dest, ..self }),
            opt_view(r.dest) == Some(dest@),
    {
        AddHttpBuilderInner { dest: Some(owned(dest)), ..self }
    }

    /// Sets the checksum, rendered as `--checksum=<checksum> `.
    pub fn checksum(self, checksum: &str) -> (r: Self)
        ensures
            (r == AddHttpBuilderInner { checksum: r.checksum, ..self }),
            opt_view(r.checksum) == Some(checksum@),
    {
        AddHttpBuilderInner { checksum: Some(owned(checksum)), ..self }
    }

    /// The fields, once every required one is set.
    pub open spec fn fields(self) -> Option<AddHttpBuilder> {
        match (self.src, self.dest) {
            (Some(src), Some(dest)) => Some(AddHttpBuilder { src, dest, checksum: self.checksum }),
            _ => None,
        }
    }

    /// The `ADD` instruction, or why it cannot be built.
    pub fn build(self) -> (r: Result<ADD, BuildError>)
        ensures
            self.src is None ==> missing_field(r, "src"@),
            self.src is Some && self.dest is None ==> missing_field(r, "dest"@),
            self.fields() matches Some(b) ==> outcome(r, |i: ADD| i.value@) == b.spec_value(),
    {
        let src = match self.src {
            Some(v) => v,
            None => return Err(missing("src")),
        };
        let dest = match self.dest {
            Some(v) => v,
            None => return Err(missing("dest")),
        };
        let b = AddHttpBuilder { src, dest, checksum: self.checksum };
        match b.value() {
            Ok(v) => Ok(ADD { value: v }),
            Err(e) => Err(e),
        }
    }
}

/// Builder for `ADD` from a git repository:
/// `ADD [--keep-git-dir=<boolean>] <git ref> <dir>`. The git reference must
/// parse as an absolute URL.
#[derive(Debug)]
pub struct AddGitBuilder {
    pub git_ref: String,
    pub dir: String,
    pub keep_git_dir: Option<bool>,
}

/// The fields of [`AddGitBuilder`] as they are being set.
#[derive(Debug)]
pub struct AddGitBuilderInner {
    pub git_ref: Option<String>,
    pub dir: Option<String>,
    pub keep_git_dir: Option<bool>,
}

impl AddGitBuilder {
    /// The text after `ADD`, given whether the git reference parses as a URL.
    pub open spec fn spec_value_given(&self, ref_is_url: bool) -> Result<Seq<char>, BuildError> {
        if !ref_is_url {
            Err(BuildError::InvalidUrl)
        } else {
            Ok(opt_bool_part("--keep-git-dir="@, self.keep_git_dir, " "@) + self.git_ref@ + " "@
                + self.dir@)
        }
    }

    /// The text after `ADD`; an error when the git reference is not a URL.
    pub open spec fn spec_value(&self) -> Result<Seq<char>, BuildError> {
        self.spec_value_given(parses_as_url(self.git_ref@))
    }

    /// The text after `ADD`, given whether the git reference parses as a URL.
    pub fn value_given(&self, ref_is_url: bool) -> (r: Result<String, BuildError>)
        ensures
            text_outcome(r) == self.spec_value_given(ref_is_url),
    {
        if !ref_is_url {
            return Err(BuildError::InvalidUrl);
        }
        let mut s = String::new();
        push_opt_bool(&mut s, "--keep-git-dir=", self.keep_git_dir, " ");
        s.append(self.git_ref.as_str());
        s.append(" ");
        s.append(self.dir.as_str());
        Ok(s)
    }

    /// The text after `ADD`.
    pub fn value(&self) -> (r: Result<String, BuildError>)
        ensures
            text_outcome(r) == self.spec_value(),
    {
        let ref_is_url = is_url(self.git_ref.as_str());
        self.value_given(ref_is_url)
    }

    /// A builder with no field set.
    pub fn builder() -> (r: AddGitBuilderInner)
        ensures
            r.git_ref is None,
            r.dir is None,
            r.keep_git_dir is None,
    {
        AddGitBuilderInner { git_ref: None, dir: None, keep_git_dir: None }
    }
}

impl AddGitBuilderInner {
    /// Sets the git reference.
    pub fn git_ref(self, git_ref: &str) -> (r: Self)
        ensures
            (r == AddGitBuilderInner { git_ref: r.git_ref, ..self }),
            opt_view(r.git_ref) == Some(git_ref@),
    {
        AddGitBuilderInner { git_ref: Some(owned(git_ref)), ..self }
    }

    /// Sets the destination directory.
    pub fn dir(self, dir: &str) -> (r: Self)
        ensures
            (r == AddGitBuilderInner { dir: r.dir, ..self }),
            opt_view(r.dir) == Some(dir@),
    {
        AddGitBuilderInner { dir: Some(owned(dir)), ..self }
    }

    /// Sets whether to keep the `.git` directory, rendered as `--keep-git-dir=<boolean> `.
    pub fn keep_git_dir(self, keep_git_dir: bool) -> (r: Self)
        ensures
            (r == AddGitBuilderInner { keep_git_dir: r.keep_git_dir, ..self }),
            r.keep_git_dir == Some(keep_git_dir),
    {
        AddGitBuilderInner { keep_git_dir: Some(keep_git_dir), ..self }
    }

    /// The fields, once every required one is set.
    pub open spec fn fields(self) -> Option<AddGitBuilder> {
        match (self.git_ref, self.dir) {
            (Some(git_ref), Some(dir)) => Some(AddGitBuilder { git_ref, dir, keep_git_dir: self.keep_git_dir }),
            _ => None,
        }
    }

    /// The `ADD` instruction, or why it cannot be built.
    pub fn build(self) -> (r: Result<ADD, BuildError>)
        ensures
            self.git_ref is None ==> missing_field(r, "git_ref"@),
            self.git_ref is Some && self.dir is None ==> missing_field(r, "dir"@),
            self.fields() matches Some(b) ==> outcome(r, |i: ADD| i.value@) == b.spec_value(),
    {
        let git_ref = match self.git_ref {
            Some(v) => v,
            None => return Err(missing("git_ref")),
        };
        let dir = match self.dir {
            Some(v) => v,
            None => return Err(missing("dir")),
        };
        let b = AddGitBuilder { git_ref, dir, keep_git_dir: self.keep_git_dir };
        match b.value() {
            Ok(v) => Ok(ADD { value: v }),
            Err(e) => Err(e),
        }
    }
}

/// Builder for `COPY`:
/// `COPY [--chown=<chown>] [--chmod=<chmod>] [--from=<from>] [--link] <src>... <dest>`;
/// for example `COPY --chown=55:mygroup --chmod=644 files* /somedir/`.
#[derive(Debug)]
pub struct CopyBuilder {
    pub sources: Vec<String>,
    pub dest: String,
    pub chown: Option<String>,
    pub chmod: Option<u16>,
    pub from: Option<String>,
    pub link: Option<bool>,
}

/// The fields of [`CopyBuilder`] as they are being set.
#[derive(Debug)]
pub struct CopyBuilderInner {
    pub sources: Vec<String>,
    pub dest: Option<String>,
    pub chown: Option<String>,
    pub chmod: Option<u16>,
    pub from: Option<String>,
    pub link: Option<bool>,
}

impl CopyBuilder {
    /// `--link ` when linking is asked for; nothing otherwise.
    pub open spec fn link_part(&self) -> Seq<char> {
        if self.link == Some(true) {
            "--link "@
        } else {
            Seq::empty()
        }
    }

    /// The text after `COPY`: the flags that are set, the sources separated by
    /// spaces, a space and the destination.
    pub open spec fn spec_value(&self) -> Result<Seq<char>, BuildError> {
        Ok(opt_part("--chown="@, opt_view(self.chown), " "@) + opt_decimal_part(
            "--chmod="@,
            opt_nat16(self.chmod),
            " "@,
        ) + opt_part("--from="@, opt_view(self.from), " "@) + self.link_part() + join(
            views(self.sources@),
            " "@,
        ) + " "@ + self.dest@)
    }

    /// The text after `COPY`.
    pub fn value(&self) -> (r: Result<String, BuildError>)
        ensures
            text_outcome(r) == self.spec_value(),
    {
        let mut s = String::new();
        push_opt(&mut s, "--chown=", &self.chown, " ");
        push_opt_decimal16(&mut s, "--chmod=", self.chmod, " ");
        push_opt(&mut s, "--from=", &self.from, " ");
        let ghost before_link = s@;
        if self.link == Some(true) {
            s.append("--link ");
        }
        assert(s@ =~= before_link + self.link_part());
        push_join(&mut s, &self.sources, " ");
        s.append(" ");
        s.append(self.dest.as_str());
        Ok(s)
    }

    /// A builder with no field set.
    pub fn builder() -> (r: CopyBuilderInner)
        ensures
            r.sources@.len() == 0,
            r.dest is None,
            r.chown is None,
            r.chmod is None,
            r.from is None,
            r.link is None,
    {
        CopyBuilderInner { sources: Vec::new(), dest: None, chown: None, chmod: None, from: None, link: None }
    }
}

impl CopyBuilderInner {
    /// Adds one source after those already set.
    pub fn src(self, src: &str) -> (r: Self)
        ensures
            (r == CopyBuilderInner { sources: r.sources, ..self }),
            views(r.sources@) == views(self.sources@).push(src@),
    {
        let ghost before = views(self.sources@);
        let mut items = self.sources;
        items.push(owned(src));
        assert(views(items@) =~= before.push(src@));
        CopyBuilderInner { sources: items, ..self }
    }

    /// Sets all the sources at once, replacing those already set.
    pub fn sources(self, sources: Vec<&str>) -> (r: Self)
        ensures
            (r == CopyBuilderInner { sources: r.sources, ..self }),
            views(r.sources@) == str_views(sources@),
    {
        CopyBuilderInner { sources: owned_all(&sources), ..self }
    }

    /// Sets the destination.
    pub fn dest(self, dest: &str) -> (r: Self)
        ensures
            (r == CopyBuilderInner { dest: r.dest, ..self }),
            opt_view(r.dest) == Some(dest@),
    {
        CopyBuilderInner { dest: Some(owned(dest)), ..self }
    }

    /// Sets the owner, rendered as `--chown=<chown> `.
    pub fn chown(self, chown: &str) -> (r: Self)
        ensures
            (r == CopyBuilderInner { chown: r.chown, ..self }),
            opt_view(r.chown) == Some(chown@),
    {
        CopyBuilderInner { chown: Some(owned(chown)), ..self }
    }

    /// Sets the mode, rendered as `--chmod=<chmod> `.
    pub fn chmod(self, chmod: u16) -> (r: Self)
        ensures
            (r == CopyBuilderInner { chmod: r.chmod, ..self }),
            r.chmod == Some(chmod),
    {
        CopyBuilderInner { chmod: Some(chmod), ..self }
    }

    /// Sets the stage or image to copy from, rendered as `--from=<from> `.
    pub fn from(self, from: &str) -> (r: Self)
        ensures
            (r == CopyBuilderInner { from: r.from, ..self }),
            opt_view(r.from) == Some(from@),
    {
        CopyBuilderInner { from: Some(owned(from)), ..self }
    }

    /// Sets whether to link, rendered as `--link ` when true.
    pub fn link(self, link: bool) -> (r: Self)
        ensures
            (r == CopyBuilderInner { link: r.link, ..self }),
            r.link == Some(link),
    {
        CopyBuilderInner { link: Some(link), ..self }
    }

    /// The fields, once every required one is set.
    pub open spec fn fields(self) -> Option<CopyBuilder> {
        match self.dest {
            Some(dest) => Some(CopyBuilder { sources: self.sources, dest, chown: self.chown, chmod: self.chmod, from: self.from, link: self.link }),
            None => None,
        }
    }

    /// The `COPY` instruction, or why it cannot be built.
    pub fn build(self) -> (r: Result<COPY, BuildError>)
        ensures
            self.dest is None ==> missing_field(r, "dest"@),
            self.fields() matches Some(b) ==> outcome(r, |i: COPY| i.value@) == b.spec_value(),
    {
        let dest = match self.dest {
            Some(v) => v,
            None => return Err(missing("dest")),
        };
        let b = CopyBuilder { sources: self.sources, dest, chown: self.chown, chmod: self.chmod, from: self.from, link: self.link };
        match b.value() {
            Ok(v) => Ok(COPY { value: v }),
            Err(e) => Err(e),
        }
    }
}

/// Builder for `VOLUME`: `VOLUME <path> ...`.
#[derive(Debug)]
pub struct VolumeBuilder {
    pub paths: Vec<String>,
}

/// The fields of [`VolumeBuilder`] as they are being set.
#[derive(Debug)]
pub struct VolumeBuilderInner {
    pub paths: Vec<String>,
}

impl VolumeBuilder {
    /// The text after `VOLUME`: the paths, separated by spaces.
    pub open spec fn spec_value(&self) -> Result<Seq<char>, BuildError> {
        Ok(join(views(self.paths@), " "@))
    }

    /// The text after `VOLUME`.
    pub fn value(&self) -> (r: Result<String, BuildError>)
        ensures
            text_outcome(r) == self.spec_value(),
    {
        let mut s = String::new();
        push_join(&mut s, &self.paths, " ");
        assert(s@ =~= join(views(self.paths@), " "@));
        Ok(s)
    }

    /// A builder with no field set.
    pub fn builder() -> (r: VolumeBuilderInner)
        ensures
            r.paths@.len() == 0,
    {
        VolumeBuilderInner { paths: Vec::new() }
    }
}

impl VolumeBuilderInner {
    /// Adds one path after those already set.
    pub fn path(self, path: &str) -> (r: Self)
        ensures
            (r == VolumeBuilderInner { paths: r.paths, ..self }),
            views(r.paths@) == views(self.paths@).push(path@),
    {
        let ghost before = views(self.paths@);
        let mut items = self.paths;
        items.push(owned(path));
        assert(views(items@) =~= before.push(path@));
        VolumeBuilderInner { paths: items, ..self }
    }

    /// Sets all the paths at once, replacing those already set.
    pub fn paths(self, paths: Vec<&str>) -> (r: Self)
        ensures
            (r == VolumeBuilderInner { paths: r.paths, ..self }),
            views(r.paths@) == str_views(paths@),
    {
        VolumeBuilderInner { paths: owned_all(&paths), ..self }
    }

    /// The fields, once every required one is set.
    pub open spec fn fields(self) -> Option<VolumeBuilder> {
        Some(VolumeBuilder { paths: self.paths })
    }

    /// The `VOLUME` instruction, or why it cannot be built.
    pub fn build(self) -> (r: Result<VOLUME, BuildError>)
        ensures
            self.fields() matches Some(b) ==> outcome(r, |i: VOLUME| i.value@) == b.spec_value(),
    {
        let b = VolumeBuilder { paths: self.paths };
        match b.value() {
            Ok(v) => Ok(VOLUME { value: v }),
            Err(e) => Err(e),
        }
    }
}

} // verus!
