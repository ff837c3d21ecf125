//! How each part of a builder shows in the text it renders: every law
//! relates the text of two builders that differ in one field, or gives the
//! text of the smallest builder, so that together they fix the text of every
//! builder part by part.

use vstd::prelude::*;

use crate::error::BuildError;
use crate::instruction::CMD;
use crate::instruction_builder::{
    AddBuilder, AddGitBuilder, AddHttpBuilder, ArgBuilder, CmdBuilder, CmdExecBuilder,
    CopyBuilder, EntrypointBuilder, EnvBuilder, ExposeBuilder, FromBuilder, HealthcheckBuilder,
    LabelBuilder, RunBuilder, RunExecBuilder, UserBuilder, VolumeBuilder,
};
use crate::text::{
    bool_text, decimal, join, opt_decimal_part, opt_list, opt_nat16, opt_part, opt_single,
    opt_view, quote, quote_all, signed_decimal, views,
};

verus! {

/// If `a + c == b + c`, then `a == b`.
pub proof fn cancel_suffix(a: Seq<char>, b: Seq<char>, c: Seq<char>)
    requires
        a + c == b + c,
    ensures
        a == b,
{
    assert((a + c).len() == a.len() + c.len());
    assert((b + c).len() == b.len() + c.len());
    assert(a.len() == b.len());
    assert forall|i: int| 0 <= i < a.len() implies a[i] == b[i] by {
        assert((a + c)[i] == a[i]);
        assert((b + c)[i] == b[i]);
    }
    assert(a =~= b);
}

/// Joining one more item after a non-empty list adds the separator and the
/// item at the end.
pub proof fn join_one_more(items: Seq<Seq<char>>, item: Seq<char>, sep: Seq<char>)
    requires
        items.len() >= 1,
    ensures
        join(items.push(item), sep) == join(items, sep) + sep + item,
{
    assert(items.push(item).drop_last() =~= items);
}

/// Joining a single item gives the item.
pub proof fn join_single(item: Seq<char>, sep: Seq<char>)
    ensures
        join(seq![item], sep) == item,
{
}

// ----- FROM -----

/// `FROM` with only an image renders the image.
pub proof fn from_image_alone(image: String)
    ensures
        (FromBuilder { image, name: None, tag: None, digest: None, platform: None }).spec_value()
            == Ok::<Seq<char>, BuildError>(image@),
{
    assert(Seq::<char>::empty() + image@ + Seq::<char>::empty() + Seq::<char>::empty()
        + Seq::<char>::empty() =~= image@);
}

/// A platform puts `--platform=<platform> ` in front of the text, whatever
/// else is set; an error stays the same error.
pub proof fn from_platform_leads(b: FromBuilder, platform: String)
    ensures
        (FromBuilder { platform: None, ..b }).spec_value() matches Ok(v) ==> (FromBuilder {
            platform: Some(platform),
            ..b
        }).spec_value() == Ok::<Seq<char>, BuildError>("--platform="@ + platform@ + " "@ + v),
        (FromBuilder { platform: None, ..b }).spec_value() is Err ==> (FromBuilder {
            platform: Some(platform),
            ..b
        }).spec_value() == (FromBuilder { platform: None, ..b }).spec_value(),
{
    let without = FromBuilder { platform: None, ..b };
    let with = FromBuilder { platform: Some(platform), ..b };
    if let Ok(v) = without.spec_value() {
        assert(with.spec_value()->Ok_0 =~= "--platform="@ + platform@ + " "@ + v);
    }
}

/// A stage name puts ` AS <name>` at the end of the text, whatever else is
/// set; an error stays the same error.
pub proof fn from_name_ends(b: FromBuilder, name: String)
    ensures
        (FromBuilder { name: None, ..b }).spec_value() matches Ok(v) ==> (FromBuilder {
            name: Some(name),
            ..b
        }).spec_value() == Ok::<Seq<char>, BuildError>(v + " AS "@ + name@),
        (FromBuilder { name: None, ..b }).spec_value() is Err ==> (FromBuilder {
            name: Some(name),
            ..b
        }).spec_value() == (FromBuilder { name: None, ..b }).spec_value(),
{
    let without = FromBuilder { name: None, ..b };
    let with = FromBuilder { name: Some(name), ..b };
    if let Ok(v) = without.spec_value() {
        assert(with.spec_value()->Ok_0 =~= v + " AS "@ + name@);
    }
}

/// Without a stage name or digest, a tag puts `:<tag>` at the end of the text.
pub proof fn from_tag_ends(b: FromBuilder, tag: String)
    requires
        b.name is None,
        b.digest is None,
    ensures
        (FromBuilder { tag: None, ..b }).spec_value() matches Ok(v) && (FromBuilder {
            tag: Some(tag),
            ..b
        }).spec_value() == Ok::<Seq<char>, BuildError>(v + ":"@ + tag@),
{
    let with = FromBuilder { tag: Some(tag), ..b };
    let without = FromBuilder { tag: None, ..b };
    assert(with.spec_value()->Ok_0 =~= without.spec_value()->Ok_0 + ":"@ + tag@);
}

/// Without a stage name or tag, a digest puts `@<digest>` at the end of the text.
pub proof fn from_digest_ends(b: FromBuilder, digest: String)
    requires
        b.name is None,
        b.tag is None,
    ensures
        (FromBuilder { digest: None, ..b }).spec_value() matches Ok(v) && (FromBuilder {
            digest: Some(digest),
            ..b
        }).spec_value() == Ok::<Seq<char>, BuildError>(v + "@"@ + digest@),
{
    let with = FromBuilder { digest: Some(digest), ..b };
    let without = FromBuilder { digest: None, ..b };
    assert(with.spec_value()->Ok_0 =~= without.spec_value()->Ok_0 + "@"@ + digest@);
}

/// An image with both a tag and a digest is refused, whatever else is set.
pub proof fn from_tag_and_digest_refused(b: FromBuilder)
    requires
        b.tag is Some,
        b.digest is Some,
    ensures
        b.spec_value() == Err::<Seq<char>, BuildError>(BuildError::TagAndDigest),
{
}

// ----- HEALTHCHECK -----

/// Without a command, `HEALTHCHECK` renders `NONE`, whatever options are set.
pub proof fn healthcheck_without_cmd(b: HealthcheckBuilder)
    requires
        b.cmd is None,
    ensures
        b.spec_value() == Ok::<Seq<char>, BuildError>("NONE"@),
{
}

/// With a command and no option, `HEALTHCHECK` renders the command's line.
pub proof fn healthcheck_cmd_alone(cmd: CMD)
    ensures
        (HealthcheckBuilder {
            cmd: Some(cmd),
            interval: None,
            timeout: None,
            start_period: None,
            start_interval: None,
            retries: None,
        }).spec_value() == Ok::<Seq<char>, BuildError>(cmd.rendered()),
{
    let b = HealthcheckBuilder {
        cmd: Some(cmd),
        interval: None,
        timeout: None,
        start_period: None,
        start_interval: None,
        retries: None,
    };
    assert(b.spec_value()->Ok_0 =~= cmd.rendered());
}

/// With a command, an interval puts `--interal=<secs> ` in front, whatever
/// other options are set.
pub proof fn healthcheck_interval_leads(b: HealthcheckBuilder, secs: u64)
    requires
        b.cmd is Some,
    ensures
        (HealthcheckBuilder { interval: None, ..b }).spec_value() matches Ok(v) && (
        HealthcheckBuilder { interval: Some(secs), ..b }).spec_value() == Ok::<
            Seq<char>,
            BuildError,
        >("--interal="@ + decimal(secs as nat) + " "@ + v),
{
    let with = HealthcheckBuilder { interval: Some(secs), ..b };
    let without = HealthcheckBuilder { interval: None, ..b };
    assert(with.spec_value()->Ok_0 =~= "--interal="@ + decimal(secs as nat) + " "@
        + without.spec_value()->Ok_0);
}

/// With a command and no interval, a timeout puts `--timeout=<secs> ` in
/// front, whatever later options are set.
pub proof fn healthcheck_timeout_leads(b: HealthcheckBuilder, secs: u64)
    requires
        b.cmd is Some,
        b.interval is None,
    ensures
        (HealthcheckBuilder { timeout: None, ..b }).spec_value() matches Ok(v) && (
        HealthcheckBuilder { timeout: Some(secs), ..b }).spec_value() == Ok::<
            Seq<char>,
            BuildError,
        >("--timeout="@ + decimal(secs as nat) + " "@ + v),
{
    let with = HealthcheckBuilder { timeout: Some(secs), ..b };
    let without = HealthcheckBuilder { timeout: None, ..b };
    assert(with.spec_value()->Ok_0 =~= "--timeout="@ + decimal(secs as nat) + " "@
        + without.spec_value()->Ok_0);
}

/// With a command and neither interval nor timeout, a start period puts
/// `--start-period=<secs> ` in front, whatever later options are set.
pub proof fn healthcheck_start_period_leads(b: HealthcheckBuilder, secs: u64)
    requires
        b.cmd is Some,
        b.interval is None,
        b.timeout is None,
    ensures
        (HealthcheckBuilder { start_period: None, ..b }).spec_value() matches Ok(v) && (
        HealthcheckBuilder { start_period: Some(secs), ..b }).spec_value() == Ok::<
            Seq<char>,
            BuildError,
        >("--start-period="@ + decimal(secs as nat) + " "@ + v),
{
    let with = HealthcheckBuilder { start_period: Some(secs), ..b };
    let without = HealthcheckBuilder { start_period: None, ..b };
    assert(with.spec_value()->Ok_0 =~= "--start-period="@ + decimal(secs as nat) + " "@
        + without.spec_value()->Ok_0);
}

/// With a command and no earlier option, a start interval puts
/// `--start-interval=<secs> ` in front, whatever retries are set.
pub proof fn healthcheck_start_interval_leads(b: HealthcheckBuilder, secs: u64)
    requires
        b.cmd is Some,
        b.interval is None,
        b.timeout is None,
        b.start_period is None,
    ensures
        (HealthcheckBuilder { start_interval: None, ..b }).spec_value() matches Ok(v) && (
        HealthcheckBuilder { start_interval: Some(secs), ..b }).spec_value() == Ok::<
            Seq<char>,
            BuildError,
        >("--start-interval="@ + decimal(secs as nat) + " "@ + v),
{
    let with = HealthcheckBuilder { start_interval: Some(secs), ..b };
    let without = HealthcheckBuilder { start_interval: None, ..b };
    assert(with.spec_value()->Ok_0 =~= "--start-interval="@ + decimal(secs as nat) + " "@
        + without.spec_value()->Ok_0);
}

/// With a command and no other option, retries put `--retries=<n> ` in
/// front of the command's line.
pub proof fn healthcheck_retries_lead(b: HealthcheckBuilder, n: i32)
    requires
        b.cmd is Some,
        b.interval is None,
        b.timeout is None,
        b.start_period is None,
        b.start_interval is None,
    ensures
        (HealthcheckBuilder { retries: None, ..b }).spec_value() matches Ok(v) && (
        HealthcheckBuilder { retries: Some(n), ..b }).spec_value() == Ok::<Seq<char>, BuildError>(
            "--retries="@ + signed_decimal(n as int) + " "@ + v,
        ),
{
    let with = HealthcheckBuilder { retries: Some(n), ..b };
    let without = HealthcheckBuilder { retries: None, ..b };
    assert(with.spec_value()->Ok_0 =~= "--retries="@ + signed_decimal(n as int) + " "@
        + without.spec_value()->Ok_0);
}

// ----- COPY -----

/// An owner puts `--chown=<owner> ` in front of the text, whatever else is set.
pub proof fn copy_chown_leads(b: CopyBuilder, owner: String)
    ensures
        (CopyBuilder { chown: None, ..b }).spec_value() matches Ok(v) && (CopyBuilder {
            chown: Some(owner),
            ..b
        }).spec_value() == Ok::<Seq<char>, BuildError>("--chown="@ + owner@ + " "@ + v),
{
    let with = CopyBuilder { chown: Some(owner), ..b };
    let without = CopyBuilder { chown: None, ..b };
    assert(with.spec_value()->Ok_0 =~= "--chown="@ + owner@ + " "@ + without.spec_value()->Ok_0);
}

/// Without an owner, a mode puts `--chmod=<mode> ` in front of the text,
/// whatever else is set.
pub proof fn copy_chmod_leads(b: CopyBuilder, mode: u16)
    requires
        b.chown is None,
    ensures
        (CopyBuilder { chmod: None, ..b }).spec_value() matches Ok(v) && (CopyBuilder {
            chmod: Some(mode),
            ..b
        }).spec_value() == Ok::<Seq<char>, BuildError>("--chmod="@ + decimal(mode as nat) + " "@ + v),
{
    let with = CopyBuilder { chmod: Some(mode), ..b };
    let without = CopyBuilder { chmod: None, ..b };
    assert(with.spec_value()->Ok_0 =~= "--chmod="@ + decimal(mode as nat) + " "@
        + without.spec_value()->Ok_0);
}

/// Without an owner or mode, a source stage puts `--from=<stage> ` in front
/// of the text, whatever else is set.
pub proof fn copy_from_leads(b: CopyBuilder, stage: String)
    requires
        b.chown is None,
        b.chmod is None,
    ensures
        (CopyBuilder { from: None, ..b }).spec_value() matches Ok(v) && (CopyBuilder {
            from: Some(stage),
            ..b
        }).spec_value() == Ok::<Seq<char>, BuildError>("--from="@ + stage@ + " "@ + v),
{
    let with = CopyBuilder { from: Some(stage), ..b };
    let without = CopyBuilder { from: None, ..b };
    assert(with.spec_value()->Ok_0 =~= "--from="@ + stage@ + " "@ + without.spec_value()->Ok_0);
}

/// Without an owner, mode or source stage, linking puts `--link ` in front of
/// the text; `link(false)` renders as if linking were never set.
pub proof fn copy_link_leads(b: CopyBuilder)
    ensures
        (CopyBuilder { link: Some(false), ..b }).spec_value() == (CopyBuilder {
            link: None,
            ..b
        }).spec_value(),
        b.chown is None && b.chmod is None && b.from is None ==> ((CopyBuilder {
            link: None,
            ..b
        }).spec_value() matches Ok(v) && (CopyBuilder { link: Some(true), ..b }).spec_value()
            == Ok::<Seq<char>, BuildError>("--link "@ + v)),
{
    let with = CopyBuilder { link: Some(true), ..b };
    let without = CopyBuilder { link: None, ..b };
    if b.chown is None && b.chmod is None && b.from is None {
        assert(with.spec_value()->Ok_0 =~= "--link "@ + without.spec_value()->Ok_0);
    }
}

/// With no flag and a single source, `COPY` renders the source, a space and
/// the destination.
pub proof fn copy_single_source(b: CopyBuilder)
    requires
        b.chown is None,
        b.chmod is None,
        b.from is None,
        b.link is None,
        b.sources@.len() == 1,
    ensures
        b.spec_value() == Ok::<Seq<char>, BuildError>(b.sources@[0]@ + " "@ + b.dest@),
{
    assert(views(b.sources@) =~= seq![b.sources@[0]@]);
    join_single(b.sources@[0]@, " "@);
    assert(b.spec_value()->Ok_0 =~= b.sources@[0]@ + " "@ + b.dest@);
}

/// One more source after a non-empty list goes, after a space, right before
/// ` <dest>`, whatever flags are set.
pub proof fn copy_one_more_source(b1: CopyBuilder, b2: CopyBuilder, src: Seq<char>, pre: Seq<char>)
    requires
        b2 == (CopyBuilder { sources: b2.sources, ..b1 }),
        views(b2.sources@) == views(b1.sources@).push(src),
        b1.sources@.len() >= 1,
        b1.spec_value() == Ok::<Seq<char>, BuildError>(pre + " "@ + b1.dest@),
    ensures
        b2.spec_value() == Ok::<Seq<char>, BuildError>(pre + " "@ + src + " "@ + b1.dest@),
{
    join_one_more(views(b1.sources@), src, " "@);
    let j1 = join(views(b1.sources@), " "@);
    let f = b1.spec_value()->Ok_0;
    let fl = opt_part("--chown="@, opt_view(b1.chown), " "@) + opt_decimal_part(
        "--chmod="@,
        opt_nat16(b1.chmod),
        " "@,
    ) + opt_part("--from="@, opt_view(b1.from), " "@) + b1.link_part();
    assert(f =~= fl + j1 + " "@ + b1.dest@);
    assert(pre + " "@ + b1.dest@ =~= pre + (" "@ + b1.dest@));
    assert((fl + j1) + (" "@ + b1.dest@) =~= pre + (" "@ + b1.dest@));
    cancel_suffix(fl + j1, pre, " "@ + b1.dest@);
    assert(b2.spec_value()->Ok_0 =~= fl + j1 + " "@ + src + " "@ + b1.dest@);
}

// ----- RUN, CMD, ENTRYPOINT (shell form) -----

/// `RUN` with a single command renders that command.
pub proof fn run_single_command(b: RunBuilder)
    requires
        b.commands@.len() == 1,
    ensures
        b.spec_value() == Ok::<Seq<char>, BuildError>(b.commands@[0]@),
{
    assert(views(b.commands@) =~= seq![b.commands@[0]@]);
}

/// One more command after a non-empty list adds ` && ` and the command at
/// the end, however many commands there already are.
pub proof fn run_one_more_command(b1: RunBuilder, b2: RunBuilder, command: Seq<char>)
    requires
        views(b2.commands@) == views(b1.commands@).push(command),
        b1.commands@.len() >= 1,
    ensures
        b1.spec_value() matches Ok(v) && b2.spec_value() == Ok::<Seq<char>, BuildError>(
            v + " && "@ + command,
        ),
{
    join_one_more(views(b1.commands@), command, " && "@);
}

/// Shell-form `CMD` without parameters renders the command.
pub proof fn cmd_command_alone(b: CmdBuilder)
    requires
        opt_list(b.params).len() == 0,
    ensures
        b.spec_value() == Ok::<Seq<char>, BuildError>(b.command@),
{
    assert(seq![b.command@] + opt_list(b.params) =~= seq![b.command@]);
}

/// One more parameter adds a space and the parameter at the end, for the
/// first parameter as for any later one.
pub proof fn cmd_one_more_param(b1: CmdBuilder, b2: CmdBuilder, param: Seq<char>)
    requires
        b2.command@ == b1.command@,
        opt_list(b2.params) == opt_list(b1.params).push(param),
    ensures
        b1.spec_value() matches Ok(v) && b2.spec_value() == Ok::<Seq<char>, BuildError>(
            v + " "@ + param,
        ),
{
    let i1 = seq![b1.command@] + opt_list(b1.params);
    assert(seq![b2.command@] + opt_list(b2.params) =~= i1.push(param));
    join_one_more(i1, param, " "@);
}

/// Shell-form `ENTRYPOINT` without parameters renders the command.
pub proof fn entrypoint_command_alone(b: EntrypointBuilder)
    requires
        opt_list(b.params).len() == 0,
    ensures
        b.spec_value() == Ok::<Seq<char>, BuildError>(b.command@),
{
    assert(seq![b.command@] + opt_list(b.params) =~= seq![b.command@]);
}

/// One more parameter adds a space and the parameter at the end, for the
/// first parameter as for any later one.
pub proof fn entrypoint_one_more_param(b1: EntrypointBuilder, b2: EntrypointBuilder, param: Seq<char>)
    requires
        b2.command@ == b1.command@,
        opt_list(b2.params) == opt_list(b1.params).push(param),
    ensures
        b1.spec_value() matches Ok(v) && b2.spec_value() == Ok::<Seq<char>, BuildError>(
            v + " "@ + param,
        ),
{
    let i1 = seq![b1.command@] + opt_list(b1.params);
    assert(seq![b2.command@] + opt_list(b2.params) =~= i1.push(param));
    join_one_more(i1, param, " "@);
}

// ----- ADD -----

/// An owner puts `--chown=<owner> ` in front of the text, whatever else is set.
pub proof fn add_chown_leads(b: AddBuilder, owner: String)
    ensures
        (AddBuilder { chown: None, ..b }).spec_value() matches Ok(v) && (AddBuilder {
            chown: Some(owner),
            ..b
        }).spec_value() == Ok::<Seq<char>, BuildError>("--chown="@ + owner@ + " "@ + v),
{
    let with = AddBuilder { chown: Some(owner), ..b };
    let without = AddBuilder { chown: None, ..b };
    assert(with.spec_value()->Ok_0 =~= "--chown="@ + owner@ + " "@ + without.spec_value()->Ok_0);
}

/// Without an owner, a mode puts `--chmod=<mode> ` in front of the text.
pub proof fn add_chmod_leads(b: AddBuilder, mode: u16)
    requires
        b.chown is None,
    ensures
        (AddBuilder { chmod: None, ..b }).spec_value() matches Ok(v) && (AddBuilder {
            chmod: Some(mode),
            ..b
        }).spec_value() == Ok::<Seq<char>, BuildError>("--chmod="@ + decimal(mode as nat) + " "@ + v),
{
    let with = AddBuilder { chmod: Some(mode), ..b };
    let without = AddBuilder { chmod: None, ..b };
    assert(with.spec_value()->Ok_0 =~= "--chmod="@ + decimal(mode as nat) + " "@
        + without.spec_value()->Ok_0);
}

/// With no flag and a single source, `ADD` renders the source, a space and
/// the destination.
pub proof fn add_single_source(b: AddBuilder)
    requires
        b.chown is None,
        b.chmod is None,
        b.sources@.len() == 1,
    ensures
        b.spec_value() == Ok::<Seq<char>, BuildError>(b.sources@[0]@ + " "@ + b.dest@),
{
    assert(views(b.sources@) =~= seq![b.sources@[0]@]);
    assert(b.spec_value()->Ok_0 =~= b.sources@[0]@ + " "@ + b.dest@);
}

/// One more source after a non-empty list goes, after a space, right before
/// ` <dest>`, whatever flags are set.
pub proof fn add_one_more_source(b1: AddBuilder, b2: AddBuilder, src: Seq<char>, pre: Seq<char>)
    requires
        b2 == (AddBuilder { sources: b2.sources, ..b1 }),
        views(b2.sources@) == views(b1.sources@).push(src),
        b1.sources@.len() >= 1,
        b1.spec_value() == Ok::<Seq<char>, BuildError>(pre + " "@ + b1.dest@),
    ensures
        b2.spec_value() == Ok::<Seq<char>, BuildError>(pre + " "@ + src + " "@ + b1.dest@),
{
    join_one_more(views(b1.sources@), src, " "@);
    let j1 = join(views(b1.sources@), " "@);
    let f = b1.spec_value()->Ok_0;
    let fl = opt_part("--chown="@, opt_view(b1.chown), " "@) + opt_decimal_part(
        "--chmod="@,
        opt_nat16(b1.chmod),
        " "@,
    );
    assert(f =~= fl + j1 + " "@ + b1.dest@);
    assert(pre + " "@ + b1.dest@ =~= pre + (" "@ + b1.dest@));
    assert((fl + j1) + (" "@ + b1.dest@) =~= pre + (" "@ + b1.dest@));
    cancel_suffix(fl + j1, pre, " "@ + b1.dest@);
    assert(b2.spec_value()->Ok_0 =~= fl + j1 + " "@ + src + " "@ + b1.dest@);
}

/// `ADD` from a URL without a checksum renders the source, a space and the
/// destination; a checksum puts `--checksum=<sum> ` in front. A source that
/// is not a URL is refused.
pub proof fn add_http_shape(b: AddHttpBuilder, sum: String)
    ensures
        (AddHttpBuilder { checksum: None, ..b }).spec_value_given(true) == Ok::<
            Seq<char>,
            BuildError,
        >(b.src@ + " "@ + b.dest@),
        (AddHttpBuilder { checksum: Some(sum), ..b }).spec_value_given(true) == Ok::<
            Seq<char>,
            BuildError,
        >("--checksum="@ + sum@ + " "@ + b.src@ + " "@ + b.dest@),
        b.spec_value_given(false) == Err::<Seq<char>, BuildError>(BuildError::InvalidUrl),
{
    let without = AddHttpBuilder { checksum: None, ..b };
    let with = AddHttpBuilder { checksum: Some(sum), ..b };
    assert(without.spec_value_given(true)->Ok_0 =~= b.src@ + " "@ + b.dest@);
    assert(with.spec_value_given(true)->Ok_0 =~= "--checksum="@ + sum@ + " "@ + b.src@ + " "@
        + b.dest@);
}

/// `ADD` from git without the keep flag renders the reference, a space and
/// the directory; the flag puts `--keep-git-dir=<true|false> ` in front. A
/// reference that is not a URL is refused.
pub proof fn add_git_shape(b: AddGitBuilder, keep: bool)
    ensures
        (AddGitBuilder { keep_git_dir: None, ..b }).spec_value_given(true) == Ok::<
            Seq<char>,
            BuildError,
        >(b.git_ref@ + " "@ + b.dir@),
        (AddGitBuilder { keep_git_dir: Some(keep), ..b }).spec_value_given(true) == Ok::<
            Seq<char>,
            BuildError,
        >("--keep-git-dir="@ + bool_text(keep) + " "@ + b.git_ref@ + " "@ + b.dir@),
        b.spec_value_given(false) == Err::<Seq<char>, BuildError>(BuildError::InvalidUrl),
{
    let without = AddGitBuilder { keep_git_dir: None, ..b };
    let with = AddGitBuilder { keep_git_dir: Some(keep), ..b };
    assert(without.spec_value_given(true)->Ok_0 =~= b.git_ref@ + " "@ + b.dir@);
    assert(with.spec_value_given(true)->Ok_0 =~= "--keep-git-dir="@ + bool_text(keep) + " "@
        + b.git_ref@ + " "@ + b.dir@);
}

// ----- VOLUME -----

/// `VOLUME` with a single path renders that path.
pub proof fn volume_single_path(b: VolumeBuilder)
    requires
        b.paths@.len() == 1,
    ensures
        b.spec_value() == Ok::<Seq<char>, BuildError>(b.paths@[0]@),
{
    assert(views(b.paths@) =~= seq![b.paths@[0]@]);
}

/// One more path after a non-empty list adds a space and the path at the end.
pub proof fn volume_one_more_path(b1: VolumeBuilder, b2: VolumeBuilder, path: Seq<char>)
    requires
        views(b2.paths@) == views(b1.paths@).push(path),
        b1.paths@.len() >= 1,
    ensures
        b1.spec_value() matches Ok(v) && b2.spec_value() == Ok::<Seq<char>, BuildError>(
            v + " "@ + path,
        ),
{
    join_one_more(views(b1.paths@), path, " "@);
}

// ----- exec form -----

/// Exec-form `RUN` without parameters renders `["<executable>"]`.
pub proof fn run_exec_executable_alone(b: RunExecBuilder)
    requires
        opt_list(b.params).len() == 0,
    ensures
        b.spec_value() == Ok::<Seq<char>, BuildError>(
            "["@ + seq!['"'] + b.executable@ + seq!['"'] + "]"@,
        ),
{
    let items = seq![b.executable@] + opt_list(b.params);
    assert(items =~= seq![b.executable@]);
    assert(quote_all(items) =~= seq![quote(b.executable@)]);
    assert(b.spec_value()->Ok_0 =~= "["@ + seq!['"'] + b.executable@ + seq!['"'] + "]"@);
}

/// One more parameter goes, as `, "<param>"`, right before the closing `]`,
/// for the first parameter as for any later one.
pub proof fn run_exec_one_more_param(
    b1: RunExecBuilder,
    b2: RunExecBuilder,
    param: Seq<char>,
    pre: Seq<char>,
)
    requires
        b2.executable@ == b1.executable@,
        opt_list(b2.params) == opt_list(b1.params).push(param),
        b1.spec_value() == Ok::<Seq<char>, BuildError>(pre + "]"@),
    ensures
        b2.spec_value() == Ok::<Seq<char>, BuildError>(
            pre + ", "@ + seq!['"'] + param + seq!['"'] + "]"@,
        ),
{
    let i1 = seq![b1.executable@] + opt_list(b1.params);
    let i2 = seq![b2.executable@] + opt_list(b2.params);
    assert(i2 =~= i1.push(param));
    assert(quote_all(i2) =~= quote_all(i1).push(quote(param)));
    join_one_more(quote_all(i1), quote(param), ", "@);
    let j1 = join(quote_all(i1), ", "@);
    cancel_suffix("["@ + j1, pre, "]"@);
    assert(b2.spec_value()->Ok_0 =~= pre + ", "@ + seq!['"'] + param + seq!['"'] + "]"@);
}

/// One more item (the executable counts as the first) goes, as
/// `, "<item>"`, right before the closing `]` of exec-form `CMD`; a single
/// item renders as `["<item>"]`.
pub proof fn cmd_exec_one_more_item(
    b1: CmdExecBuilder,
    b2: CmdExecBuilder,
    param: Seq<char>,
    pre: Seq<char>,
)
    requires
        opt_view(b2.executable) == opt_view(b1.executable),
        opt_list(b2.params) == opt_list(b1.params).push(param),
    ensures
        b1.items().len() == 0 ==> b2.spec_value() == Ok::<Seq<char>, BuildError>(
            "["@ + seq!['"'] + param + seq!['"'] + "]"@,
        ),
        b1.spec_value() == Ok::<Seq<char>, BuildError>(pre + "]"@) ==> b2.spec_value() == Ok::<
            Seq<char>,
            BuildError,
        >(pre + ", "@ + seq!['"'] + param + seq!['"'] + "]"@),
{
    let i1 = b1.items();
    let i2 = b2.items();
    assert(i2 =~= i1.push(param));
    assert(quote_all(i2) =~= quote_all(i1).push(quote(param)));
    if i1.len() == 0 {
        assert(quote_all(i2) =~= seq![quote(param)]);
        assert(b2.spec_value()->Ok_0 =~= "["@ + seq!['"'] + param + seq!['"'] + "]"@);
    } else {
        join_one_more(quote_all(i1), quote(param), ", "@);
        let j1 = join(quote_all(i1), ", "@);
        if b1.spec_value() == Ok::<Seq<char>, BuildError>(pre + "]"@) {
            cancel_suffix("["@ + j1, pre, "]"@);
            assert(b2.spec_value()->Ok_0 =~= pre + ", "@ + seq!['"'] + param + seq!['"'] + "]"@);
        }
    }
}

// ----- the small ones -----

/// `EXPOSE` renders the port in decimal, and a protocol adds `/<protocol>`
/// at the end.
pub proof fn expose_shape(port: u16, protocol: String)
    ensures
        (ExposeBuilder { port, protocol: None }).spec_value() == Ok::<Seq<char>, BuildError>(
            decimal(port as nat),
        ),
        (ExposeBuilder { port, protocol: Some(protocol) }).spec_value() == Ok::<
            Seq<char>,
            BuildError,
        >(decimal(port as nat) + "/"@ + protocol@),
{
    assert((ExposeBuilder { port, protocol: None }).spec_value()->Ok_0 =~= decimal(port as nat));
    assert((ExposeBuilder { port, protocol: Some(protocol) }).spec_value()->Ok_0 =~= decimal(
        port as nat,
    ) + "/"@ + protocol@);
}

/// `USER` renders the user, and a group adds `:<group>` at the end.
pub proof fn user_shape(user: String, group: String)
    ensures
        (UserBuilder { user, group: None }).spec_value() == Ok::<Seq<char>, BuildError>(user@),
        (UserBuilder { user, group: Some(group) }).spec_value() == Ok::<Seq<char>, BuildError>(
            user@ + ":"@ + group@,
        ),
{
    assert((UserBuilder { user, group: None }).spec_value()->Ok_0 =~= user@);
    assert((UserBuilder { user, group: Some(group) }).spec_value()->Ok_0 =~= user@ + ":"@
        + group@);
}

/// `ARG` renders the name, and a default value adds `="<value>"` at the end.
pub proof fn arg_shape(name: String, value: String)
    ensures
        (ArgBuilder { name, value: None }).spec_value() == Ok::<Seq<char>, BuildError>(name@),
        (ArgBuilder { name, value: Some(value) }).spec_value() == Ok::<Seq<char>, BuildError>(
            name@ + "="@ + seq!['"'] + value@ + seq!['"'],
        ),
{
    reveal_strlit("=\"");
    reveal_strlit("\"");
    reveal_strlit("=");
    assert((ArgBuilder { name, value: None }).spec_value()->Ok_0 =~= name@);
    assert((ArgBuilder { name, value: Some(value) }).spec_value()->Ok_0 =~= name@ + "="@
        + seq!['"'] + value@ + seq!['"']);
}

/// `ENV` renders the key, `=`, and the value between double quotes; `LABEL`
/// the key, `=`, and the value as it is.
pub proof fn env_and_label_shape(key: String, value: String)
    ensures
        (EnvBuilder { key, value }).spec_value() == Ok::<Seq<char>, BuildError>(
            key@ + "="@ + seq!['"'] + value@ + seq!['"'],
        ),
        (LabelBuilder { key, value }).spec_value() == Ok::<Seq<char>, BuildError>(
            key@ + "="@ + value@,
        ),
{
    reveal_strlit("\"");
    assert((EnvBuilder { key, value }).spec_value()->Ok_0 =~= key@ + "="@ + seq!['"'] + value@
        + seq!['"']);
}

} // verus!
