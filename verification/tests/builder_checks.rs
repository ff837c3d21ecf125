use dockerfile_builder::error::BuildError;
use dockerfile_builder::instruction::{Instruction, CMD, ENV, RUN};
use dockerfile_builder::instruction_builder::{
    AddBuilder, AddGitBuilder, AddHttpBuilder, CmdBuilder, CmdExecBuilder, CopyBuilder,
    EntrypointBuilder, EntrypointExecBuilder, EnvBuilder, ExposeBuilder, FromBuilder,
    HealthcheckBuilder, LabelBuilder, OnbuildBuilder, RunBuilder, RunExecBuilder, ShellBuilder,
    UserBuilder, VolumeBuilder,
};
use std::time::Duration;

#[test]
fn run_shell_form_joins_commands() {
    let run = RunBuilder::builder()
        .command("source $HOME/.bashrc")
        .command("echo $HOME")
        .build()
        .unwrap();
    assert_eq!(run.to_string(), "RUN source $HOME/.bashrc && echo $HOME");
    let run = RunBuilder::builder()
        .commands(vec!["source $HOME/.bashrc", "echo $HOME"])
        .build()
        .unwrap();
    assert_eq!(run.to_string(), "RUN source $HOME/.bashrc && echo $HOME");
    let run = RunBuilder::builder().command("ls").build().unwrap();
    assert_eq!(run.to_string(), "RUN ls");
}

#[test]
fn run_exec_form_params_one_by_one_or_at_once() {
    let one = RunExecBuilder::builder()
        .executable("mybin.exe")
        .param("-f")
        .param("-c")
        .build()
        .unwrap();
    let all = RunExecBuilder::builder()
        .executable("mybin.exe")
        .params(vec!["-f", "-c"])
        .build()
        .unwrap();
    assert_eq!(one.to_string(), r#"RUN ["mybin.exe", "-f", "-c"]"#);
    assert_eq!(all.to_string(), one.to_string());
}

#[test]
fn params_replaced_by_params_call() {
    let cmd = CmdBuilder::builder()
        .command("echo")
        .param("a")
        .params(vec!["b", "c"])
        .param("d")
        .build()
        .unwrap();
    assert_eq!(cmd.to_string(), "CMD echo b c d");
}

#[test]
fn cmd_shell_form_with_params() {
    let cmd = CmdBuilder::builder()
        .command(r#"echo "this is a test""#)
        .param("| wc")
        .param("-l")
        .build()
        .unwrap();
    assert_eq!(cmd.to_string(), r#"CMD echo "this is a test" | wc -l"#);
}

#[test]
fn cmd_exec_form_variants() {
    let cmd = CmdExecBuilder::builder()
        .executable("/usr/bin/wc")
        .param("--help")
        .build()
        .unwrap();
    assert_eq!(cmd.to_string(), r#"CMD ["/usr/bin/wc", "--help"]"#);
    let cmd = CmdExecBuilder::builder()
        .param("-l")
        .param("8000")
        .build()
        .unwrap();
    assert_eq!(cmd.to_string(), r#"CMD ["-l", "8000"]"#);
}

#[test]
fn cmd_exec_empty_is_refused() {
    let cmd = CmdExecBuilder::builder().build();
    match cmd {
        Ok(_) => panic!("an empty CMD must be refused"),
        Err(e) => {
            assert!(matches!(e, BuildError::EmptyCmd));
            assert_eq!(e.to_string(), "CMD cannot be empty");
        }
    }
    let cmd = CmdExecBuilder::builder().params(vec![]).build();
    assert!(matches!(cmd, Err(BuildError::EmptyCmd)));
    let cmd = CmdExecBuilder::builder().executable("x").params(vec![]).build().unwrap();
    assert_eq!(cmd.to_string(), r#"CMD ["x"]"#);
}

#[test]
fn exec_forms_render_alike() {
    let run = RunExecBuilder::builder().executable("cmd").params(vec!["/S", "/C"]).build().unwrap();
    let entry = EntrypointExecBuilder::builder().executable("cmd").params(vec!["/S", "/C"]).build().unwrap();
    let shell = ShellBuilder::builder().executable("cmd").param("/S").param("/C").build().unwrap();
    let cmd = CmdExecBuilder::builder().executable("cmd").params(vec!["/S", "/C"]).build().unwrap();
    assert_eq!(run.value, r#"["cmd", "/S", "/C"]"#);
    assert_eq!(entry.value, run.value);
    assert_eq!(shell.value, run.value);
    assert_eq!(cmd.value, run.value);
    assert_eq!(shell.to_string(), r#"SHELL ["cmd", "/S", "/C"]"#);
}

#[test]
fn entrypoint_forms() {
    let e = EntrypointBuilder::builder()
        .command("some command")
        .params(vec!["-f", "-c"])
        .build()
        .unwrap();
    assert_eq!(e.to_string(), "ENTRYPOINT some command -f -c");
    let e = EntrypointExecBuilder::builder()
        .executable("/usr/sbin/apache2ctl")
        .param("-D")
        .param("FOREGROUND")
        .build()
        .unwrap();
    assert_eq!(e.to_string(), r#"ENTRYPOINT ["/usr/sbin/apache2ctl", "-D", "FOREGROUND"]"#);
}

#[test]
fn env_and_label() {
    let env = EnvBuilder::builder().key("foo").value("bar").build().unwrap();
    assert_eq!(env.to_string(), "ENV foo=\"bar\"");
    let label = LabelBuilder::builder().key("foo").value("bar").build().unwrap();
    assert_eq!(label.to_string(), "LABEL foo=bar");
}

#[test]
fn expose_numbers() {
    let e = ExposeBuilder::builder().port(80).protocol("udp").build().unwrap();
    assert_eq!(e.to_string(), "EXPOSE 80/udp");
    let e = ExposeBuilder::builder().port(0).build().unwrap();
    assert_eq!(e.to_string(), "EXPOSE 0");
    let e = ExposeBuilder::builder().port(65535).build().unwrap();
    assert_eq!(e.to_string(), "EXPOSE 65535");
    let e = ExposeBuilder::builder().port(1000).build().unwrap();
    assert_eq!(e.to_string(), "EXPOSE 1000");
}

#[test]
fn add_and_copy_flags() {
    let add = AddBuilder::builder()
        .chown("myuser:mygroup")
        .chmod(655)
        .src("hom*")
        .dest("/mydir/")
        .build()
        .unwrap();
    assert_eq!(add.to_string(), "ADD --chown=myuser:mygroup --chmod=655 hom* /mydir/");
    let copy = CopyBuilder::builder()
        .chown("55:mygroup")
        .chmod(644)
        .src("files*")
        .dest("/somedir/")
        .build()
        .unwrap();
    assert_eq!(copy.to_string(), "COPY --chown=55:mygroup --chmod=644 files* /somedir/");
    let copy = CopyBuilder::builder()
        .link(false)
        .from("builder")
        .src("/app")
        .dest("/app")
        .build()
        .unwrap();
    assert_eq!(copy.to_string(), "COPY --from=builder /app /app");
}

#[test]
fn add_git_keep_false() {
    let add = AddGitBuilder::builder()
        .keep_git_dir(false)
        .git_ref("https://example.com/repo.git")
        .dir("/src")
        .build()
        .unwrap();
    assert_eq!(add.to_string(), "ADD --keep-git-dir=false https://example.com/repo.git /src");
}

#[test]
fn invalid_url_error() {
    let add = AddHttpBuilder::builder().src("not a url").dest("/").build();
    match add {
        Ok(_) => panic!("a relative source must be refused"),
        Err(e) => {
            assert!(matches!(e, BuildError::InvalidUrl));
            assert_eq!(e.to_string(), "source is not a valid URL");
        }
    }
}

#[test]
fn value_given_url_answer() {
    let b = AddHttpBuilder { src: "x".to_string(), dest: "/".to_string(), checksum: None };
    assert_eq!(b.value_given(true).unwrap(), "x /");
    assert!(matches!(b.value_given(false), Err(BuildError::InvalidUrl)));
    assert!(matches!(b.value(), Err(BuildError::InvalidUrl)));
    let g = AddGitBuilder { git_ref: "r".to_string(), dir: "d".to_string(), keep_git_dir: Some(true) };
    assert_eq!(g.value_given(true).unwrap(), "--keep-git-dir=true r d");
    assert!(matches!(g.value_given(false), Err(BuildError::InvalidUrl)));
}

#[test]
fn missing_field_errors() {
    let from = FromBuilder::builder().tag("latest").build();
    match from {
        Ok(_) => panic!("an image is needed"),
        Err(e) => {
            assert!(matches!(&e, BuildError::MissingField(f) if f == "image"));
            assert_eq!(e.to_string(), "missing field: image");
        }
    }
    let env = EnvBuilder::builder().key("k").build();
    assert!(matches!(env, Err(BuildError::MissingField(ref f)) if f == "value"));
    let env = EnvBuilder::builder().value("v").build();
    assert!(matches!(env, Err(BuildError::MissingField(ref f)) if f == "key"));
    let user = UserBuilder::builder().group("g").build();
    assert!(matches!(user, Err(BuildError::MissingField(ref f)) if f == "user"));
    let onbuild = OnbuildBuilder::builder().build();
    assert!(matches!(onbuild, Err(BuildError::MissingField(ref f)) if f == "instruction"));
}

#[test]
fn tag_and_digest_error_variant() {
    let from = FromBuilder { image: "i".to_string(), name: None, tag: Some("t".to_string()), digest: Some("d".to_string()), platform: None };
    assert!(matches!(from.value(), Err(BuildError::TagAndDigest)));
}

#[test]
fn onbuild_wraps_any_other_instruction() {
    let onbuild = OnbuildBuilder::builder()
        .instruction(Instruction::RUN(RUN::from("make")))
        .build()
        .unwrap();
    assert_eq!(onbuild.to_string(), "ONBUILD RUN make");
    let onbuild = OnbuildBuilder::builder()
        .instruction(Instruction::ENV(ENV::from("a=\"b\"")))
        .build()
        .unwrap();
    assert_eq!(onbuild.value, "ENV a=\"b\"");
}

#[test]
fn healthcheck_numbers_and_none() {
    let h = HealthcheckBuilder::builder()
        .cmd(CMD::from("true"))
        .interval(Duration::from_millis(2500))
        .retries(-3)
        .build()
        .unwrap();
    assert_eq!(h.to_string(), "HEALTHCHECK --interal=2 --retries=-3 CMD true");
    let h = HealthcheckBuilder::builder()
        .cmd(CMD::from("true"))
        .retries(i32::MIN)
        .build()
        .unwrap();
    assert_eq!(h.to_string(), "HEALTHCHECK --retries=-2147483648 CMD true");
    let h = HealthcheckBuilder::builder().interval(Duration::from_secs(3)).build().unwrap();
    assert_eq!(h.to_string(), "HEALTHCHECK NONE");
    assert_eq!(
        HealthcheckBuilder::set_none().unwrap().value,
        HealthcheckBuilder::builder().build().unwrap().value
    );
}

#[test]
fn volume_empty_and_instruction_lines() {
    let v = VolumeBuilder::builder().build().unwrap();
    assert_eq!(v.to_string(), "VOLUME ");
    let i = Instruction::CMD(CMD::from("echo hi"));
    assert_eq!(i.to_string(), "CMD echo hi");
}

#[test]
fn copy_from_comes_before_link() {
    let copy = CopyBuilder::builder()
        .from("builder")
        .link(true)
        .src("a")
        .dest("b")
        .build()
        .unwrap();
    assert_eq!(copy.value, "--from=builder --link a b");
    assert_eq!(copy.to_string(), "COPY --from=builder --link a b");
}
