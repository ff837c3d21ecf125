use dockerfile_builder::instruction::{Instruction, ADD, CMD, FROM, ONBUILD};
use dockerfile_builder::instruction_builder::{
    AddBuilder, AddGitBuilder, AddHttpBuilder, ArgBuilder, CmdBuilder, CmdExecBuilder, CopyBuilder,
    EntrypointBuilder, EntrypointExecBuilder, EnvBuilder, ExposeBuilder, FromBuilder,
    HealthcheckBuilder, OnbuildBuilder, RunExecBuilder, StopsignalBuilder, UserBuilder,
    VolumeBuilder, WorkdirBuilder,
};
use std::time::Duration;

#[test]
fn from() {
    let from = FromBuilder::builder().image("cargo-chef").build().unwrap();
    assert_eq!(from.to_string(), "FROM cargo-chef");

    let from = FromBuilder::builder()
        .image("cargo-chef")
        .platform("linux/arm64")
        .build()
        .unwrap();
    assert_eq!(from.to_string(), "FROM --platform=linux/arm64 cargo-chef");

    let from = FromBuilder::builder()
        .image("cargo-chef")
        .name("chef")
        .tag("latest")
        .build()
        .unwrap();
    assert_eq!(from.to_string(), "FROM cargo-chef:latest AS chef");

    let from = FromBuilder::builder()
        .image("cargo-chef")
        .name("chef")
        .digest("sha256")
        .build()
        .unwrap();
    assert_eq!(from.to_string(), "FROM cargo-chef@sha256 AS chef");
}

#[test]
fn run() {
    let run = RunExecBuilder::builder()
        .executable("mybin.exe")
        .build()
        .unwrap();
    assert_eq!(run.to_string(), r#"RUN ["mybin.exe"]"#);
}

#[test]
fn cmd() {
    let cmd = CmdBuilder::builder()
        .command("some command")
        .build()
        .unwrap();
    assert_eq!(cmd.to_string(), "CMD some command");

    let cmd = CmdExecBuilder::builder()
        .executable("some command")
        .build()
        .unwrap();
    assert_eq!(cmd.to_string(), r#"CMD ["some command"]"#);
}

#[test]
fn from_err() {
    let from = FromBuilder::builder()
        .image("cargo-chef")
        .tag("t")
        .digest("d")
        .build();
    match from {
        Ok(_) => panic!("Both tag and digest are set. Expect test to fail"),
        Err(e) => assert_eq!(
            e.to_string(),
            "Dockerfile image can only have tag OR digest".to_string(),
        ),
    }
}

#[test]
fn expose() {
    let expose = ExposeBuilder::builder().port(80).build().unwrap();
    assert_eq!(expose.to_string(), "EXPOSE 80");
}

#[test]
fn add() {
    let add = AddBuilder::builder()
        .src("file_1")
        .dest("/mydir/")
        .build()
        .unwrap();
    assert_eq!(add.to_string(), "ADD file_1 /mydir/");
}

#[test]
fn add_http() {
    let add = AddHttpBuilder::builder()
        .checksum("sha256::123")
        .src("http://example.com/foobar")
        .dest("/")
        .build()
        .unwrap();
    assert_eq!(
        add.to_string(),
        "ADD --checksum=sha256::123 http://example.com/foobar /"
    );
}

#[test]
fn add_git() {
    let add = AddGitBuilder::builder()
        .keep_git_dir(true)
        .git_ref("https://github.com/moby/buildkit.git#v0.10.1")
        .dir("/buildkit")
        .build()
        .unwrap();
    assert_eq!(
        add.to_string(),
        "ADD --keep-git-dir=true https://github.com/moby/buildkit.git#v0.10.1 /buildkit"
    );
}

#[test]
fn copy() {
    let copy = CopyBuilder::builder()
        .link(true)
        .src("foo/")
        .dest("bar/")
        .build()
        .unwrap();
    assert_eq!(copy.to_string(), "COPY --link foo/ bar/");
}

#[test]
fn entrypoint() {
    let entrypoint = EntrypointBuilder::builder()
        .command("some command")
        .build()
        .unwrap();
    assert_eq!(entrypoint.to_string(), r#"ENTRYPOINT some command"#);

    let entrypoint = EntrypointExecBuilder::builder()
        .executable("mybin.exe")
        .build()
        .unwrap();
    assert_eq!(entrypoint.to_string(), r#"ENTRYPOINT ["mybin.exe"]"#);

    let entrypoint = EntrypointExecBuilder::builder()
        .executable("top")
        .param("-b")
        .build()
        .unwrap();
    assert_eq!(entrypoint.to_string(), r#"ENTRYPOINT ["top", "-b"]"#);
}

#[test]
fn volume() {
    let volume = VolumeBuilder::builder().path("/myvol1").build().unwrap();
    assert_eq!(volume.to_string(), "VOLUME /myvol1");
}

#[test]
fn user() {
    let user = UserBuilder::builder().user("myuser").build().unwrap();
    assert_eq!(user.to_string(), "USER myuser");

    let user = UserBuilder::builder()
        .user("myuser")
        .group("mygroup")
        .build()
        .unwrap();
    assert_eq!(user.to_string(), "USER myuser:mygroup");
}

#[test]
fn workdir() {
    let workdir = WorkdirBuilder::builder()
        .path("/path/to/workdir")
        .build()
        .unwrap();
    assert_eq!(workdir.to_string(), "WORKDIR /path/to/workdir");
}

#[test]
fn arg() {
    let arg = ArgBuilder::builder().name("user1").build().unwrap();
    assert_eq!(arg.to_string(), "ARG user1");

    let arg = ArgBuilder::builder()
        .name("user1")
        .value("someuser")
        .build()
        .unwrap();
    assert_eq!(arg.to_string(), "ARG user1=\"someuser\"");
}

#[test]
fn onbuild() {
    let onbuild = OnbuildBuilder::builder()
        .instruction(Instruction::ADD(ADD::from(". /app/src")))
        .build()
        .unwrap();
    assert_eq!(onbuild.to_string(), "ONBUILD ADD . /app/src");
}

#[test]
fn onbuild_err() {
    let onbuild = OnbuildBuilder::builder()
        .instruction(Instruction::ONBUILD(ONBUILD::from("RUN somecommand")))
        .build();
    match onbuild {
        Ok(_) => panic!("Chaining Onbuild instructions. Expect test to fail"),
        Err(e) => assert_eq!(
            e.to_string(),
            "Chaining ONBUILD instructions using ONBUILD ONBUILD isn’t allowed".to_string(),
        ),
    }

    let onbuild = OnbuildBuilder::builder()
        .instruction(Instruction::FROM(FROM::from("someimage")))
        .build();
    match onbuild {
        Ok(_) => {
            panic!("ONBUILD instruction may not trigger FROM instruction. Expect test to fail")
        }
        Err(e) => assert_eq!(
            e.to_string(),
            "ONBUILD instruction may not trigger FROM instruction".to_string(),
        ),
    }
}

#[test]
fn stopsignal() {
    let stopsignal = StopsignalBuilder::builder()
        .signal("SIGKILL")
        .build()
        .unwrap();
    assert_eq!(stopsignal.to_string(), "STOPSIGNAL SIGKILL");
}

#[test]
fn healthcheck() {
    let healthcheck = HealthcheckBuilder::builder()
        .cmd(CMD::from("curl -f http://localhost/"))
        .build()
        .unwrap();
    assert_eq!(
        healthcheck.to_string(),
        "HEALTHCHECK CMD curl -f http://localhost/"
    );

    let healthcheck = HealthcheckBuilder::builder()
        .cmd(CMD::from("curl -f http://localhost/"))
        .interval(Duration::from_secs(15))
        .timeout(Duration::from_secs(200))
        .start_period(Duration::from_secs(5))
        .retries(5)
        .build()
        .unwrap();
    assert_eq!(
        healthcheck.to_string(),
        "HEALTHCHECK --interal=15 --timeout=200 --start-period=5 --retries=5 CMD curl -f http://localhost/"
    );
}

#[test]
fn env_builder_escape() {
    let escape_check = EnvBuilder::builder()
        .key("PHP_ERROR_REPORTING")
        .value("E_ERROR | E_WARNING | E_PARSE")
        .build()
        .unwrap();
    assert_eq!(
        escape_check.to_string(),
        "ENV PHP_ERROR_REPORTING=\"E_ERROR | E_WARNING | E_PARSE\""
    );
}

#[test]
fn add_mult_src() {
    let add = AddBuilder::builder()
        .src("file_1")
        .src("file_2")
        .dest("/mydir/")
        .build()
        .unwrap();
    assert_eq!(add.to_string(), "ADD file_1 file_2 /mydir/");

    let add = AddBuilder::builder()
        .sources(vec!["file_1", "file_2"])
        .dest("/mydir/")
        .build()
        .unwrap();
    assert_eq!(add.to_string(), "ADD file_1 file_2 /mydir/");
}

#[test]
fn copy_mult_src() {
    let add = CopyBuilder::builder()
        .src("file_1")
        .src("file_2")
        .dest("/mydir/")
        .build()
        .unwrap();
    assert_eq!(add.to_string(), "COPY file_1 file_2 /mydir/");

    let add = CopyBuilder::builder()
        .sources(vec!["file_1", "file_2"])
        .dest("/mydir/")
        .build()
        .unwrap();
    assert_eq!(add.to_string(), "COPY file_1 file_2 /mydir/");
}

#[test]
fn volume_mult_src() {
    let volume = VolumeBuilder::builder()
        .path("/myvol1")
        .path("/myvol2")
        .build()
        .unwrap();
    assert_eq!(volume.to_string(), "VOLUME /myvol1 /myvol2");

    let volume = VolumeBuilder::builder()
        .paths(vec!["/myvol1", "/myvol2"])
        .build()
        .unwrap();
    assert_eq!(volume.to_string(), "VOLUME /myvol1 /myvol2");
}

#[test]
fn healthcheck_none() {
    let healthcheck = HealthcheckBuilder::builder().build().unwrap();
    assert_eq!(healthcheck.to_string(), "HEALTHCHECK NONE");

    let healthcheck = HealthcheckBuilder::set_none().unwrap();
    assert_eq!(healthcheck.to_string(), "HEALTHCHECK NONE");
}

#[test]
fn healthcheck_start_interval() {
    let healthcheck = HealthcheckBuilder::builder()
        .cmd(CMD::from("curl -f http://localhost/"))
        .interval(Duration::from_secs(15))
        .timeout(Duration::from_secs(200))
        .start_period(Duration::from_secs(5))
        .start_interval(Duration::from_secs(5))
        .retries(5)
        .build()
        .unwrap();
    assert_eq!(
        healthcheck.to_string(),
        "HEALTHCHECK --interal=15 --timeout=200 --start-period=5 --start-interval=5 --retries=5 CMD curl -f http://localhost/"
    );
}

#[test]
fn add_git_url_parse_failure() {
    let add = AddGitBuilder::builder()
        .keep_git_dir(true)
        .git_ref("!@#~~https://github.com/moby/buildkit.git#v0.10.1")
        .dir("/buildkit")
        .build();
    assert!(add.is_err());
}

#[test]
fn add_http_url_parse_failure() {
    let add = AddHttpBuilder::builder()
        .src("!@#~~https://github.com/moby/buildkit.git#v0.10.1")
        .dest("/buildkit")
        .build();
    assert!(add.is_err());
}

#[test]
fn additional_urls() {
    let add = AddGitBuilder::builder()
        .keep_git_dir(true)
        .git_ref("https://github.com/rust-lang/rust/issues?labels=E-easy&state=open")
        .dir("/buildkit")
        .build();
    if add.is_err() {
        println!("{:#?}", &add);
    }
    assert!(add.is_ok());

    //Data url
    let add = AddGitBuilder::builder()
        .keep_git_dir(true)
        .git_ref("data:text/plain,Hello?World#")
        .dir("/buildkit")
        .build();
    if add.is_err() {
        println!("{:#?}", &add);
    }
    assert!(add.is_ok());
}

#[test]
fn add_http_percent_encoding() {
    let add = AddGitBuilder::builder()
        .keep_git_dir(true)
        .git_ref("https://foobar.com/foo%20%3Cbar%3E")
        .dir("/buildkit")
        .build();
    if add.is_err() {
        println!("{:#?}", &add);
    }
    assert!(add.is_ok());
}
