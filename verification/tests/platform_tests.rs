use renode_run::envsub::EnvSubError;
use renode_run::envsub::EnvTable;
use renode_run::fsview::FsSnapshot;
use renode_run::platform::probe_path;
use renode_run::platform::PlatformDescription;
use renode_run::platform::PlatformDescriptionError;
use renode_run::platform::PlatformDescriptionKind;

#[test]
fn platform_description_builtin() {
    let env = EnvTable::new();
    let fs = FsSnapshot::new();
    let d = PlatformDescription::new("@vexpress-a9.repl", &env, &fs).unwrap();
    assert_eq!(d.content(), "@vexpress-a9.repl");
    assert_eq!(d.kind(), &PlatformDescriptionKind::Internal);
}

#[test]
fn platform_description_local_file() {
    let env = EnvTable::new();
    let mut fs = FsSnapshot::new();
    fs.push_text("platform.repl", "cpu: CPU.ARMv7A @ sysbus\n");
    let d = PlatformDescription::new("platform.repl", &env, &fs).unwrap();
    assert_eq!(d.content(), "platform.repl");
    assert_eq!(d.kind(), &PlatformDescriptionKind::LocalFile);
}

#[test]
fn platform_description_local_file_substituted_path() {
    let mut env = EnvTable::new();
    env.push_var("DIR", "boards");
    let mut fs = FsSnapshot::new();
    fs.push_text("boards/platform.repl", "cpu: CPU.ARMv7A @ sysbus\n");
    let d = PlatformDescription::new("${DIR}/platform.repl", &env, &fs).unwrap();
    assert_eq!(d.content(), "boards/platform.repl");
    assert_eq!(d.kind(), &PlatformDescriptionKind::LocalFile);
}

#[test]
fn platform_description_imported() {
    let mut env = EnvTable::new();
    env.push_var("BASE", "sysbus 0x40000000");
    let mut fs = FsSnapshot::new();
    fs.push_text("boards/platform.repl", "mem: Memory @ ${BASE}\n");
    let d = PlatformDescription::new("<boards/platform.repl", &env, &fs).unwrap();
    assert_eq!(d.kind(), &PlatformDescriptionKind::GeneratedLocalFile("platform.repl".to_owned()));
    assert_eq!(d.content(), "mem: Memory @ sysbus 0x40000000\n");
}

#[test]
fn platform_description_inline() {
    let env = EnvTable::new();
    let fs = FsSnapshot::new();
    let d = PlatformDescription::new("cpu: CPU.ARMv7A @ sysbus", &env, &fs).unwrap();
    assert_eq!(d.kind(), &PlatformDescriptionKind::String);
    // the block indent spares the first line, so a single line stays as it is
    assert_eq!(d.content(), "cpu: CPU.ARMv7A @ sysbus");
}

#[test]
fn platform_description_inline_multiline_indented() {
    let env = EnvTable::new();
    let fs = FsSnapshot::new();
    let d = PlatformDescription::new("cpu: CPU.ARMv7A @ sysbus\nmem: Memory @ sysbus", &env, &fs)
        .unwrap();
    assert_eq!(d.kind(), &PlatformDescriptionKind::String);
    assert_eq!(d.content(), "cpu: CPU.ARMv7A @ sysbus\n    mem: Memory @ sysbus");
}

#[test]
fn platform_description_inline_using_not_indented() {
    let env = EnvTable::new();
    let fs = FsSnapshot::new();
    let d = PlatformDescription::new("using sysbus\ncpu: CPU.ARMv7A @ sysbus", &env, &fs).unwrap();
    assert_eq!(d.kind(), &PlatformDescriptionKind::String);
    assert_eq!(d.content(), "using sysbus\ncpu: CPU.ARMv7A @ sysbus");
}

#[test]
fn platform_description_empty_fails() {
    let env = EnvTable::new();
    let fs = FsSnapshot::new();
    assert_eq!(
        PlatformDescription::new("   \n  ", &env, &fs),
        Err(PlatformDescriptionError::Empty)
    );
    assert_eq!(PlatformDescription::new("", &env, &fs), Err(PlatformDescriptionError::Empty));
}

#[test]
fn platform_description_local_file_missing() {
    let env = EnvTable::new();
    let fs = FsSnapshot::new();
    assert_eq!(
        PlatformDescription::new("missing.repl", &env, &fs),
        Err(PlatformDescriptionError::LocalFileNotFound("missing.repl".to_owned()))
    );
}

#[test]
fn platform_description_import_missing() {
    let env = EnvTable::new();
    let fs = FsSnapshot::new();
    assert_eq!(
        PlatformDescription::new("<missing.repl", &env, &fs),
        Err(PlatformDescriptionError::LocalFileNotFound("missing.repl".to_owned()))
    );
}

#[test]
fn platform_description_import_unreadable() {
    let env = EnvTable::new();
    let mut fs = FsSnapshot::new();
    fs.push_unreadable("bin.repl", "stream did not contain valid UTF-8");
    assert_eq!(
        PlatformDescription::new("<bin.repl", &env, &fs),
        Err(PlatformDescriptionError::Io(
            "bin.repl".to_owned(),
            "stream did not contain valid UTF-8".to_owned()
        ))
    );
}

#[test]
fn platform_description_substitution_failure() {
    let env = EnvTable::new();
    let fs = FsSnapshot::new();
    assert_eq!(
        PlatformDescription::new("${NOPE}/x.repl", &env, &fs),
        Err(PlatformDescriptionError::EnvSub(EnvSubError::EnvVarNotPresent("NOPE".to_owned())))
    );
}

#[test]
fn platform_description_indented_input_normalized() {
    let env = EnvTable::new();
    let fs = FsSnapshot::new();
    // surrounding blank lines and shared indentation are stripped before
    // classification, so this still counts as a builtin reference
    let d = PlatformDescription::new("\n   @vexpress-a9.repl\n", &env, &fs).unwrap();
    assert_eq!(d.kind(), &PlatformDescriptionKind::Internal);
    assert_eq!(d.content(), "@vexpress-a9.repl");
}

#[test]
fn probe_path_reports_candidate_files() {
    let mut env = EnvTable::new();
    env.push_var("DIR", "boards");
    assert_eq!(probe_path("platform.repl", &env), Some("platform.repl".to_owned()));
    assert_eq!(probe_path("${DIR}/p.repl", &env), Some("boards/p.repl".to_owned()));
    assert_eq!(probe_path("<${DIR}/p.repl", &env), Some("boards/p.repl".to_owned()));
    assert_eq!(probe_path("@builtin.repl", &env), None);
    assert_eq!(probe_path("cpu: CPU.ARMv7A @ sysbus", &env), None);
    assert_eq!(probe_path("", &env), None);
}

#[test]
fn resc_fmt_per_kind() {
    let mut env = EnvTable::new();
    env.push_var("BASE", "sysbus");
    let mut fs = FsSnapshot::new();
    fs.push_text("boards/platform.repl", "mem: Memory @ ${BASE}\n");
    fs.push_text("local.repl", "x\n");

    let builtin = PlatformDescription::new("@vexpress-a9.repl", &env, &fs).unwrap();
    assert_eq!(builtin.resc_fmt(), "@vexpress-a9.repl".to_owned());

    let local = PlatformDescription::new("local.repl", &env, &fs).unwrap();
    assert_eq!(local.resc_fmt(), "@local.repl".to_owned());

    let imported = PlatformDescription::new("<boards/platform.repl", &env, &fs).unwrap();
    assert_eq!(imported.resc_fmt(), "@platform.repl".to_owned());

    let inline = PlatformDescription::new("cpu: CPU.ARMv7A @ sysbus", &env, &fs).unwrap();
    assert_eq!(inline.resc_fmt(), "cpu: CPU.ARMv7A @ sysbus".to_owned());
}
