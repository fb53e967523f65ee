use renode_run::config::AppConfig;
use renode_run::config::RenodeCliConfig;
use renode_run::config::RenodeScriptConfig;
use renode_run::envsub::EnvTable;
use renode_run::fsview::FsSnapshot;
use renode_run::resc_gen::RescGen;
use renode_run::types::RescDefinition;

fn exe_snapshot(path: &str) -> FsSnapshot {
    let mut fs = FsSnapshot::new();
    fs.push_unreadable(path, "binary file");
    fs
}

#[test]
fn generate_default_script() {
    let mut resc = RenodeScriptConfig::default();
    resc.platform_description = Some("@machine.repl".to_owned());
    let env = EnvTable::new();
    let fs = exe_snapshot("app.elf");
    let app = AppConfig::default();
    let d = RescDefinition::new(&resc, &app, "app.elf", &env, &fs).unwrap();
    let out = RescGen::new().generate("outdir", &app, &d);
    let expected = ":name: renode-system\n\
                    :description: Renode script generated by renode-run\n\
                    \n\
                    path add @outdir\n\
                    \n\
                    mach create \"default-machine\"\n\
                    \n\
                    $bin = @app.elf\n\
                    \n\
                    machine LoadPlatformDescription @machine.repl\n\
                    \n\
                    macro reset\n\
                    \"\"\"\n\
                    \x20   sysbus LoadELF $bin\n\
                    \"\"\"\n\
                    \n\
                    runMacro $reset\n\
                    \n\
                    start\n\
                    \n";
    assert_eq!(out.script, expected.to_owned());
    assert_eq!(out.files.len(), 0);
}

#[test]
fn generate_full_script() {
    let mut resc = RenodeScriptConfig::default();
    resc.name = Some("demo".to_owned());
    resc.description = Some("a demo".to_owned());
    resc.machine_name = Some("m0".to_owned());
    resc.platform_description = Some("@machine.repl".to_owned());
    resc.init_commands = vec!["logLevel 3".to_owned()];
    resc.variables = vec!["$x = 1".to_owned()];
    resc.pre_start_commands = vec!["showAnalyzer sysbus.uart0".to_owned()];
    resc.post_start_commands = vec!["echo done".to_owned()];
    resc.reset = Some("sysbus LoadELF $bin".to_owned());
    resc.start = Some("start-gdb-server".to_owned());
    let env = EnvTable::new();
    let fs = exe_snapshot("app.elf");
    let mut app = AppConfig::default();
    app.using_sysbus = true;
    let d = RescDefinition::new(&resc, &app, "app.elf", &env, &fs).unwrap();
    let out = RescGen::new().generate("out", &app, &d);
    let expected = ":name: demo\n\
                    :description: a demo\n\
                    \n\
                    path add @out\n\
                    \n\
                    using sysbus\n\
                    \n\
                    mach create \"m0\"\n\
                    \n\
                    logLevel 3\n\
                    \n\
                    $bin = @app.elf\n\
                    $x = 1\n\
                    \n\
                    machine LoadPlatformDescription @machine.repl\n\
                    \n\
                    showAnalyzer sysbus.uart0\n\
                    \n\
                    macro reset\n\
                    \"\"\"\n\
                    \x20   sysbus LoadELF $bin\n\
                    \"\"\"\n\
                    \n\
                    runMacro $reset\n\
                    \n\
                    start-gdb-server\n\
                    \n\
                    echo done\n";
    assert_eq!(out.script, expected.to_owned());
}

#[test]
fn generate_omit_start() {
    let mut resc = RenodeScriptConfig::default();
    resc.platform_description = Some("@machine.repl".to_owned());
    resc.post_start_commands = vec!["echo never".to_owned()];
    let env = EnvTable::new();
    let fs = exe_snapshot("app.elf");
    let mut app = AppConfig::default();
    app.omit_start = true;
    let d = RescDefinition::new(&resc, &app, "app.elf", &env, &fs).unwrap();
    let out = RescGen::new().generate("out", &app, &d);
    assert!(out.script.ends_with("runMacro $reset\n\n"));
    assert!(!out.script.contains("\nstart\n"));
    assert!(!out.script.contains("echo never"));
}

#[test]
fn generate_omit_out_dir_path() {
    let mut resc = RenodeScriptConfig::default();
    resc.platform_description = Some("@machine.repl".to_owned());
    let env = EnvTable::new();
    let fs = exe_snapshot("app.elf");
    let mut app = AppConfig::default();
    app.omit_out_dir_path = true;
    let d = RescDefinition::new(&resc, &app, "app.elf", &env, &fs).unwrap();
    let out = RescGen::new().generate("out", &app, &d);
    assert!(!out.script.contains("path add"));
}

#[test]
fn generate_inline_platform_block() {
    let mut resc = RenodeScriptConfig::default();
    resc.platform_description = Some("cpu: CPU.ARMv7A @ sysbus".to_owned());
    let env = EnvTable::new();
    let fs = exe_snapshot("app.elf");
    let app = AppConfig::default();
    let d = RescDefinition::new(&resc, &app, "app.elf", &env, &fs).unwrap();
    let out = RescGen::new().generate("out", &app, &d);
    assert!(out.script.contains(
        "machine LoadPlatformDescriptionFromString\n\"\"\"\ncpu: CPU.ARMv7A @ sysbus\n\"\"\"\n"
    ));
}

#[test]
fn generate_materializes_imported_files() {
    let mut resc = RenodeScriptConfig::default();
    resc.platform_description = Some("<boards/stm32.repl".to_owned());
    let mut env = EnvTable::new();
    env.push_var("BASE", "sysbus");
    let mut fs = exe_snapshot("app.elf");
    fs.push_text("boards/stm32.repl", "mem: Memory @ ${BASE}\n");
    let app = AppConfig::default();
    let d = RescDefinition::new(&resc, &app, "app.elf", &env, &fs).unwrap();
    let out = RescGen::new().generate("out", &app, &d);
    // round trip: the materialized bytes are the substitution-resolved
    // source file content, under the extracted base name
    assert_eq!(out.files.len(), 1);
    assert_eq!(out.files[0].name, "stm32.repl".to_owned());
    assert_eq!(out.files[0].content, "mem: Memory @ sysbus\n".to_owned());
    assert!(out.script.contains("machine LoadPlatformDescription @stm32.repl\n"));
}

#[test]
fn cli_config_to_args() {
    let mut cli = RenodeCliConfig::default();
    assert_eq!(cli.to_args(), Vec::<String>::new());
    cli.plain = true;
    cli.port = Some(1234);
    cli.console = true;
    assert_eq!(
        cli.to_args(),
        vec![
            "--plain".to_owned(),
            "--port".to_owned(),
            "1234".to_owned(),
            "--console".to_owned()
        ]
    );
    cli.disable_xwt = true;
    cli.hide_monitor = true;
    cli.hide_log = true;
    cli.hide_analyzers = true;
    cli.keep_temporary_files = true;
    cli.port = Some(0);
    assert_eq!(
        cli.to_args(),
        vec![
            "--plain".to_owned(),
            "--port".to_owned(),
            "0".to_owned(),
            "--disable-xwt".to_owned(),
            "--hide-monitor".to_owned(),
            "--hide-log".to_owned(),
            "--hide-analyzers".to_owned(),
            "--console".to_owned(),
            "--keep-temporary-files".to_owned()
        ]
    );
}
