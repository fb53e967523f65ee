use renode_run::config::AppConfig;
use renode_run::config::RenodeScriptConfig;
use renode_run::envsub::EnvSubError;
use renode_run::envsub::EnvTable;
use renode_run::fsview::FsSnapshot;
use renode_run::platform::PlatformDescriptionKind;
use renode_run::types::Description;
use renode_run::types::InitCommand;
use renode_run::types::MachineName;
use renode_run::types::Name;
use renode_run::types::RescDefinition;
use renode_run::types::RescDefinitionError;
use renode_run::types::RescGenericFieldError;
use renode_run::types::ResetMacro;
use renode_run::types::Variable;

fn exe_snapshot(path: &str) -> FsSnapshot {
    let mut fs = FsSnapshot::new();
    fs.push_unreadable(path, "binary file");
    fs
}

#[test]
fn exe_not_found_checked_first() {
    let mut resc = RenodeScriptConfig::default();
    // even an invalid platform description is not reached
    resc.platform_description = Some("".to_owned());
    let env = EnvTable::new();
    let fs = FsSnapshot::new();
    let r = RescDefinition::new(&resc, &AppConfig::default(), "missing.elf", &env, &fs);
    assert_eq!(r.unwrap_err(), RescDefinitionError::ExeNotFound("missing.elf".to_owned()));
}

#[test]
fn missing_platform_description() {
    let mut resc = RenodeScriptConfig::default();
    resc.name = Some("valid-name".to_owned());
    resc.variables = vec!["$x = 1".to_owned()];
    let env = EnvTable::new();
    let fs = exe_snapshot("app.elf");
    let r = RescDefinition::new(&resc, &AppConfig::default(), "app.elf", &env, &fs);
    assert_eq!(r.unwrap_err(), RescDefinitionError::MissingPlatformDescription);
}

#[test]
fn defaults_applied_when_fields_absent() {
    let mut resc = RenodeScriptConfig::default();
    resc.platform_description = Some("@machine.repl".to_owned());
    let env = EnvTable::new();
    let fs = exe_snapshot("app.elf");
    let d = RescDefinition::new(&resc, &AppConfig::default(), "app.elf", &env, &fs).unwrap();
    assert_eq!(d.name.as_str(), "renode-system");
    assert_eq!(d.description.as_str(), "Renode script generated by renode-run");
    assert_eq!(d.machine_name.as_str(), "default-machine");
    assert_eq!(d.reset.as_str(), "sysbus LoadELF $bin");
    assert!(d.start.is_none());
}

#[test]
fn synthesized_binary_variable_comes_first() {
    let mut resc = RenodeScriptConfig::default();
    resc.platform_description = Some("@machine.repl".to_owned());
    resc.variables = vec!["$a = 1".to_owned(), "$b = 2".to_owned()];
    let env = EnvTable::new();
    let fs = exe_snapshot("target/app.elf");
    let d = RescDefinition::new(&resc, &AppConfig::default(), "target/app.elf", &env, &fs)
        .unwrap();
    assert_eq!(d.variables.len(), 3);
    assert_eq!(d.variables[0].as_str(), "$bin = @target/app.elf");
    assert_eq!(d.variables[1].as_str(), "$a = 1");
    assert_eq!(d.variables[2].as_str(), "$b = 2");
}

#[test]
fn duplicate_commands_preserved_in_order() {
    let mut resc = RenodeScriptConfig::default();
    resc.platform_description = Some("@machine.repl".to_owned());
    resc.init_commands = vec!["logLevel 3".to_owned(), "logLevel 3".to_owned()];
    let env = EnvTable::new();
    let fs = exe_snapshot("app.elf");
    let d = RescDefinition::new(&resc, &AppConfig::default(), "app.elf", &env, &fs).unwrap();
    assert_eq!(d.init_commands.len(), 2);
    assert_eq!(d.init_commands[0].as_str(), "logLevel 3");
    assert_eq!(d.init_commands[1].as_str(), "logLevel 3");
}

#[test]
fn primary_platform_description_comes_first() {
    let mut resc = RenodeScriptConfig::default();
    resc.platform_description = Some("@one.repl".to_owned());
    resc.platform_descriptions = vec!["@two.repl".to_owned()];
    let env = EnvTable::new();
    let fs = exe_snapshot("app.elf");
    let d = RescDefinition::new(&resc, &AppConfig::default(), "app.elf", &env, &fs).unwrap();
    assert_eq!(d.platform_descriptions.len(), 2);
    assert_eq!(d.platform_descriptions[0].content(), "@one.repl");
    assert_eq!(d.platform_descriptions[1].content(), "@two.repl");
}

#[test]
fn present_but_empty_field_fails() {
    let mut resc = RenodeScriptConfig::default();
    resc.platform_description = Some("@machine.repl".to_owned());
    resc.name = Some("${UNSET:-}".to_owned());
    let env = EnvTable::new();
    let fs = exe_snapshot("app.elf");
    let r = RescDefinition::new(&resc, &AppConfig::default(), "app.elf", &env, &fs);
    assert_eq!(
        r.unwrap_err(),
        RescDefinitionError::RescGenericField(RescGenericFieldError::Empty("name".to_owned()))
    );
}

#[test]
fn unresolved_variable_in_command_fails() {
    let mut resc = RenodeScriptConfig::default();
    resc.platform_description = Some("@machine.repl".to_owned());
    resc.init_commands = vec!["echo ${NOPE}".to_owned()];
    let env = EnvTable::new();
    let fs = exe_snapshot("app.elf");
    let r = RescDefinition::new(&resc, &AppConfig::default(), "app.elf", &env, &fs);
    assert_eq!(
        r.unwrap_err(),
        RescDefinitionError::RescGenericField(RescGenericFieldError::EnvSub(
            EnvSubError::EnvVarNotPresent("NOPE".to_owned())
        ))
    );
}

#[test]
fn field_substitution_applies() {
    let mut resc = RenodeScriptConfig::default();
    resc.platform_description = Some("@machine.repl".to_owned());
    resc.name = Some("run-${TARGET}".to_owned());
    let mut env = EnvTable::new();
    env.push_var("TARGET", "demo");
    let fs = exe_snapshot("app.elf");
    let d = RescDefinition::new(&resc, &AppConfig::default(), "app.elf", &env, &fs).unwrap();
    assert_eq!(d.name.as_str(), "run-demo");
}

#[test]
fn imported_platform_kind_carries_file_name() {
    let mut resc = RenodeScriptConfig::default();
    resc.platform_description = Some("<boards/stm32.repl".to_owned());
    let env = EnvTable::new();
    let mut fs = exe_snapshot("app.elf");
    fs.push_text("boards/stm32.repl", "cpu: CPU.CortexM @ sysbus\n");
    let d = RescDefinition::new(&resc, &AppConfig::default(), "app.elf", &env, &fs).unwrap();
    assert_eq!(
        d.platform_descriptions[0].kind(),
        &PlatformDescriptionKind::GeneratedLocalFile("stm32.repl".to_owned())
    );
    assert_eq!(d.platform_descriptions[0].content(), "cpu: CPU.CortexM @ sysbus\n");
}

#[test]
fn variable_input_is_deindented() {
    let env = EnvTable::new();
    let v = Variable::new("  $x = 1\n    $y = 2", &env).unwrap();
    assert_eq!(v.as_str(), "$x = 1\n$y = 2");
}

#[test]
fn field_constructors_validate_emptiness() {
    let env = EnvTable::new();
    assert_eq!(
        Name::new("", &env).unwrap_err(),
        RescGenericFieldError::Empty("name".to_owned())
    );
    assert_eq!(
        Description::new("", &env).unwrap_err(),
        RescGenericFieldError::Empty("description".to_owned())
    );
    assert_eq!(
        MachineName::new("", &env).unwrap_err(),
        RescGenericFieldError::Empty("machine-name".to_owned())
    );
    assert_eq!(
        Variable::new("   ", &env).unwrap_err(),
        RescGenericFieldError::Empty("variables".to_owned())
    );
    assert_eq!(
        InitCommand::new("", &env).unwrap_err(),
        RescGenericFieldError::Empty("init-commands".to_owned())
    );
    assert_eq!(
        ResetMacro::new("\n\n", &env).unwrap_err(),
        RescGenericFieldError::Empty("reset-macro".to_owned())
    );
}

#[test]
fn reset_macro_block_indents_every_line() {
    let env = EnvTable::new();
    let m = ResetMacro::new("sysbus LoadELF $bin\nstart_delay", &env).unwrap();
    assert_eq!(m.resc_fmt(), "    sysbus LoadELF $bin\n    start_delay".to_owned());
}

#[test]
fn default_binary_var_formats_path() {
    let env = EnvTable::new();
    let v = Variable::default_binary_var("target/app.elf", &env).unwrap();
    assert_eq!(v.as_str(), "$bin = @target/app.elf");
}

#[test]
fn error_messages() {
    let env = EnvTable::new();
    let e = renode_run::envsub::envsub("${NOT_SET}", &env).unwrap_err();
    assert_eq!(
        e.message(),
        "The environment variable 'NOT_SET' is not set and no default value is specified"
            .to_owned()
    );
    assert_eq!(
        RescDefinitionError::MissingPlatformDescription.message(),
        "At least one platform description is required".to_owned()
    );
    assert_eq!(
        RescDefinitionError::ExeNotFound("a.elf".to_owned()).message(),
        "The application executable file 'a.elf' could not be found".to_owned()
    );
    assert_eq!(
        RescGenericFieldError::Empty("name".to_owned()).message(),
        "The field 'name' cannot contain an empty string".to_owned()
    );
    assert_eq!(
        renode_run::platform::PlatformDescriptionError::LocalFileNotFound("p.repl".to_owned())
            .message(),
        "The local platform description file 'p.repl' could not be found".to_owned()
    );
}
