use renode_run::envsub::envsub;
use renode_run::envsub::EnvSubError;
use renode_run::envsub::EnvTable;

#[test]
fn env_sub_defaults() {
    let env = EnvTable::new();
    assert_eq!(envsub("${NOT_SET_KEY:-foo}", &env).unwrap(), "foo".to_owned());
    assert_eq!(envsub("${NOT_SET_KEY:-1}", &env).unwrap(), "1".to_owned());
    assert_eq!(envsub("${NOT_SET_VAL-2}", &env).unwrap(), "2".to_owned());
    assert_eq!(envsub("${NOT_SET_KEY-bar}", &env).unwrap(), "bar".to_owned());
}

#[test]
fn env_sub() {
    let mut env = EnvTable::new();
    env.push_var("CARGO_PKG_VERSION", "0.1.0");
    assert_eq!(envsub("${CARGO_PKG_VERSION}", &env).unwrap(), "0.1.0".to_owned());

    assert_eq!(
        envsub("No brackets $CARGO_PKG_VERSION", &env).unwrap(),
        "No brackets $CARGO_PKG_VERSION".to_owned(),
    );
}

#[test]
fn env_sub_errors() {
    let env = EnvTable::new();
    assert_eq!(
        envsub("${NOT_SET_KEY}", &env),
        Err(EnvSubError::EnvVarNotPresent("NOT_SET_KEY".to_owned()))
    );
}

#[test]
fn env_sub_not_unicode() {
    let mut env = EnvTable::new();
    env.push_not_unicode("BAD");
    assert_eq!(
        envsub("${BAD}", &env),
        Err(EnvSubError::EnvVarNotUnicode("BAD".to_owned()))
    );
    // a default does not rescue a set-but-invalid value
    assert_eq!(
        envsub("${BAD-fallback}", &env),
        Err(EnvSubError::EnvVarNotUnicode("BAD".to_owned()))
    );
}

#[test]
fn env_sub_set_value_wins_over_default() {
    let mut env = EnvTable::new();
    env.push_var("X", "value");
    assert_eq!(envsub("${X}", &env).unwrap(), "value".to_owned());
    assert_eq!(envsub("${X-default}", &env).unwrap(), "value".to_owned());
    assert_eq!(envsub("${X:-default}", &env).unwrap(), "value".to_owned());
}

#[test]
fn env_sub_surrounding_text() {
    let mut env = EnvTable::new();
    env.push_var("A", "1");
    env.push_var("B", "2");
    assert_eq!(envsub("a=${A}, b=${B}!", &env).unwrap(), "a=1, b=2!".to_owned());
}

#[test]
fn env_sub_malformed_tokens_left_alone() {
    let mut env = EnvTable::new();
    env.push_var("A", "1");
    // no name, unmatched brace, name starting with a digit: no token matches
    assert_eq!(envsub("${}", &env).unwrap(), "${}".to_owned());
    assert_eq!(envsub("${A", &env).unwrap(), "${A".to_owned());
    assert_eq!(envsub("${1BAD}", &env).unwrap(), "${1BAD}".to_owned());
    assert_eq!(envsub("$A", &env).unwrap(), "$A".to_owned());
}

#[test]
fn env_sub_default_not_recursive() {
    let env = EnvTable::new();
    // the default is literal text: a further token inside it is not resolved
    assert_eq!(envsub("${U-$v}", &env).unwrap(), "$v".to_owned());
}

#[test]
fn env_sub_empty_default() {
    let env = EnvTable::new();
    assert_eq!(envsub("x${U-}y", &env).unwrap(), "xy".to_owned());
}

#[test]
fn env_sub_idempotent_on_token_free_output() {
    let mut env = EnvTable::new();
    env.push_var("A", "alpha");
    let once = envsub("${A} and ${B-beta}", &env).unwrap();
    assert_eq!(once, "alpha and beta".to_owned());
    let twice = envsub(once.as_str(), &env).unwrap();
    assert_eq!(twice, once);
}

#[test]
fn env_sub_first_binding_wins() {
    let mut env = EnvTable::new();
    env.push_var("A", "first");
    env.push_var("A", "second");
    assert_eq!(envsub("${A}", &env).unwrap(), "first".to_owned());
}
