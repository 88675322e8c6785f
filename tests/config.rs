use otp_cache::{Args, Config, Context, ContextError, DeviceModel};

fn config(model: Option<DeviceModel>, no_cache: bool, verbosity: u8) -> Config {
    Config { model, no_cache, verbosity }
}

#[test]
fn defaults_are_empty() {
    assert_eq!(Config::default(), config(None, false, 0));
}

#[test]
fn user_file_alone_is_taken() {
    let user = config(Some(DeviceModel::Storage), true, 2);
    assert_eq!(Config::resolve(Some(user), Config::default()), user);
    assert_eq!(Config::resolve(None, Config::default()), Config::default());
}

#[test]
fn environment_beats_user_file() {
    let user = config(Some(DeviceModel::Storage), false, 2);
    let env = config(Some(DeviceModel::Pro), false, 4);
    assert_eq!(
        Config::resolve(Some(user), env),
        config(Some(DeviceModel::Pro), false, 4)
    );
}

#[test]
fn default_values_do_not_erase() {
    let user = config(Some(DeviceModel::Storage), true, 2);
    let env = config(None, false, 0);
    assert_eq!(Config::resolve(Some(user), env), user);
    let mut c = user;
    c.merge(config(None, false, 7));
    assert_eq!(c, config(Some(DeviceModel::Storage), true, 7));
}

#[test]
fn command_line_beats_all() {
    let user = config(Some(DeviceModel::Storage), false, 2);
    let env = config(None, false, 3);
    let mut c = Config::resolve(Some(user), env);
    c.update(&Args { model: Some(DeviceModel::Pro), no_cache: true, verbose: 5 });
    assert_eq!(c, config(Some(DeviceModel::Pro), true, 5));
    c.update(&Args { model: None, no_cache: false, verbose: 0 });
    assert_eq!(c, config(Some(DeviceModel::Pro), true, 5));
}

#[test]
fn context_from_values() {
    let c = Context::from_values(
        Some("/usr/bin/nitrocli".to_string()),
        Some("storage".to_string()),
        Some("12".to_string()),
    )
    .unwrap();
    assert_eq!(c.nitrocli, "/usr/bin/nitrocli");
    assert_eq!(c.model, DeviceModel::Storage);
    assert_eq!(c.verbosity, 12);
    let plus = Context::from_values(Some("n".into()), Some("pro".into()), Some("+7".into()));
    assert_eq!(plus.unwrap().verbosity, 7);
}

#[test]
fn context_errors() {
    let s = |v: &str| Some(v.to_string());
    assert!(matches!(
        Context::from_values(None, s("pro"), s("1")),
        Err(ContextError::MissingBinary)
    ));
    assert!(matches!(
        Context::from_values(s("n"), None, s("1")),
        Err(ContextError::MissingModel)
    ));
    match Context::from_values(s("n"), s("librem"), s("1")) {
        Err(ContextError::UnknownModel(t)) => assert_eq!(t, "librem"),
        _ => panic!("the model should be refused"),
    }
    assert!(matches!(
        Context::from_values(s("n"), s("pro"), None),
        Err(ContextError::MissingVerbosity)
    ));
    for bad in ["256", "x", "", "-1", " 1"] {
        match Context::from_values(s("n"), s("pro"), s(bad)) {
            Err(ContextError::BadVerbosity(t)) => assert_eq!(t, bad),
            _ => panic!("the verbosity should be refused"),
        }
    }
}
