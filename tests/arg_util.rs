use otp_cache::{Command, DeviceModel};

#[test]
fn all_variants() {
    assert_eq!(
        Command::all_variants(),
        [Command::Var1, Command::Var2, Command::Var3]
    )
}

#[test]
fn text_representations() {
    assert_eq!(Command::Var1.as_ref(), "var1");
    assert_eq!(Command::Var2.as_ref(), "2");
    assert_eq!(Command::Var3.as_ref(), "crazy");
}

#[test]
fn device_model_texts() {
    assert_eq!(DeviceModel::all_variants(), [DeviceModel::Pro, DeviceModel::Storage]);
    assert_eq!(DeviceModel::all_str(), ["pro", "storage"]);
    assert_eq!(DeviceModel::Storage.as_ref(), "storage");
    assert_eq!(DeviceModel::from_str("pro").unwrap(), DeviceModel::Pro);
    assert_eq!(DeviceModel::from_str("storage").unwrap(), DeviceModel::Storage);
    let e = DeviceModel::from_str("librem").unwrap_err();
    assert_eq!(e.expected, "expected one of pro, storage");
    assert!(DeviceModel::from_str("Pro").is_err());
}
