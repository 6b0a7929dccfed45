use proto::rustup::{plan_toolchain, toolchain_is_listed, RustLanguage, ToolchainAction};

#[test]
fn install_dir_joins_version_and_triple() {
    let mut tool = RustLanguage::new(&"/home/dev/.rustup/toolchains".to_string());
    assert_eq!(tool.get_install_dir(&"aarch64-apple-darwin".to_string()), None);
    tool.version = Some("1.68.0".to_string());
    assert_eq!(
        tool.get_install_dir(&"aarch64-apple-darwin".to_string()),
        Some("/home/dev/.rustup/toolchains/1.68.0-aarch64-apple-darwin".to_string())
    );
}

#[test]
fn listing_detects_installed_toolchains() {
    let listing = "stable-x86_64-unknown-linux-gnu (default)\n1.68.0-x86_64-unknown-linux-gnu\n"
        .to_string();
    assert!(toolchain_is_listed(&listing, &"1.68.0-x86_64-unknown-linux-gnu".to_string()));
    assert!(!toolchain_is_listed(&listing, &"1.99.0-x86_64-unknown-linux-gnu".to_string()));
    assert!(!toolchain_is_listed(&String::new(), &"anything".to_string()));
}

#[test]
fn toolchain_work_happens_at_most_once() {
    assert_eq!(plan_toolchain(true, true), ToolchainAction::Nothing);
    assert_eq!(plan_toolchain(false, true), ToolchainAction::RunCommand);
    assert_eq!(plan_toolchain(false, false), ToolchainAction::Nothing);
    assert_eq!(plan_toolchain(true, false), ToolchainAction::RunCommand);
}
