use screeps_game_api::config::{
    ConfigError, Configuration, CopyConfiguration, DeployMode, FileConfiguration,
    FileUploadConfiguration, UploadConfiguration,
};

fn bare_upload() -> FileUploadConfiguration {
    FileUploadConfiguration {
        username: Some(String::from("me")),
        password: Some(String::from("SECRET-REDACTED")),
        hostname: None,
        ssl: None,
        port: None,
        ptr: false,
    }
}

fn bare_file() -> FileConfiguration {
    FileConfiguration {
        mode: DeployMode::default(),
        branch: None,
        output_wasm_file: None,
        output_js_file: None,
        old_upload: bare_upload(),
        upload: None,
        copy: None,
    }
}

#[test]
fn upload_defaults_for_the_official_server() {
    let made = UploadConfiguration::try_from(bare_upload()).unwrap();
    assert_eq!(
        made,
        UploadConfiguration {
            username: String::from("me"),
            password: String::from("SECRET-REDACTED"),
            hostname: String::from("screeps.com"),
            ssl: true,
            port: 443,
            ptr: false,
        }
    );
}

#[test]
fn upload_defaults_for_a_private_server() {
    let mut file = bare_upload();
    file.hostname = Some(String::from("example.org"));
    file.ptr = true;
    let made = UploadConfiguration::try_from(file).unwrap();
    assert_eq!(made.hostname, "example.org");
    assert!(!made.ssl);
    assert_eq!(made.port, 80);
    assert!(made.ptr);
}

#[test]
fn upload_keeps_what_the_file_says() {
    let mut file = bare_upload();
    file.hostname = Some(String::from("example.org"));
    file.ssl = Some(true);
    let made = UploadConfiguration::try_from(file).unwrap();
    assert!(made.ssl);
    assert_eq!(made.port, 443);

    let mut file = bare_upload();
    file.ssl = Some(false);
    let made = UploadConfiguration::try_from(file).unwrap();
    assert_eq!(made.hostname, "screeps.com");
    assert!(!made.ssl);
    assert_eq!(made.port, 80);

    let mut file = bare_upload();
    file.port = Some(21025);
    let made = UploadConfiguration::try_from(file).unwrap();
    assert!(made.ssl);
    assert_eq!(made.port, 21025);
}

#[test]
fn upload_needs_both_credentials() {
    let mut file = bare_upload();
    file.username = None;
    assert_eq!(UploadConfiguration::try_from(file), Err(ConfigError::MissingUsername));
    let mut file = bare_upload();
    file.password = None;
    assert_eq!(UploadConfiguration::try_from(file), Err(ConfigError::MissingPassword));
    let mut file = bare_upload();
    file.username = None;
    file.password = None;
    assert_eq!(UploadConfiguration::try_from(file), Err(ConfigError::MissingUsername));
}

#[test]
fn configuration_defaults() {
    let made = Configuration::try_from(bare_file()).unwrap();
    assert_eq!(made.branch, "default");
    assert_eq!(made.output_js_file, "main.js");
    assert_eq!(made.output_wasm_file, "compiled.wasm");
    assert_eq!(made.mode, DeployMode::Upload);
    assert_eq!(made.copy, None);
    assert_eq!(made.upload, Some(UploadConfiguration::try_from(bare_upload()).unwrap()));
}

#[test]
fn configuration_prefers_the_upload_section() {
    let mut file = bare_file();
    let mut section = bare_upload();
    section.username = Some(String::from("other"));
    section.hostname = Some(String::from("example.org"));
    file.upload = Some(section);
    file.branch = Some(String::from("sim"));
    file.output_js_file = Some(String::from("out.js"));
    file.output_wasm_file = Some(String::from("out.wasm"));
    file.mode = DeployMode::Copy;
    file.copy = Some(CopyConfiguration { dest: String::from("/tmp/x"), prune: true });
    let made = Configuration::try_from(file).unwrap();
    let upload = made.upload.unwrap();
    assert_eq!(upload.username, "other");
    assert_eq!(upload.hostname, "example.org");
    assert_eq!(upload.port, 80);
    assert_eq!(made.branch, "sim");
    assert_eq!(made.output_js_file, "out.js");
    assert_eq!(made.output_wasm_file, "out.wasm");
    assert_eq!(made.mode, DeployMode::Copy);
    assert_eq!(made.copy, Some(CopyConfiguration { dest: String::from("/tmp/x"), prune: true }));
}

#[test]
fn configuration_needs_credentials_in_the_section_that_counts() {
    let mut file = bare_file();
    let mut section = bare_upload();
    section.password = None;
    file.upload = Some(section);
    assert_eq!(Configuration::try_from(file), Err(ConfigError::MissingPassword));

    let mut file = bare_file();
    file.old_upload.username = None;
    file.mode = DeployMode::Copy;
    assert_eq!(Configuration::try_from(file), Err(ConfigError::MissingUsername));

    let mut file = bare_file();
    file.old_upload.username = None;
    file.upload = Some(bare_upload());
    assert!(Configuration::try_from(file).is_ok());
}
