//! Deployment settings: what a settings file may leave open, and the
//! complete settings that are made of it.

use crate::text::str_eq;
use vstd::prelude::*;

verus! {

/// How a build is brought to the game.
#[derive(Clone, Copy, Debug, PartialEq, Eq, Structural)]
pub enum DeployMode {
    /// The files are copied into a directory.
    Copy,
    /// The files are sent to a server.
    Upload,
}

impl Default for DeployMode {
    fn default() -> (mode: DeployMode)
        ensures
            mode == DeployMode::Upload,
    {
        DeployMode::Upload
    }
}

/// Where to copy a build.
#[derive(Clone, Debug, PartialEq, Eq)]
pub struct CopyConfiguration {
    pub dest: String,
    pub prune: bool,
}

/// The server settings as a settings file holds them: any of them may be
/// missing.
#[derive(Clone, Debug, PartialEq, Eq)]
pub struct FileUploadConfiguration {
    pub username: Option<String>,
    pub password: Option<String>,
    pub hostname: Option<String>,
    pub ssl: Option<bool>,
    pub port: Option<i32>,
    pub ptr: bool,
}

/// A settings file as it was read. The server settings may stand at the top
/// level of the file (`old_upload`) or in a section of their own (`upload`).
#[derive(Clone, Debug, PartialEq, Eq)]
pub struct FileConfiguration {
    pub mode: DeployMode,
    pub branch: Option<String>,
    pub output_wasm_file: Option<String>,
    pub output_js_file: Option<String>,
    pub old_upload: FileUploadConfiguration,
    pub upload: Option<FileUploadConfiguration>,
    pub copy: Option<CopyConfiguration>,
}

/// Complete server settings.
#[derive(Clone, Debug, PartialEq, Eq)]
pub struct UploadConfiguration {
    pub username: String,
    pub password: String,
    pub hostname: String,
    pub ssl: bool,
    pub port: i32,
    pub ptr: bool,
}

/// Complete deployment settings.
#[derive(Clone, Debug, PartialEq, Eq)]
pub struct Configuration {
    pub branch: String,
    pub output_wasm_file: String,
    pub output_js_file: String,
    pub mode: DeployMode,
    pub copy: Option<CopyConfiguration>,
    pub upload: Option<UploadConfiguration>,
}

/// What a settings file must not leave open.
#[derive(Clone, Copy, Debug, PartialEq, Eq, Structural)]
pub enum ConfigError {
    MissingUsername,
    MissingPassword,
}

/// The text of a setting: what the file gives, or else `fallback`.
pub open spec fn text_or(given: Option<String>, fallback: Seq<char>) -> Seq<char> {
    match given {
        Some(text) => text@,
        None => fallback,
    }
}

/// The host that the settings name: the official server unless the file
/// names another.
pub open spec fn effective_hostname(file: FileUploadConfiguration) -> Seq<char> {
    text_or(file.hostname, "screeps.com"@)
}

/// Whether the connection is encrypted: as the file says, and otherwise
/// exactly for the official server.
pub open spec fn effective_ssl(file: FileUploadConfiguration) -> bool {
    match file.ssl {
        Some(ssl) => ssl,
        None => effective_hostname(file) == "screeps.com"@,
    }
}

/// The port of the connection: as the file says, and otherwise the usual
/// port of an encrypted or a plain connection.
pub open spec fn effective_port(file: FileUploadConfiguration) -> i32 {
    match file.port {
        Some(port) => port,
        None => if effective_ssl(file) {
            443
        } else {
            80
        },
    }
}

/// What is missing from the server settings of a file, if anything: the
/// user name is looked for before the password.
pub open spec fn missing_credential(file: FileUploadConfiguration) -> Option<ConfigError> {
    if file.username is None {
        Some(ConfigError::MissingUsername)
    } else if file.password is None {
        Some(ConfigError::MissingPassword)
    } else {
        None
    }
}

/// Whether `upload` is what `file` amounts to once every open setting has
/// its fallback.
pub open spec fn completes_upload(upload: UploadConfiguration, file: FileUploadConfiguration) -> bool {
    &&& file.username matches Some(username) && upload.username@ == username@
    &&& file.password matches Some(password) && upload.password@ == password@
    &&& upload.hostname@ == effective_hostname(file)
    &&& upload.ssl == effective_ssl(file)
    &&& upload.port == effective_port(file)
    &&& upload.ptr == file.ptr
}

/// The server settings that count in a file: the section of their own
/// where there is one, and otherwise those at the top level.
pub open spec fn chosen_upload(file: FileConfiguration) -> FileUploadConfiguration {
    match file.upload {
        Some(upload) => upload,
        None => file.old_upload,
    }
}

/// Whether `config` is what `file` amounts to once every open setting has
/// its fallback.
pub open spec fn completes(config: Configuration, file: FileConfiguration) -> bool {
    &&& config.branch@ == text_or(file.branch, "default"@)
    &&& config.output_js_file@ == text_or(file.output_js_file, "main.js"@)
    &&& config.output_wasm_file@ == text_or(file.output_wasm_file, "compiled.wasm"@)
    &&& config.mode == file.mode
    &&& config.copy == file.copy
    &&& config.upload matches Some(upload) && completes_upload(upload, chosen_upload(file))
}

/// What the file gives for a setting, or else `fallback`.
fn or_text(given: Option<String>, fallback: &str) -> (text: String)
    ensures
        text@ == text_or(given, fallback@),
{
    match given {
        Some(text) => text,
        None => fallback.to_owned(),
    }
}

impl vstd::std_specs::convert::TryFromSpecImpl<FileUploadConfiguration> for UploadConfiguration {
    open spec fn obeys_try_from_spec() -> bool {
        false
    }

    open spec fn try_from_spec(file: FileUploadConfiguration) -> Result<Self, Self::Error> {
        arbitrary()
    }
}

impl TryFrom<FileUploadConfiguration> for UploadConfiguration {
    type Error = ConfigError;

    /// Completes the server settings of a file. The user name and the
    /// password have no fallback: without either the settings are refused.
    fn try_from(file: FileUploadConfiguration) -> (made: Result<UploadConfiguration, ConfigError>)
        ensures
            match made {
                Ok(upload) => missing_credential(file) is None && completes_upload(upload, file),
                Err(e) => missing_credential(file) == Some(e),
            },
    {
        let FileUploadConfiguration { username, password, hostname, ssl, port, ptr } = file;
        let hostname = or_text(hostname, "screeps.com");
        let ssl = match ssl {
            Some(ssl) => ssl,
            None => str_eq(hostname.as_str(), "screeps.com"),
        };
        let port: i32 = match port {
            Some(port) => port,
            None => if ssl {
                443
            } else {
                80
            },
        };
        let username = match username {
            Some(username) => username,
            None => return Err(ConfigError::MissingUsername),
        };
        let password = match password {
            Some(password) => password,
            None => return Err(ConfigError::MissingPassword),
        };
        Ok(UploadConfiguration { username, password, hostname, ssl, port, ptr })
    }
}

impl vstd::std_specs::convert::TryFromSpecImpl<FileConfiguration> for Configuration {
    open spec fn obeys_try_from_spec() -> bool {
        false
    }

    open spec fn try_from_spec(file: FileConfiguration) -> Result<Self, Self::Error> {
        arbitrary()
    }
}

impl TryFrom<FileConfiguration> for Configuration {
    type Error = ConfigError;

    /// Completes the settings of a file. Server settings are made even
    /// where the build is only copied, so a file without credentials is
    /// refused whatever its mode.
    fn try_from(file: FileConfiguration) -> (made: Result<Configuration, ConfigError>)
        ensures
            match made {
                Ok(config) => missing_credential(chosen_upload(file)) is None && completes(
                    config,
                    file,
                ),
                Err(e) => missing_credential(chosen_upload(file)) == Some(e),
            },
    {
        let FileConfiguration {
            mode,
            branch,
            output_wasm_file,
            output_js_file,
            old_upload,
            upload,
            copy,
        } = file;
        let chosen = match upload {
            Some(upload) => upload,
            None => old_upload,
        };
        let upload = match UploadConfiguration::try_from(chosen) {
            Ok(upload) => upload,
            Err(e) => return Err(e),
        };
        let branch = or_text(branch, "default");
        let output_js_file = or_text(output_js_file, "main.js");
        let output_wasm_file = or_text(output_wasm_file, "compiled.wasm");
        Ok(
            Configuration {
                branch,
                mode,
                upload: Some(upload),
                copy,
                output_js_file,
                output_wasm_file,
            },
        )
    }
}

} // verus!
