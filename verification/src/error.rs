use vstd::prelude::*;
use crate::extension::Extension;

verus! {

/// The error type of `serde_json`, declared so that it can stand in a field.
#[verifier::external_type_specification]
#[verifier::external_body]
pub struct ExSerdeJsonError(serde_json::Error);

/// The serializing error type of `ron`, declared so that it can stand in a field.
#[verifier::external_type_specification]
#[verifier::external_body]
pub struct ExRonError(ron::Error);

/// The parsing error type of `ron`, declared so that it can stand in a field.
#[verifier::external_type_specification]
#[verifier::external_body]
pub struct ExRonSpannedError(ron::de::SpannedError);

/// The serializing error type of `toml`, declared so that it can stand in a field.
#[verifier::external_type_specification]
#[verifier::external_body]
pub struct ExTomlSerError(toml::ser::Error);

/// The parsing error type of `toml`, declared so that it can stand in a field.
#[verifier::external_type_specification]
#[verifier::external_body]
pub struct ExTomlDeError(toml::de::Error);

/// The error type of `serde_yaml`, declared so that it can stand in a field.
#[verifier::external_type_specification]
#[verifier::external_body]
pub struct ExSerdeYamlError(serde_yaml::Error);

/// The I/O error type of std, declared so that it can stand in a field.
#[verifier::external_type_specification]
#[verifier::external_body]
pub struct ExIoError(std::io::Error);

/// Everything that can go wrong while loading or storing a configuration
/// file. Each variant carries the underlying cause where one exists; none
/// is ever swallowed or retried.
#[derive(Debug)]
pub enum ConfitError {
    /// The platform resolver yielded no configuration directory.
    MissingConfigDir,
    FailedToSerializeJson(serde_json::Error),
    FailedToSerializeRon(ron::Error),
    FailedToSerializeToml(toml::ser::Error),
    FailedToSerializeYaml(serde_yaml::Error),
    FailedToDeserializeJson(serde_json::Error),
    FailedToDeserializeRon(ron::de::SpannedError),
    FailedToDeserializeToml(toml::de::Error),
    FailedToDeserializeYaml(serde_yaml::Error),
    IoReadFile(std::io::Error),
    IoCreateDir(std::io::Error),
    IoWriteFile(std::io::Error),
}

impl ConfitError {
    /// Whether this is the serializing failure belonging to `extension`.
    pub open spec fn is_serialize_kind(self, extension: Extension) -> bool {
        match (self, extension) {
            (ConfitError::FailedToSerializeJson(_), Extension::Json) => true,
            (ConfitError::FailedToSerializeRon(_), Extension::Ron) => true,
            (ConfitError::FailedToSerializeToml(_), Extension::Toml) => true,
            (ConfitError::FailedToSerializeYaml(_), Extension::Yaml) => true,
            _ => false,
        }
    }

    /// Whether this is the parsing failure belonging to `extension`.
    pub open spec fn is_deserialize_kind(self, extension: Extension) -> bool {
        match (self, extension) {
            (ConfitError::FailedToDeserializeJson(_), Extension::Json) => true,
            (ConfitError::FailedToDeserializeRon(_), Extension::Ron) => true,
            (ConfitError::FailedToDeserializeToml(_), Extension::Toml) => true,
            (ConfitError::FailedToDeserializeYaml(_), Extension::Yaml) => true,
            _ => false,
        }
    }
}

} // verus!
