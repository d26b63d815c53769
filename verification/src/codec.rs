use vstd::prelude::*;
use crate::error::ConfitError;
use crate::extension::Extension;

verus! {

/// A configuration value: something with a default instance and a
/// serializer/parser pair for every supported format. Callers implement
/// this for their own record types, usually by handing each method to the
/// format's library; the abstract spec functions name what those libraries
/// yield, so that the store's contracts can speak about file contents.
///
/// Each renderer either succeeds with one determined text (`Some`) or is
/// rejected for that value (`None`); each parser either accepts a text as
/// one determined value or rejects it wholesale. An implementation's
/// methods must return `Ok` exactly on the `Some` side of its spec.
pub trait ConfigData: View + Sized {
    /// The pretty-printed rendering of a value as JSON, if it has one.
    spec fn json_of(v: Self::V) -> Option<Seq<char>>;

    /// The pretty-printed rendering of a value as RON, if it has one.
    spec fn ron_of(v: Self::V) -> Option<Seq<char>>;

    /// The pretty-printed rendering of a value as TOML, if it has one.
    spec fn toml_of(v: Self::V) -> Option<Seq<char>>;

    /// The rendering of a value as YAML, if it has one.
    spec fn yaml_of(v: Self::V) -> Option<Seq<char>>;

    /// The value a JSON text parses to, if it parses.
    spec fn of_json(text: Seq<char>) -> Option<Self::V>;

    /// The value a RON text parses to, if it parses.
    spec fn of_ron(text: Seq<char>) -> Option<Self::V>;

    /// The value a TOML text parses to, if it parses.
    spec fn of_toml(text: Seq<char>) -> Option<Self::V>;

    /// The value a YAML text parses to, if it parses.
    spec fn of_yaml(text: Seq<char>) -> Option<Self::V>;

    /// The default instance.
    spec fn default_spec() -> Self::V;

    /// Produces the default instance.
    fn default_value() -> (r: Self)
        ensures
            r@ == Self::default_spec(),
    ;

    fn to_json(&self) -> (r: Result<String, serde_json::Error>)
        ensures
            match r {
                Ok(s) => Self::json_of(self@) == Some(s@),
                Err(_) => Self::json_of(self@) is None,
            },
    ;

    fn to_ron(&self) -> (r: Result<String, ron::Error>)
        ensures
            match r {
                Ok(s) => Self::ron_of(self@) == Some(s@),
                Err(_) => Self::ron_of(self@) is None,
            },
    ;

    fn to_toml(&self) -> (r: Result<String, toml::ser::Error>)
        ensures
            match r {
                Ok(s) => Self::toml_of(self@) == Some(s@),
                Err(_) => Self::toml_of(self@) is None,
            },
    ;

    fn to_yaml(&self) -> (r: Result<String, serde_yaml::Error>)
        ensures
            match r {
                Ok(s) => Self::yaml_of(self@) == Some(s@),
                Err(_) => Self::yaml_of(self@) is None,
            },
    ;

    fn from_json(text: &str) -> (r: Result<Self, serde_json::Error>)
        ensures
            match r {
                Ok(v) => Self::of_json(text@) == Some(v@),
                Err(_) => Self::of_json(text@) is None,
            },
    ;

    fn from_ron(text: &str) -> (r: Result<Self, ron::de::SpannedError>)
        ensures
            match r {
                Ok(v) => Self::of_ron(text@) == Some(v@),
                Err(_) => Self::of_ron(text@) is None,
            },
    ;

    fn from_toml(text: &str) -> (r: Result<Self, toml::de::Error>)
        ensures
            match r {
                Ok(v) => Self::of_toml(text@) == Some(v@),
                Err(_) => Self::of_toml(text@) is None,
            },
    ;

    fn from_yaml(text: &str) -> (r: Result<Self, serde_yaml::Error>)
        ensures
            match r {
                Ok(v) => Self::of_yaml(text@) == Some(v@),
                Err(_) => Self::of_yaml(text@) is None,
            },
    ;

    /// The round-trip law every codec owes: a text that a format rendered
    /// for a value parses back, in that format, to that value.
    proof fn round_trip(v: Self::V)
        ensures
            Self::json_of(v) matches Some(text) ==> Self::of_json(text) == Some(v),
            Self::ron_of(v) matches Some(text) ==> Self::of_ron(text) == Some(v),
            Self::toml_of(v) matches Some(text) ==> Self::of_toml(text) == Some(v),
            Self::yaml_of(v) matches Some(text) ==> Self::of_yaml(text) == Some(v),
    ;
}

/// The rendering of `v` in the format named by `extension`, if it has one.
pub open spec fn serialized<T: ConfigData>(v: T::V, extension: Extension) -> Option<Seq<char>> {
    match extension {
        Extension::Json => T::json_of(v),
        Extension::Ron => T::ron_of(v),
        Extension::Toml => T::toml_of(v),
        Extension::Yaml => T::yaml_of(v),
    }
}

/// The value `text` parses to in the format named by `extension`, if it parses.
pub open spec fn deserialized<T: ConfigData>(text: Seq<char>, extension: Extension) -> Option<T::V> {
    match extension {
        Extension::Json => T::of_json(text),
        Extension::Ron => T::of_ron(text),
        Extension::Toml => T::of_toml(text),
        Extension::Yaml => T::of_yaml(text),
    }
}

/// Renders `config` as pretty-printed text in the format named by
/// `extension`, reporting a failure as the serializing error kind of that
/// format, with the underlying cause.
pub fn serialize<T: ConfigData>(config: &T, extension: Extension) -> (r: Result<String, ConfitError>)
    ensures
        match r {
            Ok(s) => serialized::<T>(config@, extension) == Some(s@),
            Err(e) => serialized::<T>(config@, extension) is None && e.is_serialize_kind(
                extension,
            ),
        },
{
    match extension {
        Extension::Json => match config.to_json() {
            Ok(s) => Ok(s),
            Err(e) => Err(ConfitError::FailedToSerializeJson(e)),
        },
        Extension::Ron => match config.to_ron() {
            Ok(s) => Ok(s),
            Err(e) => Err(ConfitError::FailedToSerializeRon(e)),
        },
        Extension::Toml => match config.to_toml() {
            Ok(s) => Ok(s),
            Err(e) => Err(ConfitError::FailedToSerializeToml(e)),
        },
        Extension::Yaml => match config.to_yaml() {
            Ok(s) => Ok(s),
            Err(e) => Err(ConfitError::FailedToSerializeYaml(e)),
        },
    }
}

/// Parses `config` as the format named by `extension`, reporting a failure
/// as the parsing error kind of that format, with the underlying cause.
/// Malformed input is rejected wholesale; nothing is parsed partially.
pub fn deserialize<T: ConfigData>(config: &str, extension: Extension) -> (r: Result<
    T,
    ConfitError,
>)
    ensures
        match r {
            Ok(v) => deserialized::<T>(config@, extension) == Some(v@),
            Err(e) => deserialized::<T>(config@, extension) is None && e.is_deserialize_kind(
                extension,
            ),
        },
{
    match extension {
        Extension::Json => match T::from_json(config) {
            Ok(v) => Ok(v),
            Err(e) => Err(ConfitError::FailedToDeserializeJson(e)),
        },
        Extension::Ron => match T::from_ron(config) {
            Ok(v) => Ok(v),
            Err(e) => Err(ConfitError::FailedToDeserializeRon(e)),
        },
        Extension::Toml => match T::from_toml(config) {
            Ok(v) => Ok(v),
            Err(e) => Err(ConfitError::FailedToDeserializeToml(e)),
        },
        Extension::Yaml => match T::from_yaml(config) {
            Ok(v) => Ok(v),
            Err(e) => Err(ConfitError::FailedToDeserializeYaml(e)),
        },
    }
}

} // verus!
