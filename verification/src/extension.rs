use vstd::prelude::*;

verus! {

/// The closed set of text formats a configuration file can be kept in.
/// The tag picks both the serializer pair and the file extension.
#[derive(Clone, Copy, Debug, PartialEq, Eq, Structural)]
pub enum Extension {
    Json,
    Ron,
    Toml,
    Yaml,
}

impl Extension {
    /// The file extension belonging to this format, as a sequence of characters.
    pub open spec fn ext_chars(self) -> Seq<char> {
        match self {
            Extension::Json => "json"@,
            Extension::Ron => "ron"@,
            Extension::Toml => "toml"@,
            Extension::Yaml => "yaml"@,
        }
    }

    /// The file extension belonging to this format: `json`, `ron`, `toml` or `yaml`.
    pub fn as_str(&self) -> (r: &'static str)
        ensures
            r@ == self.ext_chars(),
    {
        match self {
            Extension::Json => "json",
            Extension::Ron => "ron",
            Extension::Toml => "toml",
            Extension::Yaml => "yaml",
        }
    }
}

} // verus!
