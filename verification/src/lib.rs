//! Per-application configuration persistence: derive the path of a
//! configuration file under the per-user configuration root, read it back
//! as a caller-supplied record, materialize a serialized default when the
//! file is missing, and overwrite it on demand — over a closed set of
//! text formats. Both operations are specified and verified against an
//! explicit model of the volume they act on.

use vstd::prelude::*;
use vstd::string::StringExecFns;

mod codec;
mod error;
mod extension;
mod fs;

pub use codec::{ConfigData, deserialize, deserialized, serialize, serialized};
pub use error::ConfitError;
pub use extension::Extension;
pub use fs::{ConfigFs, FsModel, str_opt_view};

verus! {

/// The directory that holds one application's configuration files:
/// the configuration root joined with the application's name.
pub open spec fn app_dir_path(root: Seq<char>, app_name: Seq<char>) -> Seq<char> {
    root + "/"@ + app_name
}

/// The path of one configuration file: the application's directory joined
/// with the file's name carrying the extension of its format.
pub open spec fn config_path(
    root: Seq<char>,
    app_name: Seq<char>,
    file_name: Seq<char>,
    extension: Extension,
) -> Seq<char> {
    app_dir_path(root, app_name) + "/"@ + file_name + "."@ + extension.ext_chars()
}

/// Derives the path of the configuration file for `app_name` and
/// `file_name` under `root`, in the format named by `extension`; fails
/// exactly when the directory resolver yielded nothing.
pub fn config_file(
    root: &Option<String>,
    app_name: &str,
    file_name: &str,
    extension: &Extension,
) -> (r: Result<String, ConfitError>)
    ensures
        match *root {
            None => r matches Err(e) && e is MissingConfigDir,
            Some(dir) => r matches Ok(p) && p@ == config_path(
                dir@,
                app_name@,
                file_name@,
                *extension,
            ),
        },
{
    match root {
        None => Err(ConfitError::MissingConfigDir),
        Some(dir) => {
            let mut p = dir.clone();
            p.append("/");
            p.append(app_name);
            p.append("/");
            p.append(file_name);
            p.append(".");
            p.append(extension.as_str());
            Ok(p)
        },
    }
}

/// What one `load_or_init` call does: the state it leaves behind, and the
/// view of the value it yields, or `None` when it fails. An existing file
/// is read and parsed, and nothing changes; a missing one has the
/// application's directory made, the default instance rendered, and — when
/// the rendering succeeds — the text written in full.
pub open spec fn load_or_init_model<T: ConfigData>(
    m: FsModel,
    app_name: Seq<char>,
    file_name: Seq<char>,
    extension: Extension,
) -> (FsModel, Option<T::V>) {
    match m.root {
        None => (m, None),
        Some(root) => {
            let path = config_path(root, app_name, file_name, extension);
            if m.files.contains_key(path) {
                (m, deserialized::<T>(m.files[path], extension))
            } else {
                let m1 = FsModel { dirs: m.dirs.insert(app_dir_path(root, app_name)), ..m };
                match serialized::<T>(T::default_spec(), extension) {
                    Some(text) => (
                        FsModel { files: m1.files.insert(path, text), ..m1 },
                        Some(T::default_spec()),
                    ),
                    None => (m1, None),
                }
            }
        },
    }
}

/// The error kind a failing `load_or_init` call reports: the missing
/// configuration directory, a parsing failure for an existing file, or a
/// rendering failure for a missing one.
pub open spec fn load_or_init_error_kind(
    m: FsModel,
    app_name: Seq<char>,
    file_name: Seq<char>,
    extension: Extension,
    e: ConfitError,
) -> bool {
    match m.root {
        None => e is MissingConfigDir,
        Some(root) => if m.files.contains_key(config_path(root, app_name, file_name, extension)) {
            e.is_deserialize_kind(extension)
        } else {
            e.is_serialize_kind(extension)
        },
    }
}

/// Loads the configuration file for `app_name` and `file_name` in the
/// format named by `extension`, or materializes it from the default
/// instance when it does not exist yet. The call acts on `fs` exactly as
/// `load_or_init_model` says, and fails with the error kind that
/// `load_or_init_error_kind` names.
pub fn load_or_init<T: ConfigData>(
    fs: &mut ConfigFs,
    app_name: &str,
    file_name: &str,
    extension: Extension,
) -> (r: Result<T, ConfitError>)
    ensures
        ({
            let (m2, out) = load_or_init_model::<T>(old(fs)@, app_name@, file_name@, extension);
            &&& final(fs)@ == m2
            &&& match r {
                Ok(v) => out == Some(v@),
                Err(e) => out is None && load_or_init_error_kind(
                    old(fs)@,
                    app_name@,
                    file_name@,
                    extension,
                    e,
                ),
            }
        }),
{
    let path: String = match config_file(fs.root_dir(), app_name, file_name, &extension) {
        Ok(p) => p,
        Err(e) => {
            return Err(e);
        },
    };
    if fs.contains_file(path.as_str()) {
        match fs.file_text(path.as_str()) {
            Some(text) => deserialize::<T>(text.as_str(), extension),
            None => unreached(),
        }
    } else {
        let app_dir: String = match fs.root_dir() {
            Some(dir) => {
                let mut s = dir.clone();
                s.append("/");
                s.append(app_name);
                s
            },
            None => unreached(),
        };
        fs.create_dir(app_dir);
        let config = T::default_value();
        match serialize(&config, extension) {
            Ok(text) => {
                fs.write_file(path, text);
                Ok(config)
            },
            Err(e) => Err(e),
        }
    }
}

/// What one `store` call does: the state it leaves behind, and whether it
/// succeeded. The application's directory is made when the file does not
/// exist yet; the value's rendering then replaces the file's text in full
/// — no merge with what was there.
pub open spec fn store_model<T: ConfigData>(
    m: FsModel,
    app_name: Seq<char>,
    file_name: Seq<char>,
    extension: Extension,
    v: T::V,
) -> (FsModel, bool) {
    match m.root {
        None => (m, false),
        Some(root) => {
            let path = config_path(root, app_name, file_name, extension);
            let m1 = if !m.files.contains_key(path) {
                FsModel { dirs: m.dirs.insert(app_dir_path(root, app_name)), ..m }
            } else {
                m
            };
            match serialized::<T>(v, extension) {
                Some(text) => (FsModel { files: m1.files.insert(path, text), ..m1 }, true),
                None => (m1, false),
            }
        },
    }
}

/// The error kind a failing `store` call reports: the missing
/// configuration directory, or a rendering failure.
pub open spec fn store_error_kind(m: FsModel, extension: Extension, e: ConfitError) -> bool {
    match m.root {
        None => e is MissingConfigDir,
        Some(_) => e.is_serialize_kind(extension),
    }
}

/// Writes `config` to the configuration file for `app_name` and
/// `file_name` in the format named by `extension`, replacing any previous
/// text in full. The call acts on `fs` exactly as `store_model` says, and
/// fails with the error kind that `store_error_kind` names.
pub fn store<T: ConfigData>(
    fs: &mut ConfigFs,
    app_name: &str,
    file_name: &str,
    extension: Extension,
    config: T,
) -> (r: Result<(), ConfitError>)
    ensures
        ({
            let (m2, ok) = store_model::<T>(old(fs)@, app_name@, file_name@, extension, config@);
            &&& final(fs)@ == m2
            &&& match r {
                Ok(_) => ok,
                Err(e) => !ok && store_error_kind(old(fs)@, extension, e),
            }
        }),
{
    let path: String = match config_file(fs.root_dir(), app_name, file_name, &extension) {
        Ok(p) => p,
        Err(e) => {
            return Err(e);
        },
    };
    if !fs.contains_file(path.as_str()) {
        let app_dir: String = match fs.root_dir() {
            Some(dir) => {
                let mut s = dir.clone();
                s.append("/");
                s.append(app_name);
                s
            },
            None => unreached(),
        };
        fs.create_dir(app_dir);
    }
    match serialize(&config, extension) {
        Ok(text) => {
            fs.write_file(path, text);
            Ok(())
        },
        Err(e) => Err(e),
    }
}

/// When the directory resolver yields nothing, both operations fail and
/// leave every file and directory untouched.
pub proof fn lemma_missing_config_dir<T: ConfigData>(
    m: FsModel,
    app_name: Seq<char>,
    file_name: Seq<char>,
    extension: Extension,
    v: T::V,
)
    requires
        m.root is None,
    ensures
        load_or_init_model::<T>(m, app_name, file_name, extension) == (m, Option::<T::V>::None),
        store_model::<T>(m, app_name, file_name, extension, v) == (m, false),
{
}

/// On a path where no file exists yet, `load_or_init` yields the default
/// instance, and afterwards the file exists and holds the default's
/// rendering — provided the format can render the default at all.
pub proof fn lemma_load_or_init_fresh<T: ConfigData>(
    m: FsModel,
    app_name: Seq<char>,
    file_name: Seq<char>,
    extension: Extension,
)
    requires
        m.root matches Some(root) && !m.files.contains_key(
            config_path(root, app_name, file_name, extension),
        ),
        serialized::<T>(T::default_spec(), extension) is Some,
    ensures
        ({
            let path = config_path(m.root.unwrap(), app_name, file_name, extension);
            let (m2, out) = load_or_init_model::<T>(m, app_name, file_name, extension);
            &&& out == Some(T::default_spec())
            &&& m2.files.contains_key(path)
            &&& m2.files[path] == serialized::<T>(T::default_spec(), extension).unwrap()
            &&& m2.dirs.contains(app_dir_path(m.root.unwrap(), app_name))
        }),
{
}

/// Two `load_or_init` calls in a row come to the same outcome, and the
/// second changes nothing: the round-trip law is what lets the second
/// call read back exactly what the first one wrote.
pub proof fn lemma_load_or_init_idempotent<T: ConfigData>(
    m: FsModel,
    app_name: Seq<char>,
    file_name: Seq<char>,
    extension: Extension,
)
    ensures
        ({
            let (m1, r1) = load_or_init_model::<T>(m, app_name, file_name, extension);
            let (m2, r2) = load_or_init_model::<T>(m1, app_name, file_name, extension);
            &&& m2 == m1
            &&& r2 == r1
        }),
{
    T::round_trip(T::default_spec());
    match m.root {
        None => {},
        Some(root) => {
            let path = config_path(root, app_name, file_name, extension);
            if !m.files.contains_key(path) {
                let app_dir = app_dir_path(root, app_name);
                let m1 = load_or_init_model::<T>(m, app_name, file_name, extension).0;
                if serialized::<T>(T::default_spec(), extension) is None {
                    assert(m1.dirs.insert(app_dir) =~= m1.dirs);
                    assert(load_or_init_model::<T>(m1, app_name, file_name, extension).0 =~= m1);
                }
            }
        },
    }
}

/// A value stored successfully is exactly what `load_or_init` then finds:
/// the file holds the value's rendering, not any earlier text, and by the
/// round-trip law the call yields that value back.
pub proof fn lemma_store_then_load_or_init<T: ConfigData>(
    m: FsModel,
    app_name: Seq<char>,
    file_name: Seq<char>,
    extension: Extension,
    v: T::V,
)
    ensures
        ({
            let (m1, ok) = store_model::<T>(m, app_name, file_name, extension, v);
            ok ==> {
                &&& m1.files[config_path(m.root.unwrap(), app_name, file_name, extension)]
                    == serialized::<T>(v, extension).unwrap()
                &&& load_or_init_model::<T>(m1, app_name, file_name, extension) == (
                    m1,
                    Some(v),
                )
            }
        }),
{
    T::round_trip(v);
}

} // verus!
