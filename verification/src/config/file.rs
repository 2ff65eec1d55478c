//! Where a declarative file may stand, and in which format it is written.
use crate::fs::IoError;
use crate::paths::{
    extension, extension_spec, join, spec_join, with_extension, with_extension_spec,
};
use crate::text::{is_lowercase_of, lowercase_spec};
use vstd::prelude::*;

verus! {

/// The format a declarative file is written in.
#[derive(Debug, Clone, Copy, PartialEq, Eq, Structural)]
pub enum ConfigFormat {
    Json,
    Yaml,
}

/// Why a declarative file could not be read.
#[derive(Debug, PartialEq, Eq)]
pub enum ConfigFileReadError {
    /// The file could not be opened or read.
    Io(IoError),
    /// The file is no valid JSON document of the expected shape.
    JsonParsing(String),
    /// The file is no valid YAML document of the expected shape.
    YamlParsing(String),
}

/// A kind of declarative file: its name relative to the directory it is
/// looked for in, and the format it has when its name has no extension.
#[derive(Debug, PartialEq, Eq)]
pub struct ConfigType {
    pub path: String,
    pub default_format: Option<ConfigFormat>,
}

/// A file to read, with the format to read it in.
#[derive(Debug, PartialEq, Eq)]
pub struct ConfigFilePath {
    pub path: String,
    pub format: ConfigFormat,
}

pub struct ConfigFilePathView {
    pub path: Seq<char>,
    pub format: ConfigFormat,
}

impl View for ConfigFilePath {
    type V = ConfigFilePathView;

    open spec fn view(&self) -> ConfigFilePathView {
        ConfigFilePathView { path: self.path@, format: self.format }
    }
}

/// An opened file, with the format to read it in.
#[derive(Debug)]
pub struct ConfigFile<H> {
    pub file: H,
    pub format: ConfigFormat,
}

/// Opens files for reading. The trait promises nothing of the outcome.
pub trait FileSource {
    /// What an opened file is held by.
    type Handle;

    /// Opens the file at `path`; a file that is not there is no error.
    fn try_open(&self, path: &str) -> Result<Option<Self::Handle>, ConfigFileReadError>;
}

/// A type that is read from a declarative file of its own kind.
pub trait ReadFromConfig: Sized {
    fn config_type() -> ConfigType;
}

/// The format that an extension in lower case stands for: `json` or `yaml`.
pub open spec fn format_named(extension: Seq<char>) -> Option<ConfigFormat> {
    if extension == "json"@ {
        Some(ConfigFormat::Json)
    } else if extension == "yaml"@ {
        Some(ConfigFormat::Yaml)
    } else {
        None
    }
}

/// The files in which a declarative file named `name` is looked for in the
/// directory `directory`, in order: with the extension of each format, then
/// under the bare name where the kind has a default format.
pub open spec fn candidate_files(
    name: Seq<char>,
    default_format: Option<ConfigFormat>,
    directory: Seq<char>,
) -> Seq<ConfigFilePathView> {
    let base = spec_join(directory, name);
    let with_extensions = seq![
        ConfigFilePathView { path: with_extension_spec(base, "yaml"@), format: ConfigFormat::Yaml },
        ConfigFilePathView { path: with_extension_spec(base, "json"@), format: ConfigFormat::Json },
    ];
    match default_format {
        Some(format) => with_extensions.push(ConfigFilePathView { path: base, format }),
        None => with_extensions,
    }
}

/// The file that `path` names as an override, where its extension, in lower
/// case, names a format.
pub open spec fn override_file(path: Seq<char>) -> Option<ConfigFilePathView> {
    match extension_spec(path) {
        Some(extension) => match format_named(lowercase_spec(extension)) {
            Some(format) => Some(ConfigFilePathView { path, format }),
            None => None,
        },
        None => None,
    }
}

impl ConfigFormat {
    /// The format that an extension stands for, whatever its case.
    pub fn from_extension(extension: &str) -> (format: Option<ConfigFormat>)
        ensures
            format == format_named(lowercase_spec(extension@)),
    {
        if is_lowercase_of(extension, "json") {
            Some(ConfigFormat::Json)
        } else if is_lowercase_of(extension, "yaml") {
            Some(ConfigFormat::Yaml)
        } else {
            None
        }
    }
}

impl ConfigType {
    pub fn new(path: String, default_format: Option<ConfigFormat>) -> (kind: Self)
        ensures
            kind.path == path,
            kind.default_format == default_format,
    {
        ConfigType { path, default_format }
    }

    /// A kind of file that is YAML when its name has no extension.
    pub fn default_yaml(path: String) -> (kind: Self)
        ensures
            kind.path == path,
            kind.default_format == Some(ConfigFormat::Yaml),
    {
        ConfigType::new(path, Some(ConfigFormat::Yaml))
    }

    /// A kind of file that is JSON when its name has no extension.
    pub fn default_json(path: String) -> (kind: Self)
        ensures
            kind.path == path,
            kind.default_format == Some(ConfigFormat::Json),
    {
        ConfigType::new(path, Some(ConfigFormat::Json))
    }

    /// A kind of file that is only read under a name with an extension.
    pub fn no_default(path: String) -> (kind: Self)
        ensures
            kind.path == path,
            kind.default_format is None,
    {
        ConfigType::new(path, None)
    }

    /// The files to look for in `directory`, in order: see [`candidate_files`].
    pub fn candidates(&self, directory: &str) -> (files: Vec<ConfigFilePath>)
        ensures
            files@.map_values(|file: ConfigFilePath| file@) == candidate_files(
                self.path@,
                self.default_format,
                directory@,
            ),
    {
        let base = join(directory, self.path.as_str());
        let mut files: Vec<ConfigFilePath> = Vec::new();
        files.push(
            ConfigFilePath { path: with_extension(base.as_str(), "yaml"), format: ConfigFormat::Yaml },
        );
        files.push(
            ConfigFilePath { path: with_extension(base.as_str(), "json"), format: ConfigFormat::Json },
        );
        match self.default_format {
            Some(format) => {
                files.push(ConfigFilePath { path: base, format });
            },
            None => {},
        }
        files
    }

    /// Opens the first of the files to look for in `directory` that is
    /// there. A failure to open one ends the search. Where a file was found,
    /// its format is that of one of the files looked for.
    pub fn find_config_file<F: FileSource>(&self, files: &F, directory: &str) -> (found: Result<
        Option<ConfigFile<F::Handle>>,
        ConfigFileReadError,
    >)
        ensures
            match found {
                Ok(Some(file)) => exists|i: int|
                    0 <= i < candidate_files(self.path@, self.default_format, directory@).len()
                        && file.format == (#[trigger] candidate_files(
                        self.path@,
                        self.default_format,
                        directory@,
                    )[i]).format,
                _ => true,
            },
    {
        let candidates = self.candidates(directory);
        let ghost views = candidates@.map_values(|file: ConfigFilePath| file@);
        let mut i: usize = 0;
        while i < candidates.len()
            invariant
                i <= candidates.len(),
                views == candidates@.map_values(|file: ConfigFilePath| file@),
                views == candidate_files(self.path@, self.default_format, directory@),
            decreases candidates.len() - i,
        {
            match files.try_open(candidates[i].path.as_str()) {
                Ok(Some(file)) => {
                    assert(views[i as int].format == candidates[i as int].format);
                    return Ok(Some(ConfigFile { file, format: candidates[i].format }));
                },
                Ok(None) => {},
                Err(error) => {
                    return Err(error);
                },
            }
            i += 1;
        }
        Ok(None)
    }

    /// Opens the file that `path` names as an override, where it names one
    /// and the file is there. A file that was opened has the format that the
    /// override names.
    pub fn get_config_file<F: FileSource>(&self, files: &F, path: &str) -> (found: Result<
        Option<ConfigFile<F::Handle>>,
        ConfigFileReadError,
    >)
        ensures
            match found {
                Ok(Some(file)) => override_file(path@) matches Some(named) && named.format
                    == file.format,
                Ok(None) => true,
                Err(_) => override_file(path@) is Some,
            },
    {
        match self.override_config_file(path) {
            None => Ok(None),
            Some(named) => match files.try_open(named.path.as_str()) {
                Ok(Some(file)) => Ok(Some(ConfigFile { file, format: named.format })),
                Ok(None) => Ok(None),
                Err(error) => Err(error),
            },
        }
    }

    /// The file that `path` names as an override: see [`override_file`].
    pub fn override_config_file(&self, path: &str) -> (file: Option<ConfigFilePath>)
        ensures
            match file {
                Some(file) => override_file(path@) == Some(file@),
                None => override_file(path@) is None,
            },
    {
        match extension(path) {
            Some(found) => match ConfigFormat::from_extension(found.as_str()) {
                Some(format) => Some(ConfigFilePath { path: path.to_owned(), format }),
                None => None,
            },
            None => None,
        }
    }
}

} // verus!
