//! Which format a configuration file is read in.
//!
//! The format goes by the file's extension, whatever its case: `yaml` and
//! `yml` name a YAML document, `toml` a TOML document. Reading the file and
//! turning the document into a configuration is left to the caller.

use vstd::prelude::*;
use crate::error::{ConfigFormat, HarnessError, HarnessErrorView};
use crate::text::same_text;

verus! {

/// `s` in lower case, as Unicode defines it.
pub uninterp spec fn lowercase(s: Seq<char>) -> Seq<char>;

/// `str::to_lowercase` of the standard library, which is documented to
/// return the lower-case equivalent of a string slice. The contract only
/// names that text.
pub assume_specification[ str::to_lowercase ](s: &str) -> (lowered: String)
    ensures
        lowered@ == lowercase(s@),
;

/// The format that an extension in lower case names, if it names one.
pub open spec fn format_named(lowered: Seq<char>) -> Option<ConfigFormat> {
    if lowered == "yaml"@ || lowered == "yml"@ {
        Some(ConfigFormat::Yaml)
    } else if lowered == "toml"@ {
        Some(ConfigFormat::Toml)
    } else {
        None
    }
}

/// What comes of looking for a configuration at `path`, given whether a
/// file exists there and the file's extension in lower case: the format to
/// read it in, or why it cannot be read.
pub open spec fn load_decision(
    path: Seq<char>,
    exists: bool,
    lowered: Seq<char>,
) -> Result<ConfigFormat, HarnessErrorView> {
    if !exists {
        Err(HarnessErrorView::ConfigNotFound { path })
    } else {
        match format_named(lowered) {
            Some(format) => Ok(format),
            None => Err(HarnessErrorView::UnsupportedConfigFormat { extension: lowered }),
        }
    }
}

/// The format that an extension in lower case names, if it names one.
pub fn format_for(lowered: &str) -> (format: Option<ConfigFormat>)
    ensures
        format == format_named(lowered@),
{
    if same_text(lowered, "yaml") || same_text(lowered, "yml") {
        Some(ConfigFormat::Yaml)
    } else if same_text(lowered, "toml") {
        Some(ConfigFormat::Toml)
    } else {
        None
    }
}

/// Decides how to go on with a configuration at `path`, given whether a
/// file exists there and the file's extension in lower case.
pub fn decide_load(path: &str, exists: bool, lowered: &str) -> (decision: Result<
    ConfigFormat,
    HarnessError,
>)
    ensures
        match decision {
            Ok(format) => load_decision(path@, exists, lowered@) == Ok::<
                ConfigFormat,
                HarnessErrorView,
            >(format),
            Err(failure) => load_decision(path@, exists, lowered@) == Err::<
                ConfigFormat,
                HarnessErrorView,
            >(failure@),
        },
{
    if !exists {
        return Err(HarnessError::ConfigNotFound { path: path.to_owned() });
    }
    match format_for(lowered) {
        Some(format) => Ok(format),
        None => Err(HarnessError::UnsupportedConfigFormat { extension: lowered.to_owned() }),
    }
}

/// Decides how to go on with a configuration at `path`, given whether a
/// file exists there and the file's extension as it is written. An
/// extension counts whatever its case; a file without one has the empty
/// extension, which names no format.
pub fn plan_load(path: &str, exists: bool, extension: &str) -> (decision: Result<
    ConfigFormat,
    HarnessError,
>)
    ensures
        match decision {
            Ok(format) => load_decision(path@, exists, lowercase(extension@)) == Ok::<
                ConfigFormat,
                HarnessErrorView,
            >(format),
            Err(failure) => load_decision(path@, exists, lowercase(extension@)) == Err::<
                ConfigFormat,
                HarnessErrorView,
            >(failure@),
        },
{
    let lowered = extension.to_lowercase();
    decide_load(path, exists, lowered.as_str())
}

} // verus!
