//! Reading a compose file from its YAML text.
//!
//! The text is parsed by the `compose_spec` crate. What the conversion reads of the parsed file
//! at the top level (its `name`, how many `configs` entries it has, its extension keys, and the
//! names of its services, networks, and volumes) comes back as plain values; the parsed file
//! itself is handed on for the conversions of its services, networks, and volumes.

use compose_spec::Compose as ComposeSpecFile;
use vstd::prelude::*;
use crate::text::{opt_text, texts};

verus! {

/// A compose file as the `compose_spec` crate parses it.
#[verifier::external_type_specification]
#[verifier::external_body]
pub struct ExComposeFile(ComposeSpecFile);

/// Options for parsing a compose file.
#[derive(Clone, Copy, PartialEq, Eq, Debug)]
pub struct ParseOptions {
    /// Merge YAML merge keys (`<<`) before reading the file.
    pub apply_merge: bool,
}

/// The top level of a parsed compose file, as plain values.
pub struct ParsedCompose {
    /// The top-level `name`.
    pub name: Option<String>,
    /// The number of `configs` entries.
    pub configs: usize,
    /// The top-level extension keys, in order.
    pub extension_keys: Vec<String>,
    /// The names of the services, in order.
    pub services: Vec<String>,
    /// The names of the networks, in order.
    pub networks: Vec<String>,
    /// The names of the volumes, in order.
    pub volumes: Vec<String>,
}

/// View of a [`ParsedCompose`].
pub struct ParsedComposeView {
    pub name: Option<Seq<char>>,
    pub configs: nat,
    pub extension_keys: Seq<Seq<char>>,
    pub services: Seq<Seq<char>>,
    pub networks: Seq<Seq<char>>,
    pub volumes: Seq<Seq<char>>,
}

impl View for ParsedCompose {
    type V = ParsedComposeView;

    open spec fn view(&self) -> ParsedComposeView {
        ParsedComposeView {
            name: opt_text(self.name),
            configs: self.configs as nat,
            extension_keys: texts(self.extension_keys@),
            services: texts(self.services@),
            networks: texts(self.networks@),
            volumes: texts(self.volumes@),
        }
    }
}

/// What `compose_spec` parses from `yaml`, read at the top level, or the parser's message.
pub uninterp spec fn compose_parse(yaml: Seq<char>, options: ParseOptions) -> Result<
    ParsedComposeView,
    Seq<char>,
>;

/// What `compose_spec`'s validation (`Compose::validate_all`) gives for the file parsed from
/// `yaml`: `Ok` or the validator's message. It speaks of texts that parse.
pub uninterp spec fn compose_validate(yaml: Seq<char>, options: ParseOptions) -> Result<(), Seq<char>>;

/// `compose_spec::Options::from_yaml_str` with the given options, then `Compose::validate_all` on
/// the parsed file: the file's top level read into plain values, the validation outcome, and the
/// parsed file; or the parser's message. The contract only names the two results, each a function
/// of the text and the options.
#[verifier::external_body]
fn parse_yaml(yaml: &str, options: ParseOptions) -> (r: Result<
    (ParsedCompose, Result<(), String>, ComposeSpecFile),
    String,
>)
    ensures
        match r {
            Ok(p) => {
                &&& compose_parse(yaml@, options) == Ok::<ParsedComposeView, Seq<char>>(p.0@)
                &&& compose_validate(yaml@, options) == match p.1 {
                    Ok(()) => Ok::<(), Seq<char>>(()),
                    Err(m) => Err::<(), Seq<char>>(m@),
                }
            },
            Err(m) => compose_parse(yaml@, options) == Err::<ParsedComposeView, Seq<char>>(m@),
        },
{
    let mut o = ComposeSpecFile::options();
    o.apply_merge(options.apply_merge);
    let c = o.from_yaml_str(yaml).map_err(|e| e.to_string())?;
    let top = ParsedCompose {
        name: c.name.clone().map(String::from),
        configs: c.configs.len(),
        extension_keys: c.extensions.keys().map(ToString::to_string).collect(),
        services: c.services.keys().map(ToString::to_string).collect(),
        networks: c.networks.keys().map(ToString::to_string).collect(),
        volumes: c.volumes.keys().map(ToString::to_string).collect(),
    };
    Ok((top, c.validate_all().map_err(|e| e.to_string()), c))
}

/// A compose file read from its text: its top level, and the parsed file.
pub struct ComposeFile {
    pub top: ParsedCompose,
    pub parsed: ComposeSpecFile,
}

/// Why a compose file could not be read.
pub enum ReadError {
    /// The text is not a compose file; the parser's message.
    Parse { message: String },
    /// The file does not validate; the validator's message.
    Validate { message: String },
}

/// Parse and validate a compose file from its YAML text.
///
/// # Errors
///
/// The text does not parse as a compose file (exactly when `compose_parse` fails, with its
/// message), or the parsed file does not validate (exactly when `compose_validate` fails, with
/// its message).
pub fn read_compose(yaml: &str, options: ParseOptions) -> (r: Result<ComposeFile, ReadError>)
    ensures
        match compose_parse(yaml@, options) {
            Err(m) => r matches Err(ReadError::Parse { message }) && message@ == m,
            Ok(p) => match compose_validate(yaml@, options) {
                Ok(()) => r matches Ok(f) && f.top@ == p,
                Err(m) => r matches Err(ReadError::Validate { message }) && message@ == m,
            },
        },
{
    match parse_yaml(yaml, options) {
        Err(message) => Err(ReadError::Parse { message }),
        Ok((top, validated, parsed)) => match validated {
            Ok(()) => Ok(ComposeFile { top, parsed }),
            Err(message) => Err(ReadError::Validate { message }),
        },
    }
}

} // verus!
