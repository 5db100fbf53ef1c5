//! Finding the address of the running IBus daemon.
//!
//! The daemon writes its address to a file below the user's configuration
//! directory. The file's name is made of the machine's identity, a fixed
//! session label and the number of the display. Finding the address therefore
//! takes two steps with a read between them: [`discovery_path`] says which file
//! to read, [`extract_address`] takes the address out of what was read.

use vstd::prelude::*;
use vstd::string::StringExecFns;
use crate::error::{BlockError, EnvVar, SourceFile, SourceText};
use crate::text::{opt_view, text_result_view, trim, trimmed};

verus! {

/// The environment variable that names the configuration root.
pub const CONFIG_ROOT_VAR: &'static str = "XDG_CONFIG_HOME";

/// The environment variable that selects the display.
pub const DISPLAY_VAR: &'static str = "DISPLAY";

/// Where the machine's identity is kept.
pub const MACHINE_ID_PATH: &'static str = "/etc/machine-id";

/// The session label in the name of the discovery file.
pub const SESSION_LABEL: &'static str = "unix";

/// The shape of the display selector: a colon and one digit, which is captured.
pub const DISPLAY_PATTERN: &'static str = r"^:(\d{1})$";

/// The line of the discovery file that holds the address, which is captured.
pub const ADDRESS_PATTERN: &'static str = "IBUS_ADDRESS=(.*),guid";

/// What the first capture group of the regular expression `pattern` holds in
/// the leftmost match of the pattern in `haystack`; `None` where `pattern` is
/// no regular expression, where it matches nowhere, and where the match leaves
/// the group out.
pub uninterp spec fn regex_first_group(pattern: Seq<char>, haystack: Seq<char>) -> Option<Seq<char>>;

/// Whether `part` stands in `whole`, character for character and in one piece.
pub open spec fn occurs_in(part: Seq<char>, whole: Seq<char>) -> bool {
    exists|from: int, to: int|
        0 <= from <= to <= whole.len() && part == #[trigger] whole.subrange(from, to)
}

/// Compiles `pattern` with `regex::Regex::new`, searches `haystack` with
/// `Regex::captures` and copies out group 1 with `Captures::get`. Trusted: the
/// result is claimed to be a function of the two texts alone, which is given
/// the name `regex_first_group`, and what a group holds is claimed to be a
/// piece of the haystack.
#[verifier::external_body]
fn first_group(pattern: &str, haystack: &str) -> (found: Option<String>)
    ensures
        opt_view(found) == regex_first_group(pattern@, haystack@),
        found matches Some(group) ==> occurs_in(group@, haystack@),
{
    match regex::Regex::new(pattern) {
        Ok(re) => match re.captures(haystack) {
            Some(caps) => match caps.get(1) {
                Some(group) => Some(group.as_str().to_string()),
                None => None,
            },
            None => None,
        },
        Err(_) => None,
    }
}

/// What the search for the display number finds in the display selector.
pub open spec fn spec_display_number(display: Seq<char>) -> Option<Seq<char>> {
    regex_first_group(DISPLAY_PATTERN@, display)
}

/// What the search for the address finds in the discovery file.
pub open spec fn spec_address_in(contents: Seq<char>) -> Option<Seq<char>> {
    regex_first_group(ADDRESS_PATTERN@, contents)
}

/// The digit of a display selector of the shape `:<digit>`, and `None` for a
/// selector of any other shape.
pub fn display_number(display: &str) -> (number: Option<String>)
    ensures
        opt_view(number) == spec_display_number(display@),
        number matches Some(digit) ==> occurs_in(digit@, display@),
{
    first_group(DISPLAY_PATTERN, display)
}

/// The address that a discovery file gives, and `None` where the file has no
/// line of the shape `IBUS_ADDRESS=<address>,guid`.
pub fn address_in(contents: &str) -> (address: Option<String>)
    ensures
        opt_view(address) == spec_address_in(contents@),
        address matches Some(address) ==> occurs_in(address@, contents@),
{
    first_group(ADDRESS_PATTERN, contents)
}

/// The name of the discovery file.
pub open spec fn spec_socket_path(
    config_dir: Seq<char>,
    machine_id: Seq<char>,
    display_number: Seq<char>,
) -> Seq<char> {
    config_dir + "/ibus/bus/"@ + machine_id + "-"@ + SESSION_LABEL@ + "-"@ + display_number
}

/// Builds `<config_dir>/ibus/bus/<machine_id>-unix-<display_number>`.
pub fn socket_path(config_dir: &str, machine_id: &str, display_number: &str) -> (path: String)
    ensures
        path@ == spec_socket_path(config_dir@, machine_id@, display_number@),
{
    let mut path = String::from_str(config_dir);
    path.append("/ibus/bus/");
    path.append(machine_id);
    path.append("-");
    path.append(SESSION_LABEL);
    path.append("-");
    path.append(display_number);
    path
}

/// What was read before the discovery file can be named. A field is `None`
/// where the variable is not set or the file could not be read.
pub struct Environment {
    /// The value of `XDG_CONFIG_HOME`.
    pub config_root: Option<String>,
    /// The contents of `/etc/machine-id`.
    pub machine_id: Option<String>,
    /// The value of `DISPLAY`.
    pub display: Option<String>,
}

/// The discovery file for an environment whose display selector gave `number`
/// as its digit, or the first thing that is wrong with the environment.
pub open spec fn spec_path_for(env: Environment, number: Option<Seq<char>>) -> Result<
    Seq<char>,
    BlockError,
> {
    match (env.config_root, env.machine_id, env.display, number) {
        (None, _, _, _) => Err(BlockError::MissingEnv(EnvVar::ConfigRoot)),
        (Some(_), None, _, _) => Err(BlockError::IoError(SourceFile::MachineId)),
        (Some(_), Some(_), None, _) => Err(BlockError::MissingEnv(EnvVar::Display)),
        (Some(_), Some(_), Some(_), None) => Err(BlockError::MalformedInput(SourceText::Display)),
        (Some(config_dir), Some(machine_id), Some(_), Some(number)) => Ok(
            spec_socket_path(config_dir@, trimmed(machine_id@), number),
        ),
    }
}

/// The digit that the display selector of an environment gives, if it is set
/// and has the right shape.
pub open spec fn spec_env_display_number(env: Environment) -> Option<Seq<char>> {
    match env.display {
        Some(display) => spec_display_number(display@),
        None => None,
    }
}

/// The discovery file for an environment, or the first thing that is wrong
/// with the environment.
pub open spec fn spec_discovery_path(env: Environment) -> Result<Seq<char>, BlockError> {
    spec_path_for(env, spec_env_display_number(env))
}

/// Names the discovery file, given the digit that the search in the display
/// selector found. The checks are made in a fixed order, and the first that
/// fails gives the error: the configuration root is set, the machine identity
/// was read, the display selector is set, the selector gave a digit. The
/// machine identity goes into the name without the white space around it.
pub fn path_for(env: &Environment, number: Option<String>) -> (path: Result<String, BlockError>)
    ensures
        text_result_view(path) == spec_path_for(*env, opt_view(number)),
{
    let config_dir = match &env.config_root {
        Some(dir) => dir.as_str(),
        None => {
            return Err(BlockError::MissingEnv(EnvVar::ConfigRoot));
        },
    };
    let machine_id = match &env.machine_id {
        Some(id) => trim(id.as_str()),
        None => {
            return Err(BlockError::IoError(SourceFile::MachineId));
        },
    };
    if env.display.is_none() {
        return Err(BlockError::MissingEnv(EnvVar::Display));
    }
    match number {
        Some(number) => Ok(socket_path(config_dir, machine_id, number.as_str())),
        None => Err(BlockError::MalformedInput(SourceText::Display)),
    }
}

/// Says which file holds the daemon's address, or what is wrong with the
/// environment: see [`path_for`], which is given the digit of the display
/// selector.
pub fn discovery_path(env: &Environment) -> (path: Result<String, BlockError>)
    ensures
        text_result_view(path) == spec_discovery_path(*env),
{
    let number = match &env.display {
        Some(display) => display_number(display.as_str()),
        None => None,
    };
    path_for(env, number)
}

/// The address for a discovery file that was read, or not.
pub open spec fn spec_extract_address(contents: Option<Seq<char>>) -> Result<Seq<char>, BlockError> {
    match contents {
        None => Err(BlockError::IoError(SourceFile::Discovery)),
        Some(contents) => address_or_malformed(spec_address_in(contents)),
    }
}

/// The address that a search found, or the error for a search that found none.
pub open spec fn address_or_malformed(found: Option<Seq<char>>) -> Result<Seq<char>, BlockError> {
    match found {
        Some(address) => Ok(address),
        None => Err(BlockError::MalformedInput(SourceText::Discovery)),
    }
}

/// Turns the outcome of the search in the discovery file into the address,
/// which is handed on as it was found.
pub fn found_address(found: Option<String>) -> (address: Result<String, BlockError>)
    ensures
        text_result_view(address) == address_or_malformed(opt_view(found)),
{
    match found {
        Some(address) => Ok(address),
        None => Err(BlockError::MalformedInput(SourceText::Discovery)),
    }
}

/// Takes the daemon's address out of the discovery file. `contents` is `None`
/// where the file could not be read. The address is a piece of the file, handed
/// on as it stands there.
pub fn extract_address(contents: Option<&str>) -> (address: Result<String, BlockError>)
    ensures
        text_result_view(address) == spec_extract_address(
            match contents {
                Some(c) => Some(c@),
                None => None,
            },
        ),
        address matches Ok(address) ==> contents matches Some(c) && occurs_in(address@, c@),
{
    match contents {
        Some(contents) => found_address(address_in(contents)),
        None => Err(BlockError::IoError(SourceFile::Discovery)),
    }
}

} // verus!
