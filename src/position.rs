//! Where the local configuration file is: the decision on a location the user
//! gave, once the file system has said what stands there.
use vstd::prelude::*;

verus! {

/// The name the local configuration file must have.
pub const CONFIG_FILE_NAME: &'static str = "rdpwrap.ini";

/// What the file system reports at a location.
#[derive(Clone, Copy, Debug, PartialEq, Eq, Structural)]
pub enum PathKind {
    /// Nothing is there.
    Missing,
    /// A directory, and whether it holds a file named [`CONFIG_FILE_NAME`].
    Directory { holds_config: bool },
    /// A file.
    File,
    /// Something that is neither a file nor a directory.
    Other,
}

/// Where the configuration file is, relative to the location given.
#[derive(Clone, Copy, Debug, PartialEq, Eq, Structural)]
pub enum ConfigLocation {
    /// Inside the given directory, under [`CONFIG_FILE_NAME`].
    InDirectory,
    /// At the given location itself.
    AsGiven,
}

/// Why a location does not lead to the configuration file.
#[derive(Clone, Debug, PartialEq, Eq)]
pub enum PositionError {
    /// Nothing exists at the location.
    NotFound(String),
    /// The directory has no configuration file.
    NoConfigInDirectory(String),
    /// The file is not named [`CONFIG_FILE_NAME`].
    NotConfigFile,
    /// The location is neither a file nor a directory.
    Invalid(String),
}

/// A character that separates the components of a path.
pub open spec fn is_separator(c: char) -> bool {
    c == '/' || c == '\\'
}

/// The last component of the path `p` is [`CONFIG_FILE_NAME`].
pub open spec fn names_config(p: Seq<char>) -> bool {
    let name = CONFIG_FILE_NAME@;
    &&& p.len() >= name.len()
    &&& p.subrange(p.len() - name.len(), p.len() as int) == name
    &&& (p.len() == name.len() || is_separator(p[p.len() - name.len() - 1]))
}

fn names_config_file(pos: &str) -> (r: bool)
    ensures
        r == names_config(pos@),
{
    let name = CONFIG_FILE_NAME;
    let n = pos.unicode_len();
    let m = name.unicode_len();
    if n < m {
        return false;
    }
    let start = n - m;
    let mut i: usize = 0;
    while i < m
        invariant
            n == pos@.len(),
            m == name@.len(),
            name@ == CONFIG_FILE_NAME@,
            start == n - m,
            i <= m,
            forall|j: int| 0 <= j < i ==> pos@[start + j] == name@[j],
        decreases m - i,
    {
        if pos.get_char(start + i) != name.get_char(i) {
            assert(pos@.subrange(start as int, n as int)[i as int] != name@[i as int]);
            assert(pos@.subrange(start as int, n as int) != name@);
            return false;
        }
        i = i + 1;
    }
    assert(pos@.subrange(start as int, n as int) =~= name@);
    if start == 0 {
        true
    } else {
        let c = pos.get_char(start - 1);
        c == '/' || c == '\\'
    }
}

/// Checks a location given for the configuration file: a directory that holds
/// it, or the file itself.
pub fn parser_position(pos: &str, kind: PathKind) -> (r: Result<ConfigLocation, PositionError>)
    ensures
        match kind {
            PathKind::Missing => r matches Err(PositionError::NotFound(p)) && p@ == pos@,
            PathKind::Directory { holds_config } => if holds_config {
                r == Ok::<ConfigLocation, PositionError>(ConfigLocation::InDirectory)
            } else {
                r matches Err(PositionError::NoConfigInDirectory(p)) && p@ == pos@
            },
            PathKind::File => if names_config(pos@) {
                r == Ok::<ConfigLocation, PositionError>(ConfigLocation::AsGiven)
            } else {
                r == Err::<ConfigLocation, PositionError>(PositionError::NotConfigFile)
            },
            PathKind::Other => r matches Err(PositionError::Invalid(p)) && p@ == pos@,
        },
{
    match kind {
        PathKind::Missing => Err(PositionError::NotFound(pos.to_owned())),
        PathKind::Directory { holds_config } => {
            if holds_config {
                Ok(ConfigLocation::InDirectory)
            } else {
                Err(PositionError::NoConfigInDirectory(pos.to_owned()))
            }
        },
        PathKind::File => {
            if names_config_file(pos) {
                Ok(ConfigLocation::AsGiven)
            } else {
                Err(PositionError::NotConfigFile)
            }
        },
        PathKind::Other => Err(PositionError::Invalid(pos.to_owned())),
    }
}

} // verus!
