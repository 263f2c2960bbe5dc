//! The decisions of loading a stored configuration file: a missing file is
//! created; an empty or unreadable one, or one whose text does not parse,
//! gives way to the defaults, which are stored in its place; content that is
//! not text fails; a file that parses is used and left as it is.
use vstd::prelude::*;

verus! {

/// The error code of the file system for a file that does not exist.
pub const NOT_FOUND: i32 = -2;

/// What follows an attempt to open the file (for loading or for storing).
#[derive(Clone, Copy, PartialEq, Eq, Debug, Structural)]
pub enum OpenStep {
    /// The file is open: read it (or write it, when storing).
    Read,
    /// The file does not exist: open it again for writing, creating it.
    Create,
    /// Any other error: loading (or storing) fails with it.
    Fail,
}

/// How loading ends, once the file was read and its content decoded.
#[derive(Clone, Copy, PartialEq, Eq, Debug, Structural)]
pub enum LoadStep {
    /// The content parsed: use the value parsed; nothing is written.
    Use,
    /// Nothing usable was read, or the text did not parse: use the default
    /// values and write them to the file.
    UseDefaultsAndStore,
    /// The content is not text: loading fails; nothing is written.
    Fail,
}

/// How loading ends: `read` is what was read (`None` for a read error),
/// `utf8` whether it is UTF-8 text and `parsed` whether that text parsed
/// into the settings.
pub open spec fn load_step(read: Option<Seq<u8>>, utf8: bool, parsed: bool) -> LoadStep {
    match read {
        None => LoadStep::UseDefaultsAndStore,
        Some(bytes) => if bytes.len() == 0 {
            LoadStep::UseDefaultsAndStore
        } else if !utf8 {
            LoadStep::Fail
        } else if parsed {
            LoadStep::Use
        } else {
            LoadStep::UseDefaultsAndStore
        },
    }
}

/// The step after opening: `opened` is the error code when the file could
/// not be opened.
pub fn after_open(opened: Option<i32>) -> (r: OpenStep)
    ensures
        r == match opened {
            None => OpenStep::Read,
            Some(code) => if code == NOT_FOUND { OpenStep::Create } else { OpenStep::Fail },
        },
{
    match opened {
        None => OpenStep::Read,
        Some(code) => if code == NOT_FOUND { OpenStep::Create } else { OpenStep::Fail },
    }
}

/// The step after reading and decoding (see `load_step`): a read error or
/// an empty file gives the defaults, stored; content that is not UTF-8 text
/// fails; text that parses is used as it is; other text gives the defaults,
/// stored.
pub fn after_decode(read: &Option<Vec<u8>>, utf8: bool, parsed: bool) -> (r: LoadStep)
    ensures
        r == load_step(match read { Some(b) => Some(b@), None => None }, utf8, parsed),
{
    match read {
        None => LoadStep::UseDefaultsAndStore,
        Some(bytes) => if bytes.len() == 0 {
            LoadStep::UseDefaultsAndStore
        } else if !utf8 {
            LoadStep::Fail
        } else if parsed {
            LoadStep::Use
        } else {
            LoadStep::UseDefaultsAndStore
        },
    }
}

} // verus!
