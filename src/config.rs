//! Configuration of one Unix socket source.
use vstd::prelude::*;

verus! {

/// Default framing limit, in kibibytes.
pub const DEFAULT_MAX_LENGTH_KIB: u64 = 100;

/// The default framing limit in bytes: 100 KiB.
pub open spec fn default_max_length_spec() -> nat {
    DEFAULT_MAX_LENGTH_KIB as nat * 1024
}

/// Relies on `bytesize::kib`: the number of bytes in `size` kibibytes,
/// `size * 1024`. The product overflows above `u64::MAX`; the precondition
/// keeps it in range.
#[verifier::external_body]
fn kib(size: u64) -> (r: u64)
    requires
        size <= u64::MAX / 1024,
    ensures
        r == size * 1024,
{
    bytesize::kib(size)
}

/// The framing limit used when the configuration gives none.
pub fn default_max_length() -> (r: usize)
    ensures
        r == default_max_length_spec(),
{
    let n = kib(DEFAULT_MAX_LENGTH_KIB);
    assert(n == 102400);
    n as usize
}

/// Why a configuration cannot start a source.
#[derive(Debug, Clone, Copy, PartialEq, Eq, Structural)]
pub enum ConfigError {
    /// The socket path is empty.
    EmptyPath,
    /// `max_length` is zero.
    ZeroMaxLength,
}

/// The configuration of one Unix socket source.
///
/// `path` is the socket's filesystem path, `max_length` the longest record,
/// in bytes, that framing lets through, and `host_key` the name of the event
/// field that receives the peer's identity, when there is one.
#[derive(Debug, Clone)]
pub struct UnixConfig {
    pub path: String,
    pub max_length: usize,
    pub host_key: Option<String>,
}

/// The error, if any, that the given fields are rejected with: an empty path
/// first, then a zero framing limit.
pub open spec fn config_error(path: Seq<char>, max_length: usize) -> Option<ConfigError> {
    if path.len() == 0 {
        Some(ConfigError::EmptyPath)
    } else if max_length == 0 {
        Some(ConfigError::ZeroMaxLength)
    } else {
        None
    }
}

impl UnixConfig {
    /// A configuration can start a source: its path is not empty and its
    /// framing limit is positive.
    pub open spec fn is_valid(&self) -> bool {
        config_error(self.path@, self.max_length) is None
    }

    /// A configuration for `path` with the default framing limit and no
    /// peer field.
    pub fn new(path: String) -> (r: Self)
        ensures
            r.path == path,
            r.max_length == default_max_length_spec(),
            r.host_key is None,
    {
        UnixConfig { path, max_length: default_max_length(), host_key: None }
    }

    /// A configuration from explicit fields, rejected when the path is empty
    /// or the framing limit is zero.
    pub fn from_fields(path: String, max_length: usize, host_key: Option<String>) -> (r: Result<
        Self,
        ConfigError,
    >)
        ensures
            match r {
                Ok(c) => config_error(path@, max_length) is None && c.path == path && c.max_length
                    == max_length && c.host_key == host_key,
                Err(e) => config_error(path@, max_length) == Some(e),
            },
    {
        let c = UnixConfig { path, max_length, host_key };
        match c.validate() {
            Ok(()) => Ok(c),
            Err(e) => Err(e),
        }
    }

    /// Checks the configuration before any socket is opened.
    pub fn validate(&self) -> (r: Result<(), ConfigError>)
        ensures
            match r {
                Ok(()) => self.is_valid(),
                Err(e) => config_error(self.path@, self.max_length) == Some(e),
            },
    {
        if self.path.as_str().is_empty() {
            Err(ConfigError::EmptyPath)
        } else if self.max_length == 0 {
            Err(ConfigError::ZeroMaxLength)
        } else {
            Ok(())
        }
    }
}

} // verus!
