//! Command-line arguments and the secrets that configuration files name.

use vstd::prelude::*;

use crate::util::text::{is_prefix, strip_prefix};

verus! {

/// Where a configured secret comes from.
#[derive(Clone, Debug)]
pub enum SecretSource {
    /// Read the secret from the file at this path.
    File(String),
    /// The secret is this text.
    Const(String),
}

/// The prefix that marks a secret kept in a file.
pub open spec fn file_prefix() -> Seq<char> {
    "file:"@
}

/// Where the configured `value` says its secret comes from: `file:<path>`
/// names a file, anything else is the secret itself.
pub fn secret_source(value: &str) -> (r: SecretSource)
    ensures
        is_prefix(file_prefix(), value@) ==> (r matches SecretSource::File(path) && path@
            == value@.skip(file_prefix().len() as int)),
        !is_prefix(file_prefix(), value@) ==> (r matches SecretSource::Const(s) && s@ == value@),
{
    match strip_prefix(value, "file:") {
        Some(path) => SecretSource::File(path.to_owned()),
        None => SecretSource::Const(value.to_owned()),
    }
}

/// The arguments a service starts with: its configuration.
pub struct Args<T> {
    pub config: T,
}

impl<T> Args<T> {
    /// Arguments holding `config`.
    pub fn new(config: T) -> (r: Args<T>)
        ensures
            r.config == config,
    {
        Args { config }
    }
}

} // verus!
