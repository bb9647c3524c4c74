//! How to reach the remote host, and what to do with files that exist.

use vstd::prelude::*;

verus! {

/// What to do when the local file of a transfer already exists.
///
/// `Replace` overwrites the file; `Ignore` leaves it as it is and counts the
/// transfer as skipped.
#[derive(Clone, Copy, Debug, PartialEq, Eq, Structural)]
pub enum Mode {
    Replace,
    Ignore,
}

impl Mode {
    /// The mode that the `--replace` switch of the command line asks for.
    pub fn from_replace_flag(replace: bool) -> (mode: Mode)
        ensures
            mode == (if replace {
                Mode::Replace
            } else {
                Mode::Ignore
            }),
    {
        if replace {
            Mode::Replace
        } else {
            Mode::Ignore
        }
    }
}

/// The remote end of a transfer and the credentials for it. Every task of a
/// transfer holds a copy of its own.
#[derive(Debug, PartialEq, Eq)]
pub struct SshOpts {
    /// Host and port, as `host:port`.
    pub host: String,
    pub username: String,
    /// Path of the private key file.
    pub private_key: String,
}

/// An [`SshOpts`] with the text of its fields.
pub struct OptsView {
    pub host: Seq<char>,
    pub username: Seq<char>,
    pub private_key: Seq<char>,
}

impl View for SshOpts {
    type V = OptsView;

    open spec fn view(&self) -> OptsView {
        OptsView { host: self.host@, username: self.username@, private_key: self.private_key@ }
    }
}

impl Clone for SshOpts {
    fn clone(&self) -> (copy: Self)
        ensures
            copy == *self,
    {
        SshOpts {
            host: self.host.clone(),
            username: self.username.clone(),
            private_key: self.private_key.clone(),
        }
    }
}

/// The address of `host` with the port that transfers use, 22.
pub fn address(host: &str) -> (address: String)
    ensures
        address@ == host@ + ":22"@,
{
    host.to_owned().concat(":22")
}

} // verus!
