//! The command line, once it is parsed.

use crate::text::text_of;
use vstd::prelude::*;

verus! {

/// The arguments of the program.
#[derive(Debug, PartialEq, Eq)]
pub struct Cli {
    pub command: Commands,
}

/// What the program is asked to do.
#[derive(Debug, PartialEq, Eq)]
pub enum Commands {
    /// Copy a file or a directory from a remote host.
    Receive {
        /// Remote source to copy from.
        source: String,
        /// Local destination to copy to.
        destination: String,
        /// Remote host to connect to.
        host: String,
        /// Remote username to connect as.
        user: String,
        /// Path to the private key, where it is not the default one.
        private_key: Option<String>,
        /// Replace a file if it exists.
        replace: bool,
    },
}

/// A [`Commands`] with the text of its strings.
pub enum CommandsView {
    Receive {
        source: Seq<char>,
        destination: Seq<char>,
        host: Seq<char>,
        user: Seq<char>,
        private_key: Option<Seq<char>>,
        replace: bool,
    },
}

impl View for Commands {
    type V = CommandsView;

    open spec fn view(&self) -> CommandsView {
        match self {
            Commands::Receive {
                source,
                destination,
                host,
                user,
                private_key,
                replace,
            } => CommandsView::Receive {
                source: source@,
                destination: destination@,
                host: host@,
                user: user@,
                private_key: text_of(*private_key),
                replace: *replace,
            },
        }
    }
}

impl View for Cli {
    type V = CommandsView;

    open spec fn view(&self) -> CommandsView {
        self.command@
    }
}

} // verus!
