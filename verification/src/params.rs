//! The settings of a run: where the four output files go and whether they
//! may be written.

use crate::encoding::hex_lower;
use crate::keys::{address_of, coordinates, full_text, public_key_text, short_text, KeyPair};
use vstd::prelude::*;
use vstd::string::StringExecFns;

verus! {

/// The balance given to a new address when none is named.
pub const DEFAULT_BALANCE: u128 = 1_000_000_000_000_000_000_000_000_000;

/// Why an output file is not written.
#[derive(Clone, Debug)]
pub enum OutputError {
    /// A file stands at this path already and may not be replaced.
    AlreadyExists(String),
}

/// What follows the path in the text of `OutputError::AlreadyExists`.
pub open spec fn already_exists_suffix() -> Seq<char> {
    " already exists"@
}

impl OutputError {
    /// The error as text for the user: the path, then " already exists".
    pub fn message(&self) -> (text: String)
        ensures
            match *self {
                OutputError::AlreadyExists(path) => text@ == path@ + already_exists_suffix(),
            },
    {
        match self {
            OutputError::AlreadyExists(path) => path.clone().concat(" already exists"),
        }
    }
}

/// One output of a run: the file's name, what is written to it, and the
/// line that announces it on the terminal, if any.
#[derive(Clone, Debug)]
pub struct Output {
    pub filename: String,
    pub contents: String,
    pub announcement: Option<String>,
}

/// The line that announces a value: the file's name, a colon, a space, and
/// the value as shown.
pub open spec fn announcement_line(filename: Seq<char>, shown: Seq<char>) -> Seq<char> {
    filename + ": "@ + shown
}

/// The settings of a run.
#[derive(Clone, Debug)]
pub struct Params {
    /// Directory for the output files; the current directory where `None`.
    pub output_dir: Option<String>,
    pub genesis_block_json_path: String,
    pub node_secret_key_filename: String,
    pub node_public_key_filename: String,
    pub account_public_key_filename: String,
    pub address_filename: String,
    /// Initial balance of the address in the genesis block.
    pub balance: u128,
    /// Print nothing.
    pub quiet: bool,
    /// Write the output files at all.
    pub write: bool,
    /// Replace output files that exist.
    pub overwrite: bool,
}

impl Params {
    /// File name for the account public key.
    pub fn account_public_key(&self) -> (name: String)
        ensures
            name@ == self.account_public_key_filename@,
    {
        self.account_public_key_filename.clone()
    }

    /// File name for the node public key.
    pub fn node_public_key(&self) -> (name: String)
        ensures
            name@ == self.node_public_key_filename@,
    {
        self.node_public_key_filename.clone()
    }

    /// File name for the node secret key.
    pub fn node_secret_key(&self) -> (name: String)
        ensures
            name@ == self.node_secret_key_filename@,
    {
        self.node_secret_key_filename.clone()
    }

    /// File name for the address.
    pub fn address(&self) -> (name: String)
        ensures
            name@ == self.address_filename@,
    {
        self.address_filename.clone()
    }

    /// The directory that the output files go to: the one that was named,
    /// else the current one.
    pub fn output_directory(&self, current_dir: String) -> (dir: String)
        ensures
            dir@ == match self.output_dir {
                Some(named) => named@,
                None => current_dir@,
            },
    {
        match &self.output_dir {
            Some(named) => named.clone(),
            None => current_dir,
        }
    }

    /// An output under `filename` that holds `contents` and is announced, on
    /// a run that is not quiet, by what is `shown`.
    fn output(&self, filename: String, shown: &str, contents: String) -> (out: Output)
        ensures
            out.filename@ == filename@,
            out.contents@ == contents@,
            self.quiet ==> out.announcement.is_none(),
            !self.quiet ==> out.announcement.is_some() && out.announcement.unwrap()@
                == announcement_line(filename@, shown@),
    {
        let announcement = if self.quiet {
            None
        } else {
            Some(filename.clone().concat(": ").concat(shown))
        };
        Output { filename, contents, announcement }
    }

    /// The node secret key's output: the secret key in hexadecimal, shown
    /// as it is written.
    pub fn node_secret_key_output(&self, key_pair: &KeyPair) -> (out: Output)
        ensures
            out.filename@ == self.node_secret_key_filename@,
            out.contents@ == hex_lower(key_pair.secret()),
            self.quiet ==> out.announcement.is_none(),
            !self.quiet ==> out.announcement.is_some() && out.announcement.unwrap()@
                == announcement_line(out.filename@, out.contents@),
    {
        let text = key_pair.node_secret_key();
        self.output(self.node_secret_key(), text.as_str(), text.clone())
    }

    /// The node public key's output: the public key's coordinates in
    /// hexadecimal, shown as they are written.
    pub fn node_public_key_output(&self, key_pair: &KeyPair) -> (out: Output)
        ensures
            out.filename@ == self.node_public_key_filename@,
            out.contents@ == hex_lower(coordinates(key_pair.public())),
            self.quiet ==> out.announcement.is_none(),
            !self.quiet ==> out.announcement.is_some() && out.announcement.unwrap()@
                == announcement_line(out.filename@, out.contents@),
    {
        let text = key_pair.node_public_key();
        self.output(self.node_public_key(), text.as_str(), text.clone())
    }

    /// The account public key's output: the public key in its standard
    /// text, shown as it is written.
    pub fn account_public_key_output(&self, key_pair: &KeyPair) -> (out: Output)
        ensures
            out.filename@ == self.account_public_key_filename@,
            public_key_text(key_pair.public()) == Some(out.contents@),
            self.quiet ==> out.announcement.is_none(),
            !self.quiet ==> out.announcement.is_some() && out.announcement.unwrap()@
                == announcement_line(out.filename@, out.contents@),
    {
        let text = key_pair.account_public_key();
        self.output(self.account_public_key(), text.as_str(), text.clone())
    }

    /// The address's output: the address is written in its short form and
    /// shown in its full form.
    pub fn address_output(&self, key_pair: &KeyPair) -> (out: Output)
        ensures
            out.filename@ == self.address_filename@,
            out.contents@ == short_text(address_of(key_pair.public())),
            self.quiet ==> out.announcement.is_none(),
            !self.quiet ==> out.announcement.is_some() && out.announcement.unwrap()@
                == announcement_line(out.filename@, full_text(address_of(key_pair.public()))),
    {
        let address = key_pair.address();
        let shown = address.debug_text();
        self.output(self.address(), shown.as_str(), address.display_text())
    }

    /// Decides whether the file at `path` may be written, given whether one
    /// exists there: an existing file is replaced only where `overwrite` is
    /// set; otherwise the write is refused with the path.
    pub fn admit_target(&self, path: String, exists: bool) -> (target: Result<String, OutputError>)
        ensures
            exists && !self.overwrite ==> target == Err::<String, OutputError>(
                OutputError::AlreadyExists(path),
            ),
            !(exists && !self.overwrite) ==> target == Ok::<String, OutputError>(path),
    {
        if exists && !self.overwrite {
            Err(OutputError::AlreadyExists(path))
        } else {
            Ok(path)
        }
    }
}

impl Default for Params {
    /// The settings of a run without arguments: the current directory, the
    /// usual file names, nothing written and nothing replaced.
    fn default() -> (params: Params)
        ensures
            params.output_dir.is_none(),
            params.genesis_block_json_path@ == "config/besu/genesis.json"@,
            params.node_secret_key_filename@ == "nodeKey"@,
            params.node_public_key_filename@ == "nodeKey.pub"@,
            params.account_public_key_filename@ == "accountPrivateKey"@,
            params.address_filename@ == "address"@,
            params.balance == DEFAULT_BALANCE,
            !params.quiet,
            !params.write,
            !params.overwrite,
    {
        Params {
            output_dir: None,
            genesis_block_json_path: String::from_str("config/besu/genesis.json"),
            node_secret_key_filename: String::from_str("nodeKey"),
            node_public_key_filename: String::from_str("nodeKey.pub"),
            account_public_key_filename: String::from_str("accountPrivateKey"),
            address_filename: String::from_str("address"),
            balance: DEFAULT_BALANCE,
            quiet: false,
            write: false,
            overwrite: false,
        }
    }
}

} // verus!
