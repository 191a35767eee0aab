use vstd::prelude::*;

verus! {

/// The commands of the client.
#[allow(inconsistent_fields)]
#[derive(Debug, PartialEq, Eq)]
pub enum Opt {
    /// Write the default configuration file.
    Create,
    /// Push one local file.
    Push { dir: Option<String>, file: String, is_async: bool, block: usize, overwrite: bool },
    /// Pull one remote file.
    Pull { file: String, save: Option<String>, is_async: bool, block: usize, overwrite: bool },
    /// Image commands.
    Image(ImageArgs),
    /// List a remote directory.
    ShowDir { dir: String },
    /// Show what the server knows of a remote file.
    Info { file: String },
}

/// Arguments of the image commands.
#[derive(Debug, PartialEq, Eq)]
pub struct ImageArgs {
    pub command: ImageCommands,
}

/// The image commands.
#[derive(Debug, PartialEq, Eq)]
pub enum ImageCommands {
    /// Push a local directory tree.
    Push { dir: Option<String>, path: String, is_async: bool, block: usize, overwrite: bool },
}

impl Opt {
    /// Whether the command talks to the server (every command but `Create`).
    pub fn needs_server(&self) -> (r: bool)
        ensures
            r == !(self is Create),
    {
        match self {
            Opt::Create => false,
            _ => true,
        }
    }
}

} // verus!
