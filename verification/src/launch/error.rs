//! What can go wrong between choosing a version and starting it.

use vstd::prelude::*;
use vstd::string::*;

use crate::types::Loader;

verus! {

/// Why a version cannot be prepared or started.
#[derive(Debug)]
pub enum LaunchError {
    /// A library name without group, artifact and version.
    BadLibraryName(String),
    /// The loader has no meta API.
    NoMetaApi(Loader),
    /// The loader has no version for this version of the game.
    NoLoader(Loader, String),
    /// The loader cannot be installed yet.
    Unsupported(Loader),
    /// Only one game runs at a time.
    AlreadyRunning,
}

/// A `LaunchError` with its text as characters.
pub enum LaunchFault {
    BadLibraryName(Seq<char>),
    NoMetaApi(Loader),
    NoLoader(Loader, Seq<char>),
    Unsupported(Loader),
    AlreadyRunning,
}

impl View for LaunchError {
    type V = LaunchFault;

    open spec fn view(&self) -> LaunchFault {
        match *self {
            LaunchError::BadLibraryName(name) => LaunchFault::BadLibraryName(name@),
            LaunchError::NoMetaApi(loader) => LaunchFault::NoMetaApi(loader),
            LaunchError::NoLoader(loader, mc) => LaunchFault::NoLoader(loader, mc@),
            LaunchError::Unsupported(loader) => LaunchFault::Unsupported(loader),
            LaunchError::AlreadyRunning => LaunchFault::AlreadyRunning,
        }
    }
}

impl LaunchFault {
    /// The message shown for the fault.
    pub open spec fn message_text(self) -> Seq<char> {
        match self {
            LaunchFault::BadLibraryName(name) => "bad library name: "@ + name,
            LaunchFault::NoMetaApi(loader) => "no meta API for "@ + loader.label_text(),
            LaunchFault::NoLoader(loader, mc) => "no "@ + loader.label_text() + " loader for "@ + mc,
            LaunchFault::Unsupported(loader) => loader.label_text()
                + " isn't supported yet (it needs the installer's processor step)."@,
            LaunchFault::AlreadyRunning => "A game is already running. Stop it first."@,
        }
    }
}

impl LaunchError {
    /// The message shown for the error.
    pub fn message(&self) -> (r: String)
        ensures
            r@ == self@.message_text(),
    {
        match self {
            LaunchError::BadLibraryName(name) => {
                "bad library name: ".to_string().concat(name.as_str())
            },
            LaunchError::NoMetaApi(loader) => {
                "no meta API for ".to_string().concat(loader.label())
            },
            LaunchError::NoLoader(loader, mc) => {
                let mut out = "no ".to_string();
                out.append(loader.label());
                out.append(" loader for ");
                out.append(mc.as_str());
                out
            },
            LaunchError::Unsupported(loader) => {
                loader.label().to_string().concat(
                    " isn't supported yet (it needs the installer's processor step).",
                )
            },
            LaunchError::AlreadyRunning => "A game is already running. Stop it first.".to_string(),
        }
    }
}

/// A message names what it is about: the library, the loader, the version of the game.
pub proof fn law_message_names_its_subject(name: Seq<char>, loader: Loader)
    ensures
        name.is_suffix_of(LaunchFault::BadLibraryName(name).message_text()),
        name.is_suffix_of(LaunchFault::NoLoader(loader, name).message_text()),
        loader.label_text().is_suffix_of(LaunchFault::NoMetaApi(loader).message_text()),
        loader.label_text().is_prefix_of(LaunchFault::Unsupported(loader).message_text()),
{
    let a = LaunchFault::BadLibraryName(name).message_text();
    let b = LaunchFault::NoLoader(loader, name).message_text();
    let c = LaunchFault::NoMetaApi(loader).message_text();
    let d = LaunchFault::Unsupported(loader).message_text();
    let label = loader.label_text();
    assert(a.subrange(a.len() - name.len(), a.len() as int) =~= name);
    assert(b.subrange(b.len() - name.len(), b.len() as int) =~= name);
    assert(c.subrange(c.len() - label.len(), c.len() as int) =~= label);
    assert(d.subrange(0, label.len() as int) =~= label);
}

/// What is said of an error is what the error holds.
pub proof fn law_launch_error_is_as_it_reads(name: String, loader: Loader)
    ensures
        LaunchError::BadLibraryName(name)@ == LaunchFault::BadLibraryName(name@),
        LaunchError::NoMetaApi(loader)@ == LaunchFault::NoMetaApi(loader),
        LaunchError::NoLoader(loader, name)@ == LaunchFault::NoLoader(loader, name@),
        LaunchError::Unsupported(loader)@ == LaunchFault::Unsupported(loader),
        LaunchError::AlreadyRunning@ is AlreadyRunning,
{
}

} // verus!
