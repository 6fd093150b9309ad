//! Ownership of one dynamically loaded core library.
//!
//! A [`CoreDelegate`] holds the library handle for the whole core session:
//! entry points are resolved through a borrow of that handle, so none of them
//! can outlive it, and [`CoreDelegate::unload`] consumes the delegate, so no
//! entry point can be invoked after teardown.

use vstd::prelude::*;

verus! {

/// A loaded dynamic library, held opaquely.
#[verifier::external_type_specification]
#[verifier::external_body]
pub struct ExLibrary(libloading::Library);

/// The failure a dynamic-library operation reports, held opaquely.
#[verifier::external_type_specification]
#[verifier::external_body]
pub struct ExLibloadingError(libloading::Error);

/// Why a core session could not be brought up: the library itself was not
/// loadable, or a mandatory entry point was missing from it.
#[derive(Debug)]
pub enum CoreError {
    /// The shared object at the given path could not be opened.
    Load(String),
    /// The mandatory entry point of the given name could not be resolved.
    Symbol(String),
}

/// Relies on libloading::Library::new: opens the shared object at `path`,
/// returning the handle on success and the dlopen failure otherwise.
#[verifier::external_body]
fn open_library(path: &str) -> Result<libloading::Library, libloading::Error> {
    libloading::Library::new(path)
}

/// Relies on libloading::Library::close: releases the loaded library.
#[verifier::external_body]
fn close_library(corelib: libloading::Library) {
    let _ = corelib.close();
}

/// Owner of one loaded core's lifetime: load, resolve, run, unload.
pub struct CoreDelegate {
    corelib: libloading::Library,
}

impl CoreDelegate {
    /// Wrap an already opened core library.
    pub fn new(corelib: libloading::Library) -> CoreDelegate {
        CoreDelegate { corelib }
    }

    /// Open the shared object at `path` and take ownership of it for the
    /// session. A path that does not resolve to a loadable shared object
    /// fails with [`CoreError::Load`] naming that path, and no handle — so
    /// no resolvable entry point — comes into existence.
    pub fn load(path: String) -> (r: Result<CoreDelegate, CoreError>)
        ensures
            r matches Err(e) ==> e matches CoreError::Load(p) && p@ == path@,
    {
        match open_library(path.as_str()) {
            Ok(corelib) => Ok(CoreDelegate::new(corelib)),
            Err(_) => Err(CoreError::Load(path)),
        }
    }

    /// Borrow the underlying library handle, e.g. to resolve entry points;
    /// the borrow ties everything resolved from it to this delegate.
    pub fn library(&self) -> &libloading::Library {
        &self.corelib
    }

    /// Tear the session down. Consuming the delegate makes it impossible to
    /// reach an entry point of this core afterwards.
    pub fn unload(self) {
        let CoreDelegate { corelib } = self;
        close_library(corelib);
    }
}

/// The entry points the external ABI mandates of every core, in the order a
/// frontend resolves them: environment registration first, then
/// initialization, the frame-run cycle, and deinitialization. A core missing
/// any of these is rejected with [`CoreError::Symbol`] naming it; the
/// serialization hooks are optional and not listed here.
pub fn mandatory_symbols() -> (r: Vec<&'static str>)
    ensures
        r@.len() == 4,
        r@[0]@ == "retro_set_environment"@,
        r@[1]@ == "retro_init"@,
        r@[2]@ == "retro_run"@,
        r@[3]@ == "retro_deinit"@,
{
    let mut symbols: Vec<&'static str> = Vec::new();
    symbols.push("retro_set_environment");
    symbols.push("retro_init");
    symbols.push("retro_run");
    symbols.push("retro_deinit");
    symbols
}

} // verus!
