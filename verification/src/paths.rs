//! Decisions about the input and output paths.
//!
//! The filesystem itself is the caller's business: the caller observes
//! whether a path exists and whether it names a directory, and these
//! functions decide what follows from that observation.

use vstd::prelude::*;

use crate::scheme::ThemeError;

verus! {

/// What the caller must do to make an output path usable.
pub enum OutputAction {
    /// The path does not exist yet: create an empty file there.
    CreateFile,
    /// The path already names a file: use it as it is.
    UseExisting,
}

/// Check the color-scheme input path from its observed state: it must exist
/// and must not be a directory. The run cannot proceed otherwise.
pub fn verify_input_file(path: &str, exists: bool, is_dir: bool) -> (r: Result<(), ThemeError>)
    ensures
        r is Ok <==> exists && !is_dir,
        !exists ==> (r matches Err(ThemeError::MissingInputFile { path: p }) && p@ == path@),
        exists && is_dir ==> (r matches Err(ThemeError::PathIsDirectory { path: p }) && p@
            == path@),
{
    if !exists {
        Err(ThemeError::MissingInputFile { path: path.to_owned() })
    } else if is_dir {
        Err(ThemeError::PathIsDirectory { path: path.to_owned() })
    } else {
        Ok(())
    }
}

/// Check an output path from its observed state: an absent path is to be
/// created as an empty file, an existing file is used as it is, and an
/// existing directory is fatal.
pub fn verify_output_file(path: &str, exists: bool, is_dir: bool) -> (r: Result<
    OutputAction,
    ThemeError,
>)
    ensures
        !exists ==> (r matches Ok(a) && a is CreateFile),
        exists && !is_dir ==> (r matches Ok(a) && a is UseExisting),
        exists && is_dir ==> (r matches Err(ThemeError::PathIsDirectory { path: p }) && p@
            == path@),
{
    if !exists {
        Ok(OutputAction::CreateFile)
    } else if is_dir {
        Err(ThemeError::PathIsDirectory { path: path.to_owned() })
    } else {
        Ok(OutputAction::UseExisting)
    }
}

} // verus!
