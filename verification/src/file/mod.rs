//! CGNS files. Based on: <https://cgns.github.io/CGNS_docs_current/midlevel/fileops.html>
pub mod base;

use vstd::prelude::*;

use crate::library::LibraryHandle;
use crate::traits::CGNSNode;

verus! {

/// Code of [`OpenFileMode::Read`] in the CGNS library.
pub const CG_MODE_READ: u32 = 0;
/// Code of [`OpenFileMode::Write`] in the CGNS library.
pub const CG_MODE_WRITE: u32 = 1;
/// Code of [`OpenFileMode::Modify`] in the CGNS library.
pub const CG_MODE_MODIFY: u32 = 2;

/// How a file is opened.
#[derive(Debug, Clone, Copy, PartialEq, Eq)]
pub enum OpenFileMode {
    Read,
    Write,
    Modify,
}

/// The code of `mode` in the CGNS library.
pub open spec fn open_mode_code(mode: OpenFileMode) -> u32 {
    match mode {
        OpenFileMode::Read => CG_MODE_READ,
        OpenFileMode::Write => CG_MODE_WRITE,
        OpenFileMode::Modify => CG_MODE_MODIFY,
    }
}

impl OpenFileMode {
    /// The code of the mode in the CGNS library.
    pub fn into_code(self) -> (r: u32)
        ensures
            r == open_mode_code(self),
    {
        match self {
            OpenFileMode::Read => CG_MODE_READ,
            OpenFileMode::Write => CG_MODE_WRITE,
            OpenFileMode::Modify => CG_MODE_MODIFY,
        }
    }

    /// The mode that has this code, if any.
    pub fn try_from_code(code: u32) -> (r: Option<Self>)
        ensures
            r matches Some(m) ==> open_mode_code(m) == code,
            r is None ==> forall|m: OpenFileMode| open_mode_code(m) != code,
    {
        if code == CG_MODE_READ {
            Some(OpenFileMode::Read)
        } else if code == CG_MODE_WRITE {
            Some(OpenFileMode::Write)
        } else if code == CG_MODE_MODIFY {
            Some(OpenFileMode::Modify)
        } else {
            None
        }
    }
}

/// Distinct modes have distinct codes, so a mode is found again from its code.
pub proof fn law_open_mode_code_injective(a: OpenFileMode, b: OpenFileMode)
    ensures
        open_mode_code(a) == open_mode_code(b) ==> a == b,
{
}

/// An open CGNS file.
pub struct File<'l> {
    /// File ID
    id: i32,
    library: &'l LibraryHandle,
}

impl<'l> File<'l> {
    /// The file that the library opened under the ID `id`.
    pub fn from_id(library: &'l LibraryHandle, id: i32) -> (r: Self)
        ensures
            r.spec_id() == id,
            r.spec_library() == library,
    {
        File { id, library }
    }

    pub closed spec fn spec_id(&self) -> i32 {
        self.id
    }

    pub closed spec fn spec_library(&self) -> &'l LibraryHandle {
        self.library
    }
}

impl<'l> CGNSNode<'l> for File<'l> {
    type Parent = LibraryHandle;

    fn id(&self) -> (r: i32)
        ensures
            r == self.spec_id(),
    {
        self.id
    }

    fn parent(&self) -> (r: &Self::Parent)
        ensures
            r == self.spec_library(),
    {
        self.library
    }
}

} // verus!
