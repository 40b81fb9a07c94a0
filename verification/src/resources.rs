//! Asset path and content checks. The host reads files and locates the
//! executable; this module holds the pure parts of resource loading: the
//! root-relative path arithmetic and the NUL check a C-string load makes.
//! Paths are strings with `/` separators.

use vstd::prelude::*;

verus! {

use vstd::string::StringExecFns;

/// Why a resource could not be loaded.
#[derive(Debug)]
pub enum Error {
    /// The host's file read failed; the payload is its message.
    Io(String),
    /// A file that must become a C string contains a NUL byte.
    FileContainsNil,
    /// The host could not locate the running executable.
    FailedToGetExePath,
}

/// A resource store rooted at a directory, typically the `assets`
/// directory beside the executable. The host resolves that root and reads
/// files; the path arithmetic lives here.
pub struct Resources {
    pub root_path: String,
}

impl Resources {
    /// A store rooted at an already-resolved directory path.
    pub fn from_root_path(root_path: String) -> (r: Resources)
        ensures
            r.root_path@ == root_path@,
    {
        Resources { root_path }
    }

    /// The path of a resource under a root directory. A resource name uses
    /// `/` between its parts; joining each part onto the root in turn
    /// yields the root, a separator, and the name.
    pub fn resource_name_to_path(root_dir: &str, location: &str) -> (path: String)
        ensures
            path@ == root_dir@ + seq!['/'] + location@,
    {
        let mut path: String = String::from_str(root_dir);
        proof {
            reveal_strlit("/");
        }
        path.append("/");
        path.append(location);
        path
    }

    /// Accept file content destined for a C string: succeeds exactly when
    /// no byte is NUL.
    pub fn check_cstring_bytes(bytes: &Vec<u8>) -> (r: Result<(), Error>)
        ensures
            r is Ok <==> (forall|i: int| 0 <= i < bytes@.len() ==> bytes@[i] != 0),
            r is Err ==> r matches Err(Error::FileContainsNil),
    {
        let mut i: usize = 0;
        while i < bytes.len()
            invariant
                i <= bytes@.len(),
                forall|j: int| 0 <= j < i ==> bytes@[j] != 0,
            decreases bytes@.len() - i,
        {
            if bytes[i] == 0 {
                return Err(Error::FileContainsNil);
            }
            i = i + 1;
        }
        Ok(())
    }
}

} // verus!
