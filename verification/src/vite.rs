//! Which file of the front end answers a request that no route took.

use vstd::prelude::*;
use crate::error::Error;

verus! {

/// The state that serving the front end needs: none.
#[derive(Clone, Copy, Debug)]
pub struct ViteState {}

/// An entry of the front end's manifest: the file built for a source.
#[derive(Clone, Debug)]
pub struct ManifestField {
    pub file: String,
}

impl ManifestField {
    /// Where the built file lies.
    pub fn path(&self) -> (path: String)
        ensures
            path@ == "public/dist/"@ + self.file@,
    {
        "public/dist/".to_owned().concat(self.file.as_str())
    }
}

/// What answers a request.
#[derive(Clone, Debug)]
pub enum Asset {
    /// The front end's entry page.
    Index,
    /// The built file at this path.
    File(String),
    /// Whatever the directory of built files holds under the request's path,
    /// and the entry page if nothing.
    Directory,
}

/// What the manifest says of a request's path.
#[derive(Clone, Debug)]
pub enum Manifest {
    /// The manifest could not be read or understood.
    Unreadable,
    /// The manifest has no entry for the path.
    Unlisted,
    /// The manifest's entry for the path, and whether its file exists.
    Listed(ManifestField, bool),
}

/// Decides what answers a request for `path`. The root is answered by the
/// entry page, whatever the manifest; any other path needs a readable
/// manifest, and is answered by the file listed for it if that exists, and
/// from the directory of built files otherwise.
pub fn serve_vite(path: &str, manifest: Manifest) -> (r: Result<Asset, Error>)
    ensures
        if path@ == "/"@ {
            r matches Ok(Asset::Index)
        } else {
            match manifest {
                Manifest::Unreadable => r matches Err(e) && e == Error::ViteManifestNotFound,
                Manifest::Unlisted => r matches Ok(Asset::Directory),
                Manifest::Listed(field, exists) => if exists {
                    r matches Ok(Asset::File(file)) && file@ == "public/dist/"@ + field.file@
                } else {
                    r matches Ok(Asset::Directory)
                },
            }
        },
{
    proof {
        reveal_strlit("/");
    }
    if path.unicode_len() == 1 && path.get_char(0) == '/' {
        assert(path@ =~= "/"@);
        return Ok(Asset::Index);
    }
    match manifest {
        Manifest::Unreadable => Err(Error::ViteManifestNotFound),
        Manifest::Unlisted => Ok(Asset::Directory),
        Manifest::Listed(field, exists) => {
            if exists {
                Ok(Asset::File(field.path()))
            } else {
                Ok(Asset::Directory)
            }
        },
    }
}

} // verus!
