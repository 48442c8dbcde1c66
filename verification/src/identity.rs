//! Directory resolution: from an application identity to the per-user
//! directory that holds the application's rotated log files.
//!
//! The platform-conventional per-user data root can only come from the
//! environment, so it is fetched through a trusted wrapper; everything built
//! on top of that root is verified: the resolved directory is the root joined
//! with the non-empty identity segments, each behind one path separator.

use vstd::prelude::*;

use crate::bytes::push_all;

verus! {

/// The byte that separates path segments in a resolved directory.
pub const PATH_SEPARATOR: u8 = 47;

/// Identity of the application: the three strings (as bytes) that namespace
/// its per-user data directory so that distinct applications never collide.
pub struct AppIdentity {
    /// Organization that ships the application; may be empty.
    pub organization: Vec<u8>,
    /// Platform qualifier (reverse-domain prefix on some platforms); may be empty.
    pub qualifier: Vec<u8>,
    /// Application name; must be non-empty.
    pub name: Vec<u8>,
}

impl AppIdentity {
    /// A usable identity names the application.
    pub open spec fn wf(&self) -> bool {
        self.name@.len() > 0
    }
}

/// Raised when the platform cannot supply a per-user data location
/// (for example, no home directory in a minimal container). Fatal to startup.
pub enum DirectoryResolutionError {
    /// No per-user data root could be determined from the environment.
    PlatformRootUnavailable,
}

/// `path` extended by one segment: unchanged when the segment is empty,
/// else the segment behind one separator.
pub open spec fn append_segment(path: Seq<u8>, segment: Seq<u8>) -> Seq<u8> {
    if segment.len() == 0 {
        path
    } else {
        path + seq![PATH_SEPARATOR] + segment
    }
}

/// The resolved log directory: the platform root joined with the non-empty
/// identity segments, organization first, then qualifier, then name.
pub open spec fn log_dir_spec(root: Seq<u8>, org: Seq<u8>, qualifier: Seq<u8>, name: Seq<u8>) -> Seq<u8> {
    append_segment(append_segment(append_segment(root, org), qualifier), name)
}

/// Joins the platform data root with the identity's segments.
/// This is the whole of directory resolution once a root is known.
pub fn compose_log_dir(root: &Vec<u8>, id: &AppIdentity) -> (r: Vec<u8>)
    ensures
        r@ == log_dir_spec(root@, id.organization@, id.qualifier@, id.name@),
{
    let mut out: Vec<u8> = Vec::new();
    push_all(&mut out, root);
    proof {
        assert(out@ =~= root@);
    }
    append_segment_exec(&mut out, &id.organization);
    append_segment_exec(&mut out, &id.qualifier);
    append_segment_exec(&mut out, &id.name);
    out
}

fn append_segment_exec(out: &mut Vec<u8>, segment: &Vec<u8>)
    ensures
        final(out)@ == append_segment(old(out)@, segment@),
{
    if segment.len() > 0 {
        out.push(PATH_SEPARATOR);
        push_all(out, segment);
        proof {
            assert(out@ =~= old(out)@ + seq![PATH_SEPARATOR] + segment@);
        }
    }
}

/// Relies on `app_dirs2::get_data_root(AppDataType::UserData)`: the
/// platform-conventional per-user data directory, determined from the
/// process environment; `None` when the platform cannot supply one.
/// The result depends on the environment, so nothing is promised of it.
#[verifier::external_body]
fn user_data_root() -> Option<Vec<u8>> {
    match app_dirs2::get_data_root(app_dirs2::AppDataType::UserData) {
        Ok(path) => Some(path.to_string_lossy().into_owned().into_bytes()),
        Err(_) => None,
    }
}

/// Resolves the per-user log directory for `id`: the platform data root
/// joined with the identity's segments. Does not create the directory.
/// Fails exactly when the platform cannot supply a data root.
pub fn resolve(id: &AppIdentity) -> (r: Result<Vec<u8>, DirectoryResolutionError>)
    requires
        id.wf(),
    ensures
        r matches Ok(dir) ==> exists|root: Seq<u8>|
            dir@ == log_dir_spec(root, id.organization@, id.qualifier@, id.name@),
        r matches Ok(dir) ==> dir@.len() > 0,
{
    match user_data_root() {
        Some(root) => {
            let dir = compose_log_dir(&root, id);
            proof {
                assert(dir@ == log_dir_spec(root@, id.organization@, id.qualifier@, id.name@));
            }
            Ok(dir)
        },
        None => Err(DirectoryResolutionError::PlatformRootUnavailable),
    }
}

/// Law: directory resolution is deterministic. The resolved directory is a
/// pure function of the platform root and the identity, so two resolutions
/// under the same root and identity yield the identical path.
pub proof fn lemma_resolution_deterministic(
    root: Seq<u8>,
    org: Seq<u8>,
    qualifier: Seq<u8>,
    name: Seq<u8>,
    d1: Seq<u8>,
    d2: Seq<u8>,
)
    requires
        d1 == log_dir_spec(root, org, qualifier, name),
        d2 == log_dir_spec(root, org, qualifier, name),
    ensures
        d1 == d2,
{
}

} // verus!
