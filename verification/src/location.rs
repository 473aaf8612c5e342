use vstd::prelude::*;
use vstd::string::StringExecFns;

use crate::errors::LocationError;

verus! {

/// On-disk layout of the database: the host-supplied configuration root
/// and the three derived paths — the primary database file plus the
/// write-ahead-log and shared-memory companions that the storage engine's
/// journaling mode owns. A reset must delete all three together, or the
/// orphaned journal state corrupts the next open.
pub struct DatabaseLocation {
    pub root_directory: String,
    pub primary_file: String,
    pub wal_file: String,
    pub shm_file: String,
}

impl DatabaseLocation {
    /// The derived paths follow the root: `<root>/application.db` and its
    /// `-wal` and `-shm` companions.
    pub open spec fn wf(self) -> bool {
        &&& self.primary_file@ == self.root_directory@ + "/application.db"@
        &&& self.wal_file@ == self.primary_file@ + "-wal"@
        &&& self.shm_file@ == self.primary_file@ + "-shm"@
    }
}

/// Derives the database location from the configuration root the host
/// supplied, computed fresh on every call and never cached. Reports
/// `LocationError` exactly when the host environment could not obtain a
/// root (`None`); the resolver never creates directories — the root's
/// existence is the host's responsibility.
pub fn resolve(config_root: Option<String>) -> (r: Result<DatabaseLocation, LocationError>)
    ensures
        r is Ok <==> config_root is Some,
        r matches Ok(loc) ==> {
            &&& config_root matches Some(root) && loc.root_directory@ == root@
            &&& loc.wf()
        },
{
    match config_root {
        None => Err(LocationError),
        Some(root) => {
            let mut primary = String::from_str(root.as_str());
            primary.append("/application.db");
            let mut wal = String::from_str(primary.as_str());
            wal.append("-wal");
            let mut shm = String::from_str(primary.as_str());
            shm.append("-shm");
            Ok(
                DatabaseLocation {
                    root_directory: root,
                    primary_file: primary,
                    wal_file: wal,
                    shm_file: shm,
                },
            )
        },
    }
}

} // verus!
