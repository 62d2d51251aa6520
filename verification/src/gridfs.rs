//! Chain method for a database handle: construct a GridFS bucket bound
//! to it.

use vstd::prelude::*;

verus! {

/// Declares [`mongodb::Database`], the already-connected database handle
/// that a bucket is constructed on.
#[verifier::external_type_specification]
#[verifier::external_body]
pub struct ExDatabase(mongodb::Database);

/// Declares [`mongodb_gridfs::options::GridFSBucketOptions`], the
/// optional configuration a bucket is constructed with.
#[verifier::external_type_specification]
#[verifier::external_body]
pub struct ExGridFSBucketOptions(mongodb_gridfs::options::GridFSBucketOptions);

/// Declares [`mongodb_gridfs::GridFSBucket`], the constructed bucket
/// handle.
#[verifier::external_type_specification]
#[verifier::external_body]
pub struct ExGridFSBucket(mongodb_gridfs::GridFSBucket);

/// Relies on [`mongodb_gridfs::GridFSBucket::new`]: pure delegation that
/// packs the handle and the options into a bucket and never fails; the
/// bucket value is opaque here, so nothing is promised of it.
pub assume_specification[ mongodb_gridfs::GridFSBucket::new ](
    db: mongodb::Database,
    options: Option<mongodb_gridfs::options::GridFSBucketOptions>,
) -> mongodb_gridfs::GridFSBucket;

/// Extend [`mongodb::Database`] with methods that construct objects with
/// a database instance.
pub trait DatabaseExt {
    /// Create a bucket with the given options.
    fn bucket(self, options: Option<mongodb_gridfs::options::GridFSBucketOptions>) -> (r:
        mongodb_gridfs::GridFSBucket);
}

impl DatabaseExt for mongodb::Database {
    fn bucket(self, options: Option<mongodb_gridfs::options::GridFSBucketOptions>) -> (r:
        mongodb_gridfs::GridFSBucket) {
        mongodb_gridfs::GridFSBucket::new(self, options)
    }
}

} // verus!
