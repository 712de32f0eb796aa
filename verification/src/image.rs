//! Image building: a Dockerfile text becomes a gzip-compressed one-file tar
//! build context, which the engine turns into an image. The engine call
//! itself is outside work; this module prepares its input and interprets its
//! output.
use vstd::prelude::*;

use std::io::Write;

use crate::errors::RunError;

verus! {

/// Holds the Dockerfile text an image will be built from.
#[derive(Debug, Clone)]
pub struct ImageBuilder {
    pub docker_file: String,
}

impl ImageBuilder {
    pub fn new(docker_file: String) -> (r: Self)
        ensures
            r.docker_file@ == docker_file@,
    {
        Self { docker_file }
    }

    /// Renders the build context the engine expects: a tar archive holding
    /// the Dockerfile under the conventional entry name, gzip-compressed.
    pub fn create_docker_tarball(&self) -> (r: Vec<u8>)
        ensures
            r@ == gzip_of(dockerfile_tar_of(self.docker_file@)),
    {
        let uncompressed = tar_dockerfile(self.docker_file.as_str());
        gzip(uncompressed.as_slice())
    }
}

/// An opaque reference to a built image.
#[derive(Debug, Clone)]
pub struct Image {
    pub id: String,
}

impl Image {
    pub fn new(id: String) -> (r: Self)
        ensures
            r.id@ == id@,
    {
        Self { id }
    }

    /// Picks the image reference out of the identifiers the engine reported
    /// while building: the first one, which must be present.
    pub fn from_build_ids(ids: Vec<Option<String>>) -> (r: Result<Image, RunError>)
        ensures
            r is Ok <==> ids@.len() > 0 && ids@[0] is Some,
            r matches Ok(img) ==> img.id == ids@[0]->0,
            r matches Err(e) ==> e is Transport,
    {
        let mut ids = ids;
        if ids.len() == 0 {
            return Err(RunError::Transport { message: "image built without id".to_owned() });
        }
        match ids.remove(0) {
            Some(id) => Ok(Image { id }),
            None => Err(RunError::Transport { message: "image built without id".to_owned() }),
        }
    }
}

/// The one-entry tar archive that holds the given text under the entry name
/// `Dockerfile`, with mode 755, as the tar crate renders it.
pub uninterp spec fn dockerfile_tar_of(text: Seq<char>) -> Seq<u8>;

/// The gzip encoding of the given bytes at flate2's default compression
/// level.
pub uninterp spec fn gzip_of(data: Seq<u8>) -> Seq<u8>;

/// Relies on tar's `Header::new_gnu`, `set_path`, `set_size`, `set_mode`,
/// `set_cksum` and `Builder::{new, append, into_inner}`: renders a one-entry
/// GNU tar archive holding the text under the entry name `Dockerfile` with
/// mode 755. Writing to an in-memory Vec cannot fail, and `set_path`
/// accepts this short relative name.
#[verifier::external_body]
fn tar_dockerfile(contents: &str) -> (r: Vec<u8>)
    ensures
        r@ == dockerfile_tar_of(contents@),
{
    let mut header = tar::Header::new_gnu();
    header.set_path("Dockerfile").unwrap();
    header.set_size(contents.len() as u64);
    header.set_mode(0o755);
    header.set_cksum();
    let mut builder = tar::Builder::new(Vec::new());
    builder.append(&header, contents.as_bytes()).unwrap();
    builder.into_inner().unwrap()
}

/// Relies on flate2's `GzEncoder::{new, finish}` over an in-memory Vec and
/// std's `Write::write_all`, at the default compression level: returns the
/// gzip encoding of the input. Writing to a Vec cannot fail.
#[verifier::external_body]
fn gzip(data: &[u8]) -> (r: Vec<u8>)
    ensures
        r@ == gzip_of(data@),
{
    let mut encoder = flate2::write::GzEncoder::new(Vec::new(), flate2::Compression::default());
    encoder.write_all(data).unwrap();
    encoder.finish().unwrap()
}

} // verus!
