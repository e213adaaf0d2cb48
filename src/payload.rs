//! Staging of the loader payload: the file it is written to, and whether it
//! has to be written at all.
use vstd::prelude::*;
use vstd::string::StringExecFns;

verus! {

/// What the zstd decoder makes of a compressed stream: the decoded bytes, or
/// `None` where the stream is not valid.
pub uninterp spec fn zstd_decoded(compressed: Seq<u8>) -> Option<Seq<u8>>;

/// Relies on `zstd::stream::decode_all`: it decodes an in-memory stream, so
/// its outcome depends on the bytes alone.
#[verifier::external_body]
fn zstd_decode(compressed: &[u8]) -> (r: Option<Vec<u8>>)
    ensures
        r is None <==> zstd_decoded(compressed@) is None,
        r matches Some(v) ==> zstd_decoded(compressed@) == Some(v@),
{
    zstd::stream::decode_all(compressed).ok()
}

/// The name of the staged file for a payload with this content hash:
/// `loader-<hash>.dll`.
pub open spec fn loader_name(hash: Seq<char>) -> Seq<char> {
    "loader-"@ + hash + ".dll"@
}

/// The name of the staged file for a payload with this content hash.
pub fn loader_file_name(hash: &str) -> (r: String)
    ensures
        r@ == loader_name(hash@),
{
    let name = String::from_str("loader-");
    let name = name.concat(hash);
    name.concat(".dll")
}

/// Why the payload could not be staged.
#[derive(Clone, Copy, Debug, PartialEq, Eq, Structural)]
pub enum StageError {
    /// The system's temporary directory does not exist.
    NoTempDir,
    /// The embedded payload is not a valid compressed stream.
    DecompressionError,
}

/// Where the payload is staged, and what has to be written there first.
#[derive(Debug)]
pub struct StagePlan {
    /// The file's name inside the temporary directory.
    pub file_name: String,
    /// The decoded payload, where the file does not exist yet; `None` where
    /// it does and is reused as it is.
    pub write: Option<Vec<u8>>,
}

impl StagePlan {
    pub open spec fn model(&self) -> (Seq<char>, Option<Seq<u8>>) {
        (
            self.file_name@,
            match self.write {
                Some(v) => Some(v@),
                None => None,
            },
        )
    }
}

/// What staging amounts to: the staged file's name and the bytes to write,
/// if any, or why it cannot be done.
pub open spec fn staging(
    temp_dir_exists: bool,
    file_exists: bool,
    hash: Seq<char>,
    compressed: Seq<u8>,
) -> Result<(Seq<char>, Option<Seq<u8>>), StageError> {
    if !temp_dir_exists {
        Err(StageError::NoTempDir)
    } else if file_exists {
        Ok((loader_name(hash), None))
    } else {
        match zstd_decoded(compressed) {
            Some(d) => Ok((loader_name(hash), Some(d))),
            None => Err(StageError::DecompressionError),
        }
    }
}

/// Plans the staging of the payload whose compressed bytes and content hash
/// are given: the file is named by the hash, reused where it exists, and
/// otherwise written with the decoded payload.
pub fn write_loader(temp_dir_exists: bool, file_exists: bool, hash: &str, compressed: &[u8]) -> (r:
    Result<StagePlan, StageError>)
    ensures
        r matches Ok(p) ==> staging(temp_dir_exists, file_exists, hash@, compressed@) == Ok::<
            (Seq<char>, Option<Seq<u8>>),
            StageError,
        >(p.model()),
        r matches Err(e) ==> staging(temp_dir_exists, file_exists, hash@, compressed@) == Err::<
            (Seq<char>, Option<Seq<u8>>),
            StageError,
        >(e),
{
    if !temp_dir_exists {
        return Err(StageError::NoTempDir);
    }
    let file_name = loader_file_name(hash);
    if file_exists {
        return Ok(StagePlan { file_name, write: None });
    }
    match zstd_decode(compressed) {
        Some(bytes) => Ok(StagePlan { file_name, write: Some(bytes) }),
        None => Err(StageError::DecompressionError),
    }
}

/// Staging is idempotent: once a first staging has written the file, a
/// second one, which finds it, names the same file and writes nothing; what
/// the first wrote is the decoded payload.
pub proof fn lemma_staging_idempotent(hash: Seq<char>, compressed: Seq<u8>)
    requires
        staging(true, false, hash, compressed) is Ok,
    ensures
        staging(true, true, hash, compressed) is Ok,
        staging(true, true, hash, compressed)->Ok_0.0 == staging(true, false, hash, compressed)->Ok_0.0,
        staging(true, true, hash, compressed)->Ok_0.1 is None,
        staging(true, false, hash, compressed)->Ok_0.1 == zstd_decoded(compressed),
        zstd_decoded(compressed) is Some,
{
}

} // verus!
