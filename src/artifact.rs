//! Where a function's artifact is found, staged, compressed and uploaded to.
use vstd::prelude::*;
use crate::text::{join, join_path, strip_leading, trim_leading_slashes};

verus! {

/// Compression level of the artifact frames.
pub const COMPRESSION_LEVEL: i32 = 3;

/// What `zstd::stream::encode_all` gives for `data` at `level`: one zstd
/// frame holding the data, or `None` where the encoder reports an error. It
/// depends on the bytes and the level alone.
pub uninterp spec fn zstd_encode_result(data: Seq<u8>, level: int) -> Option<Seq<u8>>;

pub open spec fn bytes_opt(o: Option<Vec<u8>>) -> Option<Seq<u8>> {
    match o {
        Some(b) => Some(b@),
        None => None,
    }
}

/// Relies on `zstd::stream::encode_all`, with its error mapped to `None`.
#[verifier::external_body]
fn zstd_encode(data: &[u8], level: i32) -> (r: Option<Vec<u8>>)
    ensures
        bytes_opt(r) == zstd_encode_result(data@, level as int),
{
    zstd::stream::encode_all(data, level).ok()
}

/// Compresses an artifact into one zstd frame at [`COMPRESSION_LEVEL`].
pub fn compress_artifact(data: &Vec<u8>) -> (r: Option<Vec<u8>>)
    ensures
        bytes_opt(r) == zstd_encode_result(data@, COMPRESSION_LEVEL as int),
{
    zstd_encode(data.as_slice(), COMPRESSION_LEVEL)
}

pub open spec fn output_path_of(work_root: Seq<char>, directory: Seq<char>, output: Seq<char>) -> Seq<char> {
    join_path(join_path(work_root, strip_leading(directory, '/')), strip_leading(output, '/'))
}

pub open spec fn staged_name(name: Seq<char>) -> Seq<char> {
    name + ".wasm"@
}

pub open spec fn compressed_name(name: Seq<char>) -> Seq<char> {
    name + ".wasm.zst"@
}

pub open spec fn remote_key_of(function_id: Seq<char>) -> Seq<char> {
    "builds/"@ + function_id + ".zst"@
}

/// Expected location of the build output: the output path under the
/// function's directory under the working tree, both taken as relative.
pub fn output_path(work_root: &str, directory: &str, output: &str) -> (r: String)
    ensures
        r@ == output_path_of(work_root@, directory@, output@),
{
    let dir = trim_leading_slashes(directory);
    let out = trim_leading_slashes(output);
    let base = join(work_root, dir.as_str());
    join(base.as_str(), out.as_str())
}

/// Where the uncompressed copy of a function's artifact is staged.
pub fn staged_path(builds_dir: &str, name: &str) -> (r: String)
    ensures
        r@ == join_path(builds_dir@, staged_name(name@)),
{
    let mut file = name.to_owned();
    file.append(".wasm");
    join(builds_dir, file.as_str())
}

/// Where the compressed artifact of a function is written.
pub fn compressed_path(builds_dir: &str, name: &str) -> (r: String)
    ensures
        r@ == join_path(builds_dir@, compressed_name(name@)),
{
    let mut file = name.to_owned();
    file.append(".wasm.zst");
    join(builds_dir, file.as_str())
}

/// Storage key of a function's compressed artifact: `builds/<id>.zst`.
pub fn remote_key(function_id: &str) -> (r: String)
    ensures
        r@ == remote_key_of(function_id@),
{
    let mut key = "builds/".to_owned();
    key.append(function_id);
    key.append(".zst");
    key
}

} // verus!
