//! The decisions taken for one connection. The caller performs each step that
//! is asked for (reading a file, writing bytes, closing) and hands back what
//! came of it.
use vstd::prelude::*;
use vstd::string::StringExecFns;
use vstd::utf8::{decode_utf8, valid_utf8};

use crate::request::{get_uri, names_directory, request_uri, target_fits, target_of, trim_nul};
use crate::response::{build_response, response_bytes, Status};

verus! {

/// What the server is configured to serve; read-only while it runs.
#[derive(Clone, Debug)]
pub struct ServerConfig {
    /// The document root; every path served starts with it.
    pub rootpath: String,
    /// The file name served for a target that ends with `'/'`.
    pub indexfile: String,
    /// The document served, relative to the root, when a file cannot be read;
    /// empty when there is none.
    pub error404file: String,
}

/// The next thing to do with a connection.
#[derive(Debug, PartialEq, Eq)]
pub enum Step {
    /// Close the connection without writing anything.
    Close,
    /// Read the file at this path and report what came of it.
    Read(String),
    /// Write these bytes in full, then close the connection.
    Send(Vec<u8>),
}

/// A `Step` as the contracts see it.
pub enum StepView {
    Close,
    Read(Seq<char>),
    Send(Seq<u8>),
}

impl View for Step {
    type V = StepView;

    open spec fn view(&self) -> StepView {
        match self {
            Step::Close => StepView::Close,
            Step::Read(p) => StepView::Read(p@),
            Step::Send(b) => StepView::Send(b@),
        }
    }
}

/// What a file read gave, as the contracts see it.
pub open spec fn read_view(contents: Option<Vec<u8>>) -> Option<Seq<u8>> {
    match contents {
        Some(v) => Some(v@),
        None => None,
    }
}

/// Whether `buffer` starts with `"GET "`.
pub open spec fn is_get(buffer: Seq<u8>) -> bool {
    buffer.len() >= 4 && buffer[0] == 71 && buffer[1] == 69 && buffer[2] == 84 && buffer[3] == 32
}

/// Whether a fallback document is configured.
pub open spec fn has_fallback(config: ServerConfig) -> bool {
    config.error404file@.len() > 0
}

/// The path read for the request in `buffer`: the root followed by its URI.
/// No `.` or `..` segment is removed, so a target can name a path outside
/// the root; nothing here restricts access.
pub open spec fn primary_path(buffer: Seq<u8>, config: ServerConfig) -> Seq<char> {
    config.rootpath@ + request_uri(buffer, config.indexfile@)
}

/// The path of the fallback document: root, `'/'`, then the document's name.
pub open spec fn fallback_path(config: ServerConfig) -> Seq<char> {
    config.rootpath@ + seq!['/'] + config.error404file@
}

/// The first step for a request read into `buffer`.
pub open spec fn start_step(buffer: Seq<u8>, config: ServerConfig) -> StepView {
    if is_get(buffer) && target_fits(buffer) {
        StepView::Read(primary_path(buffer, config))
    } else {
        StepView::Close
    }
}

/// The step after reading the requested file (`None` where it could not be read).
pub open spec fn primary_step(contents: Option<Seq<u8>>, config: ServerConfig) -> StepView {
    match contents {
        Some(file) => StepView::Send(response_bytes(Status::Found, file)),
        None => if has_fallback(config) {
            StepView::Read(fallback_path(config))
        } else {
            StepView::Send(response_bytes(Status::NotFound, Seq::empty()))
        },
    }
}

/// The step after reading the fallback document (`None` where it could not be read).
pub open spec fn fallback_step(contents: Option<Seq<u8>>) -> StepView {
    match contents {
        Some(file) => StepView::Send(response_bytes(Status::NotFound, file)),
        None => StepView::Send(response_bytes(Status::NotFound, Seq::empty())),
    }
}

/// Whether `buffer` starts with `"GET "`.
pub fn is_get_request(buffer: &[u8]) -> (r: bool)
    ensures
        r == is_get(buffer@),
{
    buffer.len() >= 4 && buffer[0] == 71 && buffer[1] == 69 && buffer[2] == 84 && buffer[3] == 32
}

/// Decides what to do with the bytes of one read: a request that is not a
/// `GET`, or whose target is too long, is closed without a reply; otherwise
/// the file at the resolved path is to be read.
pub fn start_request(buffer: &[u8], config: &ServerConfig) -> (r: Step)
    ensures
        r@ == start_step(buffer@, *config),
{
    if !is_get_request(buffer) {
        return Step::Close;
    }
    match get_uri(buffer, config.indexfile.as_str()) {
        Ok(uri) => Step::Read(config.rootpath.clone().concat(uri.as_str())),
        Err(_) => Step::Close,
    }
}

/// Decides what follows the read of the requested file: its bytes are sent
/// with `200 OK`; where it could not be read, the fallback document is to be
/// read if one is configured, else an empty `404 NOT FOUND` is sent. Whether
/// the read succeeded is carried by the `Option`, so a file that exists but
/// is empty is sent as an empty `200 OK`, never replaced by the fallback.
pub fn after_primary(contents: Option<Vec<u8>>, config: &ServerConfig) -> (r: Step)
    ensures
        r@ == primary_step(read_view(contents), *config),
{
    match contents {
        Some(file) => Step::Send(build_response(Status::Found, file)),
        None => {
            if config.error404file.as_str().is_empty() {
                Step::Send(build_response(Status::NotFound, Vec::new()))
            } else {
                let path = config.rootpath.clone().concat("/").concat(config.error404file.as_str());
                proof {
                    reveal_strlit("/");
                    assert(path@ =~= fallback_path(*config));
                }
                Step::Read(path)
            }
        },
    }
}

/// Decides what follows the read of the fallback document: a `404 NOT FOUND`
/// whose body is the document, or empty where it could not be read.
pub fn after_fallback(contents: Option<Vec<u8>>) -> (r: Step)
    ensures
        r@ == fallback_step(read_view(contents)),
{
    match contents {
        Some(file) => Step::Send(build_response(Status::NotFound, file)),
        None => Step::Send(build_response(Status::NotFound, Vec::new())),
    }
}

/// What a path gives when read from the file tree `files`: its bytes, or
/// `None` where nothing readable is there.
pub open spec fn read_from(files: Map<Seq<char>, Seq<u8>>, path: Seq<char>) -> Option<Seq<u8>> {
    if files.contains_key(path) {
        Some(files[path])
    } else {
        None
    }
}

/// The bytes written back for the request in `buffer` when the steps are
/// performed against the file tree `files`; `None` where the connection is
/// closed without a reply.
pub open spec fn reply(buffer: Seq<u8>, config: ServerConfig, files: Map<Seq<char>, Seq<u8>>) -> Option<
    Seq<u8>,
> {
    match start_step(buffer, config) {
        StepView::Read(path) => match primary_step(read_from(files, path), config) {
            StepView::Read(fallback) => match fallback_step(read_from(files, fallback)) {
                StepView::Send(bytes) => Some(bytes),
                _ => None,
            },
            StepView::Send(bytes) => Some(bytes),
            StepView::Close => None,
        },
        StepView::Send(bytes) => Some(bytes),
        StepView::Close => None,
    }
}

/// A `GET` for a file that exists is answered `200 OK`, with the file's
/// length as `Content-Length` and the file's bytes as the body.
pub proof fn lemma_existing_file_served(
    buffer: Seq<u8>,
    config: ServerConfig,
    files: Map<Seq<char>, Seq<u8>>,
)
    requires
        is_get(buffer),
        target_fits(buffer),
        files.contains_key(primary_path(buffer, config)),
    ensures
        reply(buffer, config, files) == Some(
            response_bytes(Status::Found, files[primary_path(buffer, config)]),
        ),
{
}

/// A `GET` for a missing file, with no fallback document configured, is
/// answered `404 NOT FOUND` with an empty body and `Content-Length: 0`.
pub proof fn lemma_missing_without_fallback(
    buffer: Seq<u8>,
    config: ServerConfig,
    files: Map<Seq<char>, Seq<u8>>,
)
    requires
        is_get(buffer),
        target_fits(buffer),
        !files.contains_key(primary_path(buffer, config)),
        !has_fallback(config),
    ensures
        reply(buffer, config, files) == Some(response_bytes(Status::NotFound, Seq::empty())),
{
}

/// A `GET` for a missing file, with a readable fallback document configured,
/// is answered `404 NOT FOUND` with the fallback document as the body.
pub proof fn lemma_missing_with_fallback(
    buffer: Seq<u8>,
    config: ServerConfig,
    files: Map<Seq<char>, Seq<u8>>,
)
    requires
        is_get(buffer),
        target_fits(buffer),
        !files.contains_key(primary_path(buffer, config)),
        has_fallback(config),
        files.contains_key(fallback_path(config)),
    ensures
        reply(buffer, config, files) == Some(
            response_bytes(Status::NotFound, files[fallback_path(config)]),
        ),
{
}

/// A request that does not start with `"GET "`, an empty read included, gets
/// no reply at all.
pub proof fn lemma_non_get_closed(
    buffer: Seq<u8>,
    config: ServerConfig,
    files: Map<Seq<char>, Seq<u8>>,
)
    requires
        !is_get(buffer),
    ensures
        reply(buffer, config, files) is None,
{
}

/// A `GET` whose target is longer than the capacity gets no reply at all.
pub proof fn lemma_long_target_closed(
    buffer: Seq<u8>,
    config: ServerConfig,
    files: Map<Seq<char>, Seq<u8>>,
)
    requires
        !target_fits(buffer),
    ensures
        reply(buffer, config, files) is None,
{
}

/// The reply depends on the request, the configuration and the two files it
/// may read, and on nothing else: the same request against file trees that
/// agree on those paths gets byte-identical replies.
pub proof fn lemma_reply_repeatable(
    buffer: Seq<u8>,
    config: ServerConfig,
    files1: Map<Seq<char>, Seq<u8>>,
    files2: Map<Seq<char>, Seq<u8>>,
)
    requires
        read_from(files1, primary_path(buffer, config)) == read_from(
            files2,
            primary_path(buffer, config),
        ),
        read_from(files1, fallback_path(config)) == read_from(files2, fallback_path(config)),
    ensures
        reply(buffer, config, files1) == reply(buffer, config, files2),
{
}

/// A target that ends with `'/'` is served from the index file of that
/// directory: the path read is the root, then the target, then the index
/// file name.
pub proof fn lemma_directory_index(buffer: Seq<u8>, config: ServerConfig)
    requires
        valid_utf8(trim_nul(target_of(buffer))),
        names_directory(trim_nul(target_of(buffer))),
    ensures
        primary_path(buffer, config) == config.rootpath@ + decode_utf8(trim_nul(target_of(buffer)))
            + config.indexfile@,
{
    assert(primary_path(buffer, config) =~= config.rootpath@ + decode_utf8(
        trim_nul(target_of(buffer)),
    ) + config.indexfile@);
}

} // verus!
