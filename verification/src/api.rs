use base64::engine::general_purpose::STANDARD;
use base64::Engine;
use vstd::prelude::*;
use vstd::string::StringExecFns;
use vstd::utf8::{decode_utf8, valid_utf8};

verus! {

/// The status of a request that was served.
pub const STATUS_OK: i64 = 200;

/// The status of a request that lacks a required path parameter.
pub const STATUS_BAD_REQUEST: i64 = 400;

/// The status of a request for an object that is not there.
pub const STATUS_NOT_FOUND: i64 = 404;

/// The most keys that one listing asks for.
pub const MAX_KEYS: i32 = 100;

/// How long a presigned link stays valid, in seconds.
pub const LINK_SECONDS: u64 = 3600;

/// One page of the list of tasks.
pub struct PhonenumbersGetResponse {
    pub continuation_token: Option<String>,
    pub task_ids: Vec<String>,
}

impl PhonenumbersGetResponse {
    /// A page without tasks and without a successor.
    pub fn new() -> (page: Self)
        ensures
            page.continuation_token is None,
            page.task_ids@ == Seq::<String>::empty(),
    {
        Self { continuation_token: None, task_ids: Vec::new() }
    }
}

/// What a reply carries besides its status.
pub enum Body {
    /// The empty object.
    Empty,
    /// A message about what was wrong with the request.
    Message(String),
    /// A page of the list of tasks.
    Listing(PhonenumbersGetResponse),
    /// A link under which an object can be read.
    Link { url: String },
    /// A link under which a new object can be written, with the headers
    /// that the link was signed for.
    Upload { task_id: String, url: String, content_type: String, content_disposition: String },
}

/// What a handler answers.
pub struct Reply {
    pub status_code: i64,
    pub body: Body,
}

/// Why a request could not be answered.
#[derive(Clone, Copy, PartialEq, Eq, Structural, Debug)]
pub enum ApiFailure {
    /// The name of the bucket is not configured.
    BucketNameMissing,
    /// The name of the transforming endpoint is not configured.
    EndpointMissing,
    /// The object store failed to look an object up.
    Lookup,
    /// The object store failed to list its objects.
    Listing,
    /// The object store failed to delete an object.
    Delete,
    /// The object store failed to sign a link.
    Presign,
    /// The body of the request is not valid base64.
    BodyEncoding,
    /// The body of the request is not text.
    BodyText,
    /// The body of the request does not name a file.
    BodyShape,
}

/// What the object store says of an object.
pub enum Lookup {
    /// It is there, stored with these headers.
    Found { content_type: Option<String>, content_disposition: Option<String> },
    /// It is not there.
    NotFound,
    /// The store could not tell.
    Failed,
}

/// The reply to a request for what is not there.
pub fn not_found() -> (reply: Reply)
    ensures
        reply.status_code == STATUS_NOT_FOUND,
        reply.body is Empty,
{
    Reply { status_code: STATUS_NOT_FOUND, body: Body::Empty }
}

/// The reply to a request that cannot be served as it stands, with the
/// message that says why, or an empty message where none is given.
pub fn bad_request(message: Option<String>) -> (reply: Reply)
    ensures
        reply.status_code == STATUS_BAD_REQUEST,
        reply.body matches Body::Message(text) && text@ == match message {
            Some(given) => given@,
            None => Seq::<char>::empty(),
        },
{
    let text = match message {
        Some(given) => given,
        None => String::new(),
    };
    Reply { status_code: STATUS_BAD_REQUEST, body: Body::Message(text) }
}

/// The reply to a request that names no object.
pub fn missing_id() -> (reply: Reply)
    ensures
        reply.status_code == STATUS_BAD_REQUEST,
        reply.body matches Body::Message(text) && text@ == "Path parameter `id` missing"@,
{
    bad_request(Some(String::from_str("Path parameter `id` missing")))
}

/// The keys that are there, in their order.
pub open spec fn present_keys(keys: Seq<Option<String>>) -> Seq<String>
    decreases keys.len(),
{
    if keys.len() == 0 {
        Seq::empty()
    } else {
        match keys.last() {
            Some(key) => present_keys(keys.drop_last()).push(key),
            None => present_keys(keys.drop_last()),
        }
    }
}

/// The page that answers a listing: the token under which the list goes on,
/// if it does, and the keys of the objects listed, those without a key left
/// out. A listing without contents gives a page without tasks.
pub fn listing_page(next_token: Option<String>, keys: Option<Vec<Option<String>>>) -> (page:
    PhonenumbersGetResponse)
    ensures
        page.continuation_token == next_token,
        page.task_ids@ == match keys {
            Some(listed) => present_keys(listed@),
            None => Seq::<String>::empty(),
        },
{
    let mut page = PhonenumbersGetResponse::new();
    page.continuation_token = next_token;
    if let Some(listed) = keys {
        let mut task_ids: Vec<String> = Vec::new();
        for key in it: listed
            invariant
                it.seq() == listed@,
                task_ids@ == present_keys(listed@.take(it.index() as int)),
        {
            proof {
                let n = it.index() as int;
                assert(listed@.take(n + 1).drop_last() == listed@.take(n));
            }
            if let Some(name) = key {
                task_ids.push(name);
            }
        }
        assert(listed@.take(listed@.len() as int) == listed@);
        page.task_ids = task_ids;
    }
    page
}

/// The header that makes a download keep `file_name`.
pub fn content_disposition(file_name: &str) -> (header: String)
    ensures
        header@ == "attachment; filename=\""@ + file_name@ + "\""@,
{
    let mut header = String::from_str("attachment; filename=\"");
    header.append(file_name);
    header.append("\"");
    header
}

/// What the handler that deletes an object learns, one event at a time.
/// Each return brings back what went out with the call.
pub enum DeleteEvent {
    /// A request came in; `id` is its path parameter, if it has one.
    Requested { id: Option<String> },
    /// The configured bucket name was read.
    Bucket { id: String, bucket: Option<String> },
    /// The object store looked the object up.
    Looked { id: String, bucket: String, found: Lookup },
    /// The object store returned from deleting the object.
    Deleted { ok: bool },
}

/// What the handler that deletes an object asks for next.
pub enum DeleteAction {
    /// Read the configured bucket name.
    ReadBucket { id: String },
    /// Look the object up.
    Look { id: String, bucket: String },
    /// Delete the object.
    Delete { id: String, bucket: String },
    /// Answer the request.
    Answer(Reply),
    /// Give the request up.
    Fail(ApiFailure),
}

/// The rule of the handler that deletes an object. A request without an id
/// is answered as a bad request. An object that is not there is answered as
/// not found, and nothing is deleted. Only an object that was found is
/// deleted, and only a deletion that worked is answered with success.
pub open spec fn delete_decides(event: DeleteEvent, action: DeleteAction) -> bool {
    match event {
        DeleteEvent::Requested { id: None } => action matches DeleteAction::Answer(reply)
            && reply.status_code == STATUS_BAD_REQUEST && (reply.body matches Body::Message(text)
            && text@ == "Path parameter `id` missing"@),
        DeleteEvent::Requested { id: Some(id) } => action == (DeleteAction::ReadBucket { id }),
        DeleteEvent::Bucket { id, bucket: None } => action == DeleteAction::Fail(
            ApiFailure::BucketNameMissing,
        ),
        DeleteEvent::Bucket { id, bucket: Some(bucket) } => action == (DeleteAction::Look {
            id,
            bucket,
        }),
        DeleteEvent::Looked { id, bucket, found: Lookup::Found { .. } } => action == (
        DeleteAction::Delete { id, bucket }),
        DeleteEvent::Looked { id, bucket, found: Lookup::NotFound } => action matches DeleteAction::Answer(
            reply,
        ) && reply.status_code == STATUS_NOT_FOUND && reply.body is Empty,
        DeleteEvent::Looked { id, bucket, found: Lookup::Failed } => action == DeleteAction::Fail(
            ApiFailure::Lookup,
        ),
        DeleteEvent::Deleted { ok } => if ok {
            action matches DeleteAction::Answer(reply) && reply.status_code == STATUS_OK
                && reply.body is Empty
        } else {
            action == DeleteAction::Fail(ApiFailure::Delete)
        },
    }
}

/// Decides what the handler that deletes an object does on `event`.
pub fn delete_next(event: DeleteEvent) -> (action: DeleteAction)
    ensures
        delete_decides(event, action),
{
    match event {
        DeleteEvent::Requested { id: None } => DeleteAction::Answer(missing_id()),
        DeleteEvent::Requested { id: Some(id) } => DeleteAction::ReadBucket { id },
        DeleteEvent::Bucket { id: _, bucket: None } => DeleteAction::Fail(
            ApiFailure::BucketNameMissing,
        ),
        DeleteEvent::Bucket { id, bucket: Some(bucket) } => DeleteAction::Look { id, bucket },
        DeleteEvent::Looked { id, bucket, found } => match found {
            Lookup::Found { .. } => DeleteAction::Delete { id, bucket },
            Lookup::NotFound => DeleteAction::Answer(not_found()),
            Lookup::Failed => DeleteAction::Fail(ApiFailure::Lookup),
        },
        DeleteEvent::Deleted { ok } => if ok {
            DeleteAction::Answer(Reply { status_code: STATUS_OK, body: Body::Empty })
        } else {
            DeleteAction::Fail(ApiFailure::Delete)
        },
    }
}

/// What the handler that hands out a download link learns.
pub enum LinkEvent {
    /// A request came in; `id` is its path parameter, if it has one.
    Requested { id: Option<String> },
    /// The configured bucket name was read.
    Bucket { id: String, bucket: Option<String> },
    /// The object store looked the object up.
    Looked { id: String, found: Lookup },
    /// The configured name of the transforming endpoint was read.
    Endpoint {
        id: String,
        content_type: Option<String>,
        content_disposition: Option<String>,
        endpoint: Option<String>,
    },
    /// The object store returned from signing the link.
    Signed { url: Option<String> },
}

/// What the handler that hands out a download link asks for next.
pub enum LinkAction {
    /// Read the configured bucket name.
    ReadBucket { id: String },
    /// Look the object up.
    Look { id: String, bucket: String },
    /// Read the configured name of the transforming endpoint.
    ReadEndpoint { id: String, content_type: Option<String>, content_disposition: Option<String> },
    /// Sign a link that reads the object through the endpoint and answers
    /// with the headers the object is stored with.
    Sign {
        endpoint: String,
        id: String,
        content_type: Option<String>,
        content_disposition: Option<String>,
        seconds: u64,
    },
    /// Answer the request.
    Answer(Reply),
    /// Give the request up.
    Fail(ApiFailure),
}

/// The rule of the handler that hands out a download link. A request
/// without an id is answered as a bad request, an object that is not there
/// as not found. A link is signed only for an object that was found, through
/// the configured endpoint, and it is the link that is answered.
pub open spec fn link_decides(event: LinkEvent, action: LinkAction) -> bool {
    match event {
        LinkEvent::Requested { id: None } => action matches LinkAction::Answer(reply)
            && reply.status_code == STATUS_BAD_REQUEST && (reply.body matches Body::Message(text)
            && text@ == "Path parameter `id` missing"@),
        LinkEvent::Requested { id: Some(id) } => action == (LinkAction::ReadBucket { id }),
        LinkEvent::Bucket { id, bucket: None } => action == LinkAction::Fail(
            ApiFailure::BucketNameMissing,
        ),
        LinkEvent::Bucket { id, bucket: Some(bucket) } => action == (LinkAction::Look {
            id,
            bucket,
        }),
        LinkEvent::Looked { id, found: Lookup::Found { content_type, content_disposition } } => action
            == (LinkAction::ReadEndpoint { id, content_type, content_disposition }),
        LinkEvent::Looked { id, found: Lookup::NotFound } => action matches LinkAction::Answer(reply)
            && reply.status_code == STATUS_NOT_FOUND && reply.body is Empty,
        LinkEvent::Looked { id, found: Lookup::Failed } => action == LinkAction::Fail(
            ApiFailure::Lookup,
        ),
        LinkEvent::Endpoint { id, content_type, content_disposition, endpoint: None } => action
            == LinkAction::Fail(ApiFailure::EndpointMissing),
        LinkEvent::Endpoint { id, content_type, content_disposition, endpoint: Some(endpoint) } => action
            == (LinkAction::Sign {
            endpoint,
            id,
            content_type,
            content_disposition,
            seconds: LINK_SECONDS,
        }),
        LinkEvent::Signed { url: None } => action == LinkAction::Fail(ApiFailure::Presign),
        LinkEvent::Signed { url: Some(url) } => action == LinkAction::Answer(
            Reply { status_code: STATUS_OK, body: Body::Link { url } },
        ),
    }
}

/// Decides what the handler that hands out a download link does on `event`.
pub fn link_next(event: LinkEvent) -> (action: LinkAction)
    ensures
        link_decides(event, action),
{
    match event {
        LinkEvent::Requested { id: None } => LinkAction::Answer(missing_id()),
        LinkEvent::Requested { id: Some(id) } => LinkAction::ReadBucket { id },
        LinkEvent::Bucket { id: _, bucket: None } => LinkAction::Fail(
            ApiFailure::BucketNameMissing,
        ),
        LinkEvent::Bucket { id, bucket: Some(bucket) } => LinkAction::Look { id, bucket },
        LinkEvent::Looked { id, found } => match found {
            Lookup::Found { content_type, content_disposition } => LinkAction::ReadEndpoint {
                id,
                content_type,
                content_disposition,
            },
            Lookup::NotFound => LinkAction::Answer(not_found()),
            Lookup::Failed => LinkAction::Fail(ApiFailure::Lookup),
        },
        LinkEvent::Endpoint { id, content_type, content_disposition, endpoint } => match endpoint {
            None => LinkAction::Fail(ApiFailure::EndpointMissing),
            Some(endpoint) => LinkAction::Sign {
                endpoint,
                id,
                content_type,
                content_disposition,
                seconds: LINK_SECONDS,
            },
        },
        LinkEvent::Signed { url: None } => LinkAction::Fail(ApiFailure::Presign),
        LinkEvent::Signed { url: Some(url) } => LinkAction::Answer(
            Reply { status_code: STATUS_OK, body: Body::Link { url } },
        ),
    }
}

/// What the object store returns from a listing.
pub struct Listed {
    /// The token under which the list goes on, if it does.
    pub next_token: Option<String>,
    /// The key of each object listed, if the listing has contents at all.
    pub keys: Option<Vec<Option<String>>>,
}

/// What the handler that lists the tasks learns.
pub enum ListEvent {
    /// A request came in, with the token of the page it asks for, if any.
    Requested { continuation_token: Option<String> },
    /// The configured bucket name was read.
    Bucket { continuation_token: Option<String>, bucket: Option<String> },
    /// The object store returned from the listing.
    Listed { listed: Option<Listed> },
}

/// What the handler that lists the tasks asks for next.
pub enum ListAction {
    /// Read the configured bucket name.
    ReadBucket { continuation_token: Option<String> },
    /// List at most `max_keys` objects of the bucket, from the token on.
    List { bucket: String, continuation_token: Option<String>, max_keys: i32 },
    /// Answer the request.
    Answer(Reply),
    /// Give the request up.
    Fail(ApiFailure),
}

/// The rule of the handler that lists the tasks: one listing of at most
/// `MAX_KEYS` objects, answered with the keys that it brought.
pub open spec fn list_decides(event: ListEvent, action: ListAction) -> bool {
    match event {
        ListEvent::Requested { continuation_token } => action == (ListAction::ReadBucket {
            continuation_token,
        }),
        ListEvent::Bucket { continuation_token, bucket: None } => action == ListAction::Fail(
            ApiFailure::BucketNameMissing,
        ),
        ListEvent::Bucket { continuation_token, bucket: Some(bucket) } => action == (
        ListAction::List { bucket, continuation_token, max_keys: MAX_KEYS }),
        ListEvent::Listed { listed: None } => action == ListAction::Fail(ApiFailure::Listing),
        ListEvent::Listed { listed: Some(listed) } => action matches ListAction::Answer(reply)
            && reply.status_code == STATUS_OK && (reply.body matches Body::Listing(page)
            && page.continuation_token == listed.next_token && page.task_ids@ == match listed.keys {
            Some(keys) => present_keys(keys@),
            None => Seq::<String>::empty(),
        }),
    }
}

/// Decides what the handler that lists the tasks does on `event`.
pub fn list_next(event: ListEvent) -> (action: ListAction)
    ensures
        list_decides(event, action),
{
    match event {
        ListEvent::Requested { continuation_token } => ListAction::ReadBucket {
            continuation_token,
        },
        ListEvent::Bucket { continuation_token: _, bucket: None } => ListAction::Fail(
            ApiFailure::BucketNameMissing,
        ),
        ListEvent::Bucket { continuation_token, bucket: Some(bucket) } => ListAction::List {
            bucket,
            continuation_token,
            max_keys: MAX_KEYS,
        },
        ListEvent::Listed { listed: None } => ListAction::Fail(ApiFailure::Listing),
        ListEvent::Listed { listed: Some(listed) } => ListAction::Answer(
            Reply {
                status_code: STATUS_OK,
                body: Body::Listing(listing_page(listed.next_token, listed.keys)),
            },
        ),
    }
}

/// What standard base64 with padding decodes `input` to; nothing where
/// `input` is not such an encoding.
pub uninterp spec fn base64_decoded(input: Seq<char>) -> Option<Seq<u8>>;

/// `Engine::decode` of `base64::engine::general_purpose::STANDARD`: the
/// decoded bytes, or nothing where the input is rejected. The decoding is
/// not modelled; its result is only named.
#[verifier::external_body]
pub(crate) fn decode_base64(input: &str) -> (decoded: Option<Vec<u8>>)
    ensures
        match decoded {
            Some(bytes) => base64_decoded(input@) == Some(bytes@),
            None => base64_decoded(input@) is None,
        },
{
    STANDARD.decode(input).ok()
}

/// `String::from_utf8`: the bytes as a string when they are well-formed
/// UTF-8, nothing otherwise.
#[verifier::external_body]
pub(crate) fn string_from_utf8(bytes: Vec<u8>) -> (text: Option<String>)
    ensures
        text is Some <==> valid_utf8(bytes@),
        text matches Some(s) ==> s@ == decode_utf8(bytes@),
{
    String::from_utf8(bytes).ok()
}

/// The text of a body that came encoded, given what the decoding brought.
pub open spec fn decoded_text(decoded: Option<Seq<u8>>) -> Result<Seq<char>, ApiFailure> {
    match decoded {
        None => Err(ApiFailure::BodyEncoding),
        Some(bytes) => if valid_utf8(bytes) {
            Ok(decode_utf8(bytes))
        } else {
            Err(ApiFailure::BodyText)
        },
    }
}

/// The text of a request's body: the body itself, or what it decodes to
/// where it is marked as base64. A request without a body has the empty
/// text as its body.
pub open spec fn body_text(body: Option<String>, is_base64_encoded: bool) -> Result<
    Seq<char>,
    ApiFailure,
> {
    let given = match body {
        Some(text) => text@,
        None => Seq::<char>::empty(),
    };
    if is_base64_encoded {
        decoded_text(base64_decoded(given))
    } else {
        Ok(given)
    }
}

/// The view of a text that was read or could not be.
pub open spec fn text_view(text: Result<String, ApiFailure>) -> Result<Seq<char>, ApiFailure> {
    match text {
        Ok(read) => Ok(read@),
        Err(failure) => Err(failure),
    }
}

/// Reads as text what the decoding of a body brought.
pub fn read_decoded(decoded: Option<Vec<u8>>) -> (text: Result<String, ApiFailure>)
    ensures
        text_view(text) == decoded_text(
            match decoded {
                Some(bytes) => Some(bytes@),
                None => None,
            },
        ),
{
    match decoded {
        None => Err(ApiFailure::BodyEncoding),
        Some(bytes) => match string_from_utf8(bytes) {
            Some(read) => Ok(read),
            None => Err(ApiFailure::BodyText),
        },
    }
}

/// Reads the body of a request as text.
pub fn read_body(body: Option<String>, is_base64_encoded: bool) -> (text: Result<
    String,
    ApiFailure,
>)
    ensures
        text_view(text) == body_text(body, is_base64_encoded),
{
    let given = match body {
        Some(text) => text,
        None => String::new(),
    };
    if is_base64_encoded {
        read_decoded(decode_base64(given.as_str()))
    } else {
        Ok(given)
    }
}

/// What the handler that opens an upload learns.
pub enum UploadEvent {
    /// A request came in.
    Requested { body: Option<String>, is_base64_encoded: bool },
    /// The body was read as a message; `file_name` is the file it names,
    /// if it is a message that names one.
    Parsed { file_name: Option<String> },
    /// A fresh task id was drawn.
    Drawn { file_name: String, task_id: String },
    /// The configured bucket name was read.
    Bucket { file_name: String, task_id: String, bucket: Option<String> },
    /// The object store returned from signing the link.
    Signed { task_id: String, content_type: String, content_disposition: String, url: Option<String> },
}

/// What the handler that opens an upload asks for next.
pub enum UploadAction {
    /// Read `text` as a message that names a file.
    Parse { text: String },
    /// Draw a fresh task id.
    Draw { file_name: String },
    /// Read the configured bucket name.
    ReadBucket { file_name: String, task_id: String },
    /// Sign a link that writes the object `task_id` with these headers.
    Sign {
        bucket: String,
        task_id: String,
        content_type: String,
        content_disposition: String,
        seconds: u64,
    },
    /// Answer the request.
    Answer(Reply),
    /// Give the request up.
    Fail(ApiFailure),
}

/// The rule of the handler that opens an upload. The body is read, the
/// file it names gets a fresh task id, and a link is signed under which the
/// task's object can be written as plain text that downloads under the
/// file's name. The answer holds the task id, the link, and the headers the
/// link was signed for.
pub open spec fn upload_decides(event: UploadEvent, action: UploadAction) -> bool {
    match event {
        UploadEvent::Requested { body, is_base64_encoded } => match body_text(
            body,
            is_base64_encoded,
        ) {
            Ok(read) => action matches UploadAction::Parse { text } && text@ == read,
            Err(failure) => action == UploadAction::Fail(failure),
        },
        UploadEvent::Parsed { file_name: None } => action == UploadAction::Fail(
            ApiFailure::BodyShape,
        ),
        UploadEvent::Parsed { file_name: Some(file_name) } => action == (UploadAction::Draw {
            file_name,
        }),
        UploadEvent::Drawn { file_name, task_id } => action == (UploadAction::ReadBucket {
            file_name,
            task_id,
        }),
        UploadEvent::Bucket { file_name, task_id, bucket: None } => action == UploadAction::Fail(
            ApiFailure::BucketNameMissing,
        ),
        UploadEvent::Bucket {
            file_name,
            task_id,
            bucket: Some(bucket),
        } => action matches UploadAction::Sign {
            bucket: to,
            task_id: object,
            content_type,
            content_disposition,
            seconds,
        } && to == bucket && object == task_id && content_type@ == "text/plain"@
            && content_disposition@ == "attachment; filename=\""@ + file_name@ + "\""@ && seconds
            == LINK_SECONDS,
        UploadEvent::Signed { task_id, content_type, content_disposition, url: None } => action
            == UploadAction::Fail(ApiFailure::Presign),
        UploadEvent::Signed { task_id, content_type, content_disposition, url: Some(url) } => action
            == UploadAction::Answer(
            Reply {
                status_code: STATUS_OK,
                body: Body::Upload { task_id, url, content_type, content_disposition },
            },
        ),
    }
}

/// Decides what the handler that opens an upload does on `event`.
pub fn upload_next(event: UploadEvent) -> (action: UploadAction)
    ensures
        upload_decides(event, action),
{
    match event {
        UploadEvent::Requested { body, is_base64_encoded } => match read_body(
            body,
            is_base64_encoded,
        ) {
            Ok(text) => UploadAction::Parse { text },
            Err(failure) => UploadAction::Fail(failure),
        },
        UploadEvent::Parsed { file_name: None } => UploadAction::Fail(ApiFailure::BodyShape),
        UploadEvent::Parsed { file_name: Some(file_name) } => UploadAction::Draw { file_name },
        UploadEvent::Drawn { file_name, task_id } => UploadAction::ReadBucket {
            file_name,
            task_id,
        },
        UploadEvent::Bucket { file_name: _, task_id: _, bucket: None } => UploadAction::Fail(
            ApiFailure::BucketNameMissing,
        ),
        UploadEvent::Bucket { file_name, task_id, bucket: Some(bucket) } => UploadAction::Sign {
            bucket,
            task_id,
            content_type: String::from_str("text/plain"),
            content_disposition: content_disposition(file_name.as_str()),
            seconds: LINK_SECONDS,
        },
        UploadEvent::Signed {
            task_id: _,
            content_type: _,
            content_disposition: _,
            url: None,
        } => UploadAction::Fail(ApiFailure::Presign),
        UploadEvent::Signed {
            task_id,
            content_type,
            content_disposition,
            url: Some(url),
        } => UploadAction::Answer(
            Reply {
                status_code: STATUS_OK,
                body: Body::Upload { task_id, url, content_type, content_disposition },
            },
        ),
    }
}

} // verus!
