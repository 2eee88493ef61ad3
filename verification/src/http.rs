//! Decision logic of the HTTP layer: the error kinds and their status
//! codes, the routing table, the permissive CORS preflight answer, and
//! the two data-bearing handlers — video download and multipart upload.
//!
//! The functions here are pure: the caller parses the request (method,
//! path, query parameter, multipart fields) and performs the socket
//! I/O; this module decides what the response is.

use vstd::prelude::*;
use crate::store::Database;

verus! {

/// Largest inbound request body the service accepts, in bytes.
pub const BODY_LIMIT: usize = 4096;

/// The four error kinds a handler can surface, each mapped to exactly
/// one HTTP status code.
#[derive(Clone, Copy, Debug, PartialEq, Eq, Structural)]
pub enum HandlerError {
    /// Blob store lookup miss: 404.
    NotFound,
    /// Missing required query parameter, or a multipart field without
    /// a (non-empty) name: 400.
    BadRequest,
    /// Request body over [`BODY_LIMIT`]: 413.
    PayloadTooLarge,
    /// I/O fault, multipart framing fault, poisoned lock: 500.
    Internal,
}

impl HandlerError {
    pub open spec fn spec_status_code(&self) -> u16 {
        match self {
            HandlerError::NotFound => 404,
            HandlerError::BadRequest => 400,
            HandlerError::PayloadTooLarge => 413,
            HandlerError::Internal => 500,
        }
    }

    /// The HTTP status code this error is surfaced as.
    pub fn status_code(&self) -> (code: u16)
        ensures
            code == self.spec_status_code(),
    {
        match self {
            HandlerError::NotFound => 404,
            HandlerError::BadRequest => 400,
            HandlerError::PayloadTooLarge => 413,
            HandlerError::Internal => 500,
        }
    }
}

/// A successful video download: status, media headers and body bytes.
pub struct VideoResponse {
    pub status: u16,
    pub content_type: String,
    /// Filename hint carried in the `Content-Disposition` header.  The
    /// service sends a fixed name for every blob, a quirk the current
    /// frontend depends on.
    pub file_name: String,
    pub body: Vec<u8>,
}

/// Decides `GET /video?name=…`: `name` absent is a client error, an
/// unknown name is a miss, a known name streams the stored bytes as
/// `video/mp4`.
pub fn handle_video(db: &Database, name: Option<String>) -> (r: Result<
    VideoResponse,
    HandlerError,
>)
    requires
        db.wf(),
    ensures
        r is Ok <==> (name matches Some(n) && db@.contains_key(n@)),
        name is None ==> r matches Err(HandlerError::BadRequest),
        (name matches Some(n) && !db@.contains_key(n@)) ==> r matches Err(HandlerError::NotFound),
        r matches Ok(resp) ==> {
            &&& name matches Some(n) && resp.body@ == db@[n@]
            &&& resp.status == 200
            &&& resp.content_type@ == "video/mp4"@
            &&& resp.file_name@ == "lmao.mp4"@
        },
{
    match name {
        None => Err(HandlerError::BadRequest),
        Some(n) => match db.get(&n) {
            None => Err(HandlerError::NotFound),
            Some(bytes) => Ok(VideoResponse {
                status: 200,
                content_type: "video/mp4".to_owned(),
                file_name: "lmao.mp4".to_owned(),
                body: bytes,
            }),
        },
    }
}

/// One parsed multipart field: its declared name, if the part carried
/// one, and its fully drained payload.
pub struct UploadField {
    pub name: Option<String>,
    pub data: Vec<u8>,
}

/// A field is acceptable when it declares a non-empty name.
pub open spec fn field_ok(f: UploadField) -> bool {
    f.name matches Some(n) && n@.len() > 0
}

/// The name a field publishes its bytes under.
pub open spec fn field_name_view(f: UploadField) -> Seq<char> {
    match f.name {
        Some(n) => n@,
        None => Seq::empty(),
    }
}

/// The store contents after publishing the given fields in order, each
/// insert replacing any prior value for its name.
pub open spec fn store_after(
    m: Map<Seq<char>, Seq<u8>>,
    fields: Seq<UploadField>,
) -> Map<Seq<char>, Seq<u8>>
    decreases fields.len(),
{
    if fields.len() == 0 {
        m
    } else {
        store_after(m, fields.drop_last()).insert(
            field_name_view(fields.last()),
            fields.last().data@,
        )
    }
}

pub open spec fn fields_ok(fields: Seq<UploadField>) -> bool {
    forall|i: int| 0 <= i < fields.len() ==> field_ok(fields[i])
}

/// Index of the first unacceptable field; the length when all are
/// acceptable.
pub open spec fn first_bad(fields: Seq<UploadField>) -> int
    decreases fields.len(),
{
    if fields.len() == 0 {
        0
    } else if !field_ok(fields[0]) {
        0
    } else {
        1 + first_bad(fields.drop_first())
    }
}

pub proof fn lemma_first_bad(fields: Seq<UploadField>)
    ensures
        0 <= first_bad(fields) <= fields.len(),
        forall|i: int| 0 <= i < first_bad(fields) ==> field_ok(fields[i]),
        first_bad(fields) < fields.len() ==> !field_ok(fields[first_bad(fields)]),
        fields_ok(fields) ==> first_bad(fields) == fields.len(),
    decreases fields.len(),
{
    if fields.len() > 0 && field_ok(fields[0]) {
        let t = fields.drop_first();
        lemma_first_bad(t);
        assert(forall|i: int| 0 <= i < t.len() ==> #[trigger] t[i] == fields[i + 1]);
        assert forall|i: int| 0 <= i < first_bad(fields) implies field_ok(fields[i]) by {
            if i > 0 {
                assert(t[i - 1] == fields[i]);
            }
        }
        if first_bad(fields) < fields.len() {
            assert(fields[first_bad(fields)] == t[first_bad(t)]);
        }
        if fields_ok(fields) {
            assert forall|i: int| 0 <= i < t.len() implies field_ok(t[i]) by {
                assert(t[i] == fields[i + 1]);
            }
            assert(fields_ok(t));
        }
    }
}

/// A successful upload: 201 Created with a fixed acknowledgement body.
pub struct UploadResponse {
    pub status: u16,
    pub body: String,
}

/// Decides `POST /upload`.  `body_len` is the size of the request body
/// on the wire; a body over the cap is rejected whole.  Otherwise the
/// fields are published into the store in arrival order until the
/// first field without a non-empty name, which aborts the request with
/// a client error — fields already published stay, as uploads are not
/// atomic across fields.
pub fn handle_upload(db: &mut Database, body_len: usize, fields: &Vec<UploadField>) -> (r: Result<
    UploadResponse,
    HandlerError,
>)
    requires
        old(db).wf(),
    ensures
        final(db).wf(),
        body_len > BODY_LIMIT ==> ((r matches Err(HandlerError::PayloadTooLarge)) && final(db)@
            == old(db)@),
        body_len <= BODY_LIMIT ==> final(db)@ == store_after(
            old(db)@,
            fields@.take(first_bad(fields@)),
        ),
        (body_len <= BODY_LIMIT && fields_ok(fields@)) ==> (r matches Ok(resp) && resp.status
            == 201 && resp.body@ == "OK"@),
        (body_len <= BODY_LIMIT && !fields_ok(fields@)) ==> r matches Err(
            HandlerError::BadRequest,
        ),
{
    if body_len > BODY_LIMIT {
        return Err(HandlerError::PayloadTooLarge);
    }
    proof {
        lemma_first_bad(fields@);
    }
    let ghost m0 = db@;
    let n = fields.len();
    let mut i: usize = 0;
    while i < n
        invariant
            i <= n,
            n == fields@.len(),
            body_len <= BODY_LIMIT,
            m0 == old(db)@,
            db.wf(),
            forall|j: int| 0 <= j < i ==> field_ok(fields@[j]),
            db@ == store_after(m0, fields@.take(i as int)),
            0 <= first_bad(fields@) <= fields@.len(),
            forall|j: int| 0 <= j < first_bad(fields@) ==> field_ok(fields@[j]),
            first_bad(fields@) < fields@.len() ==> !field_ok(fields@[first_bad(fields@)]),
            fields_ok(fields@) ==> first_bad(fields@) == fields@.len(),
        decreases n - i,
    {
        match &fields[i].name {
            None => {
                proof {
                    assert(!field_ok(fields@[i as int]));
                    assert(first_bad(fields@) == i as int);
                }
                return Err(HandlerError::BadRequest);
            },
            Some(name) => {
                if name.as_str().is_empty() {
                    proof {
                        assert(!field_ok(fields@[i as int]));
                        assert(first_bad(fields@) == i as int);
                    }
                    return Err(HandlerError::BadRequest);
                }
                let bytes = vstd::slice::slice_to_vec(fields[i].data.as_slice());
                db.add(name.clone(), bytes);
                proof {
                    assert(fields@.take(i + 1).drop_last() =~= fields@.take(i as int));
                    assert(fields@.take(i + 1).last() == fields@[i as int]);
                    assert(db@ == store_after(m0, fields@.take(i + 1)));
                }
            },
        }
        i = i + 1;
    }
    proof {
        assert(fields@.take(n as int) =~= fields@);
        assert(first_bad(fields@) == fields@.len());
    }
    Ok(UploadResponse { status: 201, body: "OK".to_owned() })
}

/// Where a request is dispatched.
#[derive(Clone, Copy, Debug, PartialEq, Eq, Structural)]
pub enum Route {
    /// `GET /`: the static player page.
    Frontend,
    /// `GET /video`: stream a blob from the store.
    Video,
    /// `POST /upload`: publish multipart fields into the store.
    Upload,
    /// `OPTIONS` anywhere: answer the CORS preflight.
    Preflight,
    /// Anything else.
    Unknown,
}

pub open spec fn spec_route(method: Seq<char>, path: Seq<char>) -> Route {
    if method == "OPTIONS"@ {
        Route::Preflight
    } else if method == "GET"@ && path == "/"@ {
        Route::Frontend
    } else if method == "GET"@ && path == "/video"@ {
        Route::Video
    } else if method == "POST"@ && path == "/upload"@ {
        Route::Upload
    } else {
        Route::Unknown
    }
}

/// The routing table: three routes, plus the uniform CORS preflight
/// answer for any path.
pub fn route_request(method: &String, path: &String) -> (r: Route)
    ensures
        r == spec_route(method@, path@),
{
    if *method == "OPTIONS".to_owned() {
        Route::Preflight
    } else if *method == "GET".to_owned() && *path == "/".to_owned() {
        Route::Frontend
    } else if *method == "GET".to_owned() && *path == "/video".to_owned() {
        Route::Video
    } else if *method == "POST".to_owned() && *path == "/upload".to_owned() {
        Route::Upload
    } else {
        Route::Unknown
    }
}

/// The answer to a CORS preflight probe: no content, and every
/// `Access-Control-Allow-*` header fully permissive.
pub struct PreflightResponse {
    pub status: u16,
    pub allow_origin: String,
    pub allow_methods: String,
    pub allow_headers: String,
}

/// CORS is applied uniformly: any origin, any method, any header.
pub fn preflight_response() -> (r: PreflightResponse)
    ensures
        r.status == 204,
        r.allow_origin@ == "*"@,
        r.allow_methods@ == "*"@,
        r.allow_headers@ == "*"@,
{
    PreflightResponse {
        status: 204,
        allow_origin: "*".to_owned(),
        allow_methods: "*".to_owned(),
        allow_headers: "*".to_owned(),
    }
}

} // verus!
