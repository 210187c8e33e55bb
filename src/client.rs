use vstd::prelude::*;
use vstd::string::*;
use crate::json::Json;
use crate::model::{ProcessingRequest, OutputSchema, ClientError, is_schema_error};
use crate::codec::{encode_request, encodes, valid_request, decode_output, output_problem, output_matches};

verus! {

/// A character that an HTTP header value may hold: a tab, or anything from
/// the space on but DEL. A non-ASCII character is encoded as bytes of 128 and up.
pub open spec fn header_char_ok(c: char) -> bool {
    (c as u32 >= 32 && c as u32 != 127) || c == '\t'
}

pub open spec fn header_value_ok(s: Seq<char>) -> bool {
    forall|i: int| 0 <= i < s.len() ==> header_char_ok(#[trigger] s[i])
}

/// Relies on reqwest::header::HeaderValue::from_str (the http crate): it
/// accepts a text exactly when each of its bytes is a tab, or is at least 32
/// and not 127.
#[verifier::external_body]
fn header_value_accepts(s: &str) -> (r: bool)
    ensures
        r == header_value_ok(s@),
{
    reqwest::header::HeaderValue::from_str(s).is_ok()
}

/// Relies on reqwest::StatusCode (the http crate): `from_u16` takes the codes
/// 100 to 999, and `is_success` holds for 200 to 299.
#[verifier::external_body]
fn status_is_success(code: u16) -> (r: bool)
    ensures
        r == (200 <= code && code <= 299),
{
    match reqwest::StatusCode::from_u16(code) {
        Ok(s) => s.is_success(),
        Err(_) => false,
    }
}

pub open spec fn request_path() -> Seq<char> {
    "/process/request"@
}

/// The text without any slash at its end.
pub open spec fn trim_slashes(s: Seq<char>) -> Seq<char>
    decreases s.len(),
{
    if s.len() > 0 && s.last() == '/' {
        trim_slashes(s.drop_last())
    } else {
        s
    }
}

/// The request address: the base address with its trailing slashes
/// removed, then the path.
pub open spec fn endpoint_of(base: Seq<char>) -> Seq<char> {
    trim_slashes(base) + request_path()
}

pub open spec fn api_key_header() -> Seq<char> {
    "X-API-Key"@
}

/// The headers that a client with `key` sends.
pub open spec fn headers_match(h: Seq<(String, String)>, key: Option<String>) -> bool {
    match key {
        Some(k) => h.len() == 1 && h[0].0@ == api_key_header() && h[0].1@ == k@,
        None => h.len() == 0,
    }
}

/// Connection settings of the service. Reading them is all a call does with
/// them, so one client serves any number of calls at once.
pub struct Client {
    pub base_url: String,
    pub api_key: Option<String>,
}

/// One HTTP POST, ready to be sent: address, headers and JSON body.
pub struct Outbound {
    pub url: String,
    pub headers: Vec<(String, String)>,
    pub body: Json,
}

impl Client {
    /// Stores the settings; nothing is checked or sent here.
    pub fn new(base_url: String, api_key: Option<String>) -> (r: Client)
        ensures
            r.base_url == base_url,
            r.api_key == api_key,
    {
        Client { base_url, api_key }
    }

    /// The address that requests are posted to.
    pub fn endpoint(&self) -> (r: String)
        ensures
            r@ == endpoint_of(self.base_url@),
    {
        let base = self.base_url.as_str();
        let mut n = base.unicode_len();
        assert(base@.subrange(0, n as int) =~= base@);
        while n > 0 && base.get_char(n - 1) == '/'
            invariant
                n <= base@.len(),
                trim_slashes(base@) == trim_slashes(base@.subrange(0, n as int)),
            decreases n,
        {
            assert(base@.subrange(0, n as int).drop_last() =~= base@.subrange(0, n - 1));
            n -= 1;
        }
        let head = base.substring_char(0, n).to_owned();
        head.concat("/process/request")
    }

    /// The headers of a request: `X-API-Key` with the key where one is set.
    /// A key that no header value can hold is refused.
    pub fn headers(&self) -> (r: Result<Vec<(String, String)>, ClientError>)
        ensures
            match self.api_key {
                Some(k) => if header_value_ok(k@) {
                    r is Ok && headers_match(r->Ok_0@, self.api_key)
                } else {
                    r == Err::<Vec<(String, String)>, ClientError>(ClientError::InvalidCredential)
                },
                None => r is Ok && r->Ok_0@.len() == 0,
            },
    {
        let mut h: Vec<(String, String)> = Vec::new();
        match &self.api_key {
            Some(k) => {
                if !header_value_accepts(k.as_str()) {
                    return Err(ClientError::InvalidCredential);
                }
                h.push(("X-API-Key".to_owned(), k.clone()));
            },
            None => {},
        }
        Ok(h)
    }

    /// Everything one call sends, decided before any I/O: fails with
    /// `InvalidCredential` exactly when the key cannot be a header value.
    pub fn prepare(&self, request: &ProcessingRequest) -> (r: Result<Outbound, ClientError>)
        requires
            valid_request(*request),
        ensures
            (self.api_key is Some && !header_value_ok(self.api_key->0@)) ==> r
                == Err::<Outbound, ClientError>(ClientError::InvalidCredential),
            (self.api_key is Some && !header_value_ok(self.api_key->0@)) || r is Ok,
            r is Ok ==> {
                &&& r->Ok_0.url@ == endpoint_of(self.base_url@)
                &&& headers_match(r->Ok_0.headers@, self.api_key)
                &&& encodes(r->Ok_0.body, *request)
            },
    {
        let headers = match self.headers() {
            Ok(h) => h,
            Err(e) => return Err(e),
        };
        Ok(Outbound { url: self.endpoint(), headers, body: encode_request(request) })
    }
}

/// Reads the status of a response: a body that came with a status from 200
/// to 299 is handed on for decoding, any other status is an `Api` error
/// carrying the status and the body text as they came.
pub fn check_status(status: u16, body: String) -> (r: Result<String, ClientError>)
    ensures
        200 <= status <= 299 ==> r == Ok::<String, ClientError>(body),
        !(200 <= status <= 299) ==> r == Err::<String, ClientError>(
            ClientError::Api { status, body },
        ),
{
    if status_is_success(status) {
        Ok(body)
    } else {
        Err(ClientError::Api { status, body })
    }
}

/// Decodes the body of a successful response; `None` stands for a body that
/// is not JSON at all.
pub fn decode_body(parsed: Option<Json>) -> (r: Result<OutputSchema, ClientError>)
    ensures
        match parsed {
            None => r is Err && is_schema_error(r->Err_0, Seq::empty()),
            Some(j) => match output_problem(j) {
                Some(f) => r is Err && is_schema_error(r->Err_0, f),
                None => r is Ok && output_matches(j, r->Ok_0),
            },
        },
{
    match parsed {
        None => Err(ClientError::Schema(String::new())),
        Some(j) => decode_output(j),
    }
}

} // verus!
