use vstd::prelude::*;
use crate::json::{Json, Number, field, get_field, find_field, lemma_field_push_all};
use crate::model::{ProcessorType, ProcessingRequest, ValidationResult, OutputSchema, ClientError, is_schema_error};

verus! {

pub open spec fn text_of(v: Option<Json>) -> Option<String> {
    match v {
        Some(Json::Str(s)) => Some(s),
        _ => None,
    }
}

pub open spec fn flag_of(v: Option<Json>) -> Option<bool> {
    match v {
        Some(Json::Bool(b)) => Some(b),
        _ => None,
    }
}

pub open spec fn number_of(v: Option<Json>) -> Option<Number> {
    match v {
        Some(Json::Number(n)) => Some(n),
        _ => None,
    }
}

/// A count: a non-negative integer that fits in `u32`.
pub open spec fn count_of(v: Option<Json>) -> Option<u32> {
    match v {
        Some(Json::Number(Number::Unsigned(n))) => if n <= u32::MAX {
            Some(n as u32)
        } else {
            None
        },
        _ => None,
    }
}

/// A count that defaults to zero where the member is missing or null.
pub open spec fn count_or_zero_of(v: Option<Json>) -> Option<u32> {
    match v {
        None => Some(0),
        Some(Json::Null) => Some(0),
        _ => count_of(v),
    }
}

pub open spec fn processor_of(v: Option<Json>) -> Option<ProcessorType> {
    match v {
        Some(Json::Str(s)) => ProcessorType::spec_from_tag(s@),
        _ => None,
    }
}

/// An optional processor: missing or null gives `Some(None)`.
pub open spec fn opt_processor_of(v: Option<Json>) -> Option<Option<ProcessorType>> {
    match v {
        None => Some(None),
        Some(Json::Null) => Some(None),
        _ => match processor_of(v) {
            Some(p) => Some(Some(p)),
            None => None,
        },
    }
}

/// An optional timeout: missing or null gives `Some(None)`; a present one
/// must be a number above zero.
pub open spec fn opt_timeout_of(v: Option<Json>) -> Option<Option<Number>> {
    match v {
        None => Some(None),
        Some(Json::Null) => Some(None),
        Some(Json::Number(n)) => if n.spec_positive() {
            Some(Some(n))
        } else {
            None
        },
        _ => None,
    }
}

/// An array of strings.
pub open spec fn texts_of(v: Option<Json>) -> Option<Seq<String>> {
    match v {
        Some(Json::Array(a)) => if forall|i: int| 0 <= i < a@.len() ==> (#[trigger] a@[i]) is Str {
            Some(a@.map_values(|x: Json| x->Str_0))
        } else {
            None
        },
        _ => None,
    }
}

pub open spec fn members(j: Json) -> Seq<(String, Json)> {
    match j {
        Json::Object(fs) => fs@,
        _ => Seq::empty(),
    }
}

/// What decoding a request object gives: the request, or the name of the
/// first member (in declaration order) that is missing or ill-typed.
pub open spec fn request_of(j: Json) -> Result<ProcessingRequest, Seq<char>> {
    let fs = members(j);
    if !(j is Object) {
        Err(Seq::empty())
    } else if text_of(field(fs, "input_data"@)) is None {
        Err("input_data"@)
    } else if count_of(field(fs, "input_tokens"@)) is None {
        Err("input_tokens"@)
    } else if opt_processor_of(field(fs, "processor_type"@)) is None {
        Err("processor_type"@)
    } else if opt_timeout_of(field(fs, "timeout_seconds"@)) is None {
        Err("timeout_seconds"@)
    } else {
        Ok(
            ProcessingRequest {
                input_data: text_of(field(fs, "input_data"@))->0,
                input_tokens: count_of(field(fs, "input_tokens"@))->0,
                processor_type: opt_processor_of(field(fs, "processor_type"@))->0,
                timeout_seconds: opt_timeout_of(field(fs, "timeout_seconds"@))->0,
            },
        )
    }
}

/// The members a request object may have.
pub open spec fn request_key(k: Seq<char>) -> bool {
    k == "input_data"@ || k == "input_tokens"@ || k == "processor_type"@ || k
        == "timeout_seconds"@
}

/// A request that may be sent: a timeout, where given, is above zero.
pub open spec fn valid_request(r: ProcessingRequest) -> bool {
    match r.timeout_seconds {
        Some(n) => n.spec_positive(),
        None => true,
    }
}

/// `j` is the encoding of `r`: an object whose members carry each present
/// field, no member for an absent one, and no other member.
pub open spec fn encodes(j: Json, r: ProcessingRequest) -> bool {
    let fs = members(j);
    &&& j is Object
    &&& forall|i: int| 0 <= i < fs.len() ==> request_key(#[trigger] fs[i].0@)
    &&& field(fs, "input_data"@) == Some(Json::Str(r.input_data))
    &&& field(fs, "input_tokens"@) == Some(Json::Number(Number::Unsigned(r.input_tokens as u64)))
    &&& match r.processor_type {
        Some(p) => field(fs, "processor_type"@) matches Some(Json::Str(t)) && t@ == p.spec_tag(),
        None => field(fs, "processor_type"@) is None,
    }
    &&& match r.timeout_seconds {
        Some(n) => field(fs, "timeout_seconds"@) == Some(Json::Number(n)),
        None => field(fs, "timeout_seconds"@) is None,
    }
}

fn text_field(fs: &Vec<(String, Json)>, key: &str) -> (r: Option<String>)
    ensures
        r == text_of(field(fs@, key@)),
{
    match get_field(fs, key) {
        Some(Json::Str(s)) => Some(s.clone()),
        _ => None,
    }
}

fn flag_field(fs: &Vec<(String, Json)>, key: &str) -> (r: Option<bool>)
    ensures
        r == flag_of(field(fs@, key@)),
{
    match get_field(fs, key) {
        Some(Json::Bool(b)) => Some(*b),
        _ => None,
    }
}

fn number_field(fs: &Vec<(String, Json)>, key: &str) -> (r: Option<Number>)
    ensures
        r == number_of(field(fs@, key@)),
{
    match get_field(fs, key) {
        Some(Json::Number(n)) => Some(n.copy()),
        _ => None,
    }
}

fn count_field(fs: &Vec<(String, Json)>, key: &str) -> (r: Option<u32>)
    ensures
        r == count_of(field(fs@, key@)),
{
    match get_field(fs, key) {
        Some(Json::Number(Number::Unsigned(n))) => if *n <= u32::MAX as u64 {
            Some(*n as u32)
        } else {
            None
        },
        _ => None,
    }
}

fn count_or_zero_field(fs: &Vec<(String, Json)>, key: &str) -> (r: Option<u32>)
    ensures
        r == count_or_zero_of(field(fs@, key@)),
{
    match get_field(fs, key) {
        None => Some(0),
        Some(Json::Null) => Some(0),
        _ => count_field(fs, key),
    }
}

fn processor_field(fs: &Vec<(String, Json)>, key: &str) -> (r: Option<ProcessorType>)
    ensures
        r == processor_of(field(fs@, key@)),
{
    match get_field(fs, key) {
        Some(Json::Str(s)) => ProcessorType::from_tag(s.as_str()),
        _ => None,
    }
}

fn opt_processor_field(fs: &Vec<(String, Json)>, key: &str) -> (r: Option<Option<ProcessorType>>)
    ensures
        r == opt_processor_of(field(fs@, key@)),
{
    match get_field(fs, key) {
        None => Some(None),
        Some(Json::Null) => Some(None),
        _ => match processor_field(fs, key) {
            Some(p) => Some(Some(p)),
            None => None,
        },
    }
}

fn opt_timeout_field(fs: &Vec<(String, Json)>, key: &str) -> (r: Option<Option<Number>>)
    ensures
        r == opt_timeout_of(field(fs@, key@)),
{
    match get_field(fs, key) {
        None => Some(None),
        Some(Json::Null) => Some(None),
        Some(Json::Number(n)) => if n.is_positive() {
            Some(Some(n.copy()))
        } else {
            None
        },
        _ => None,
    }
}

fn texts_field(fs: &Vec<(String, Json)>, key: &str) -> (r: Option<Vec<String>>)
    ensures
        match texts_of(field(fs@, key@)) {
            Some(s) => r is Some && r->0@ == s,
            None => r is None,
        },
{
    match get_field(fs, key) {
        Some(Json::Array(a)) => {
            let mut out: Vec<String> = Vec::new();
            let mut i: usize = 0;
            while i < a.len()
                invariant
                    field(fs@, key@) == Some(Json::Array(*a)),
                    i <= a@.len(),
                    out@.len() == i,
                    forall|j: int| 0 <= j < i ==> (#[trigger] a@[j]) is Str && out@[j] == a@[j]->Str_0,
                decreases a@.len() - i,
            {
                match &a[i] {
                    Json::Str(s) => out.push(s.clone()),
                    _ => {
                        assert(!(a@[i as int] is Str));
                        assert(texts_of(Some(Json::Array(*a))) is None);
                        return None;
                    },
                }
                i += 1;
            }
            assert(out@ =~= a@.map_values(|x: Json| x->Str_0));
            Some(out)
        },
        _ => None,
    }
}

fn schema_error(f: &str) -> (r: ClientError)
    ensures
        is_schema_error(r, f@),
{
    ClientError::Schema(f.to_owned())
}

/// Whether a request may be sent; see `valid_request`.
pub fn is_valid_request(r: &ProcessingRequest) -> (b: bool)
    ensures
        b == valid_request(*r),
{
    match &r.timeout_seconds {
        Some(n) => n.is_positive(),
        None => true,
    }
}

/// Encodes a request as a JSON object, leaving out absent optional fields.
pub fn encode_request(r: &ProcessingRequest) -> (j: Json)
    requires
        valid_request(*r),
    ensures
        encodes(j, *r),
{
    proof {
        reveal_strlit("input_data");
        reveal_strlit("input_tokens");
        reveal_strlit("processor_type");
        reveal_strlit("timeout_seconds");
    }
    let ghost d = "input_data"@;
    let ghost t = "input_tokens"@;
    let ghost p = "processor_type"@;
    let ghost s = "timeout_seconds"@;
    assert(d.len() == 10 && t.len() == 12 && p.len() == 14 && s.len() == 15);
    let mut fs: Vec<(String, Json)> = Vec::new();
    let ghost empty = fs@;
    fs.push(("input_data".to_owned(), Json::Str(r.input_data.clone())));
    proof {
        lemma_field_push_all(empty, fs@.last());
        assert(fs@ =~= empty.push(fs@.last()));
    }
    let ghost one = fs@;
    fs.push(("input_tokens".to_owned(), Json::Number(Number::Unsigned(r.input_tokens as u64))));
    proof {
        lemma_field_push_all(one, fs@.last());
    }
    let ghost base = fs@;
    match r.processor_type {
        Some(q) => {
            fs.push(("processor_type".to_owned(), Json::Str(q.tag().to_owned())));
            proof {
                lemma_field_push_all(base, fs@.last());
            }
        },
        None => {},
    }
    let ghost mid = fs@;
    match &r.timeout_seconds {
        Some(n) => {
            fs.push(("timeout_seconds".to_owned(), Json::Number(n.copy())));
            proof {
                lemma_field_push_all(mid, fs@.last());
            }
        },
        None => {},
    }
    assert(field(fs@, d) == Some(Json::Str(r.input_data)));
    assert(field(fs@, t) == Some(Json::Number(Number::Unsigned(r.input_tokens as u64))));
    Json::Object(fs)
}

/// Decodes a request object; see `request_of`.
pub fn decode_request(j: &Json) -> (r: Result<ProcessingRequest, ClientError>)
    ensures
        match request_of(*j) {
            Ok(p) => r == Ok::<ProcessingRequest, ClientError>(p),
            Err(f) => r is Err && is_schema_error(r->Err_0, f),
        },
{
    let fs = match j {
        Json::Object(fs) => fs,
        _ => return Err(ClientError::Schema(String::new())),
    };
    let input_data = match text_field(fs, "input_data") {
        Some(s) => s,
        None => return Err(schema_error("input_data")),
    };
    let input_tokens = match count_field(fs, "input_tokens") {
        Some(n) => n,
        None => return Err(schema_error("input_tokens")),
    };
    let processor_type = match opt_processor_field(fs, "processor_type") {
        Some(p) => p,
        None => return Err(schema_error("processor_type")),
    };
    let timeout_seconds = match opt_timeout_field(fs, "timeout_seconds") {
        Some(t) => t,
        None => return Err(schema_error("timeout_seconds")),
    };
    Ok(ProcessingRequest { input_data, input_tokens, processor_type, timeout_seconds })
}

/// Decoding an encoded request gives back the same request, field for field.
pub proof fn request_round_trip(r: ProcessingRequest, j: Json)
    requires
        valid_request(r),
        encodes(j, r),
    ensures
        request_of(j) == Ok::<ProcessingRequest, Seq<char>>(r),
{
    match r.processor_type {
        Some(p) => crate::model::processor_tag_round_trip(p),
        None => {},
    }
}

/// The first problem in a validation object, by the name of its member.
pub open spec fn validation_problem(v: Option<Json>) -> Option<Seq<char>> {
    match v {
        Some(Json::Object(fs)) => if text_of(field(fs@, "status"@)) is None {
            Some("validation.status"@)
        } else if flag_of(field(fs@, "is_valid"@)) is None {
            Some("validation.is_valid"@)
        } else if text_of(field(fs@, "input_hash"@)) is None {
            Some("validation.input_hash"@)
        } else if texts_of(field(fs@, "errors"@)) is None {
            Some("validation.errors"@)
        } else {
            None
        },
        _ => Some("validation"@),
    }
}

/// `r` carries what the validation object `v` holds.
pub open spec fn validation_matches(v: Json, r: ValidationResult) -> bool {
    let fs = members(v);
    &&& text_of(field(fs, "status"@)) == Some(r.status)
    &&& flag_of(field(fs, "is_valid"@)) == Some(r.is_valid)
    &&& text_of(field(fs, "input_hash"@)) == Some(r.input_hash)
    &&& texts_of(field(fs, "errors"@)) == Some(r.errors@)
}

/// The first problem in a response object, by the name of its member; an
/// empty name where the document is not an object. `None` where it decodes.
pub open spec fn output_problem(j: Json) -> Option<Seq<char>> {
    let fs = members(j);
    if !(j is Object) {
        Some(Seq::empty())
    } else if field(fs, "result"@) is None {
        Some("result"@)
    } else if validation_problem(field(fs, "validation"@)) is Some {
        validation_problem(field(fs, "validation"@))
    } else if processor_of(field(fs, "processor_used"@)) is None {
        Some("processor_used"@)
    } else if number_of(field(fs, "processing_time_ms"@)) is None {
        Some("processing_time_ms"@)
    } else if count_or_zero_of(field(fs, "retries_attempted"@)) is None {
        Some("retries_attempted"@)
    } else {
        None
    }
}

/// `o` carries what the response object `j` holds; a missing or null
/// `retries_attempted` reads as zero.
pub open spec fn output_matches(j: Json, o: OutputSchema) -> bool {
    let fs = members(j);
    &&& field(fs, "result"@) == Some(o.result)
    &&& validation_matches(field(fs, "validation"@)->0, o.validation)
    &&& processor_of(field(fs, "processor_used"@)) == Some(o.processor_used)
    &&& number_of(field(fs, "processing_time_ms"@)) == Some(o.processing_time_ms)
    &&& count_or_zero_of(field(fs, "retries_attempted"@)) == Some(o.retries_attempted)
}

/// Decodes the validation object found under `validation`.
pub fn decode_validation(v: Option<&Json>) -> (r: Result<ValidationResult, ClientError>)
    ensures
        match v {
            Some(x) => match validation_problem(Some(*x)) {
                Some(f) => r is Err && is_schema_error(r->Err_0, f),
                None => r is Ok && validation_matches(*x, r->Ok_0),
            },
            None => r is Err && is_schema_error(r->Err_0, "validation"@),
        },
{
    let fs = match v {
        Some(Json::Object(fs)) => fs,
        _ => return Err(schema_error("validation")),
    };
    let status = match text_field(fs, "status") {
        Some(s) => s,
        None => return Err(schema_error("validation.status")),
    };
    let is_valid = match flag_field(fs, "is_valid") {
        Some(b) => b,
        None => return Err(schema_error("validation.is_valid")),
    };
    let input_hash = match text_field(fs, "input_hash") {
        Some(s) => s,
        None => return Err(schema_error("validation.input_hash")),
    };
    let errors = match texts_field(fs, "errors") {
        Some(e) => e,
        None => return Err(schema_error("validation.errors")),
    };
    Ok(ValidationResult { status, is_valid, input_hash, errors })
}

/// Decodes a response document strictly: every required member must be
/// present and well typed, and `processor_used` must be a known tag.
pub fn decode_output(j: Json) -> (r: Result<OutputSchema, ClientError>)
    ensures
        match output_problem(j) {
            Some(f) => r is Err && is_schema_error(r->Err_0, f),
            None => r is Ok && output_matches(j, r->Ok_0),
        },
{
    let ghost whole = j;
    let fs = match j {
        Json::Object(fs) => fs,
        _ => return Err(ClientError::Schema(String::new())),
    };
    let ghost orig = fs@;
    let at = match find_field(&fs, "result") {
        Some(i) => i,
        None => return Err(schema_error("result")),
    };
    let validation = match decode_validation(get_field(&fs, "validation")) {
        Ok(v) => v,
        Err(e) => return Err(e),
    };
    let processor_used = match processor_field(&fs, "processor_used") {
        Some(p) => p,
        None => return Err(schema_error("processor_used")),
    };
    let processing_time_ms = match number_field(&fs, "processing_time_ms") {
        Some(n) => n,
        None => return Err(schema_error("processing_time_ms")),
    };
    let retries_attempted = match count_or_zero_field(&fs, "retries_attempted") {
        Some(n) => n,
        None => return Err(schema_error("retries_attempted")),
    };
    let mut fs = fs;
    let (_, result) = fs.remove(at);
    assert(field(orig, "result"@) == Some(result));
    Ok(OutputSchema { result, validation, processor_used, processing_time_ms, retries_attempted })
}

/// A response naming a processor by any text other than a known tag does
/// not decode: it is a schema error, never a default.
pub proof fn unknown_processor_rejected(j: Json, t: String)
    requires
        field(members(j), "processor_used"@) == Some(Json::Str(t)),
        ProcessorType::spec_from_tag(t@) is None,
    ensures
        output_problem(j) is Some,
{
}

/// A response without `retries_attempted` decodes with zero retries; one
/// that reports a count keeps it.
pub proof fn retries_default_to_zero(j: Json, o: OutputSchema)
    requires
        output_matches(j, o),
    ensures
        field(members(j), "retries_attempted"@) is None ==> o.retries_attempted == 0,
        forall|n: u64|
            field(members(j), "retries_attempted"@) == Some(Json::Number(Number::Unsigned(n)))
                ==> o.retries_attempted as u64 == n,
{
}

} // verus!
