use vstd::prelude::*;
use crate::text::same_text;
use crate::json::{Json, Number};

verus! {

/// The backend that handled, or should handle, a request.
#[derive(Debug, Clone, Copy, PartialEq, Eq, Structural)]
pub enum ProcessorType {
    Cloud,
    Local,
    Hybrid,
}

/// A signal classification that the wire format reserves; no field uses it yet.
#[derive(Debug, Clone, Copy, PartialEq, Eq, Structural)]
pub enum SignalType {
    Analog,
    Digital,
    Hybrid,
}

pub open spec fn cloud_tag() -> Seq<char> {
    seq!['c', 'l', 'o', 'u', 'd']
}

pub open spec fn local_tag() -> Seq<char> {
    seq!['l', 'o', 'c', 'a', 'l']
}

pub open spec fn hybrid_tag() -> Seq<char> {
    seq!['h', 'y', 'b', 'r', 'i', 'd']
}

pub open spec fn analog_tag() -> Seq<char> {
    seq!['a', 'n', 'a', 'l', 'o', 'g']
}

pub open spec fn digital_tag() -> Seq<char> {
    seq!['d', 'i', 'g', 'i', 't', 'a', 'l']
}

impl ProcessorType {
    /// The lowercase wire tag of each variant.
    pub open spec fn spec_tag(self) -> Seq<char> {
        match self {
            ProcessorType::Cloud => cloud_tag(),
            ProcessorType::Local => local_tag(),
            ProcessorType::Hybrid => hybrid_tag(),
        }
    }

    /// The variant whose tag is `t`; no other text names a variant.
    pub open spec fn spec_from_tag(t: Seq<char>) -> Option<ProcessorType> {
        if t == cloud_tag() {
            Some(ProcessorType::Cloud)
        } else if t == local_tag() {
            Some(ProcessorType::Local)
        } else if t == hybrid_tag() {
            Some(ProcessorType::Hybrid)
        } else {
            None
        }
    }

    pub fn tag(&self) -> (r: &'static str)
        ensures
            r@ == self.spec_tag(),
    {
        proof {
            reveal_strlit("cloud");
            reveal_strlit("local");
            reveal_strlit("hybrid");
        }
        match self {
            ProcessorType::Cloud => {
                assert("cloud"@ =~= cloud_tag());
                "cloud"
            },
            ProcessorType::Local => {
                assert("local"@ =~= local_tag());
                "local"
            },
            ProcessorType::Hybrid => {
                assert("hybrid"@ =~= hybrid_tag());
                "hybrid"
            },
        }
    }

    pub fn from_tag(t: &str) -> (r: Option<ProcessorType>)
        ensures
            r == ProcessorType::spec_from_tag(t@),
    {
        proof {
            reveal_strlit("cloud");
            reveal_strlit("local");
            reveal_strlit("hybrid");
            assert("cloud"@ =~= cloud_tag());
            assert("local"@ =~= local_tag());
            assert("hybrid"@ =~= hybrid_tag());
        }
        if same_text(t, "cloud") {
            Some(ProcessorType::Cloud)
        } else if same_text(t, "local") {
            Some(ProcessorType::Local)
        } else if same_text(t, "hybrid") {
            Some(ProcessorType::Hybrid)
        } else {
            None
        }
    }
}

impl SignalType {
    pub open spec fn spec_tag(self) -> Seq<char> {
        match self {
            SignalType::Analog => analog_tag(),
            SignalType::Digital => digital_tag(),
            SignalType::Hybrid => hybrid_tag(),
        }
    }

    pub open spec fn spec_from_tag(t: Seq<char>) -> Option<SignalType> {
        if t == analog_tag() {
            Some(SignalType::Analog)
        } else if t == digital_tag() {
            Some(SignalType::Digital)
        } else if t == hybrid_tag() {
            Some(SignalType::Hybrid)
        } else {
            None
        }
    }

    pub fn tag(&self) -> (r: &'static str)
        ensures
            r@ == self.spec_tag(),
    {
        proof {
            reveal_strlit("analog");
            reveal_strlit("digital");
            reveal_strlit("hybrid");
        }
        match self {
            SignalType::Analog => {
                assert("analog"@ =~= analog_tag());
                "analog"
            },
            SignalType::Digital => {
                assert("digital"@ =~= digital_tag());
                "digital"
            },
            SignalType::Hybrid => {
                assert("hybrid"@ =~= hybrid_tag());
                "hybrid"
            },
        }
    }

    pub fn from_tag(t: &str) -> (r: Option<SignalType>)
        ensures
            r == SignalType::spec_from_tag(t@),
    {
        proof {
            reveal_strlit("analog");
            reveal_strlit("digital");
            reveal_strlit("hybrid");
            assert("analog"@ =~= analog_tag());
            assert("digital"@ =~= digital_tag());
            assert("hybrid"@ =~= hybrid_tag());
        }
        if same_text(t, "analog") {
            Some(SignalType::Analog)
        } else if same_text(t, "digital") {
            Some(SignalType::Digital)
        } else if same_text(t, "hybrid") {
            Some(SignalType::Hybrid)
        } else {
            None
        }
    }
}

/// Every processor tag decodes back to its variant.
pub proof fn processor_tag_round_trip(p: ProcessorType)
    ensures
        ProcessorType::spec_from_tag(p.spec_tag()) == Some(p),
{
    assert(cloud_tag() != local_tag());
    assert(cloud_tag()[0] != hybrid_tag()[0]);
    assert(local_tag()[0] != hybrid_tag()[0]);
}

/// Every signal tag decodes back to its variant.
pub proof fn signal_tag_round_trip(s: SignalType)
    ensures
        SignalType::spec_from_tag(s.spec_tag()) == Some(s),
{
    assert(analog_tag()[0] != digital_tag()[0]);
    assert(analog_tag()[0] != hybrid_tag()[0]);
    assert(digital_tag()[0] != hybrid_tag()[0]);
}


/// An outbound request. A missing `processor_type` or `timeout_seconds`
/// leaves the choice to the service.
#[derive(Debug, PartialEq)]
pub struct ProcessingRequest {
    pub input_data: String,
    pub input_tokens: u32,
    pub processor_type: Option<ProcessorType>,
    /// Requested processing budget in seconds.
    pub timeout_seconds: Option<Number>,
}

/// The service's assessment of the input.
#[derive(Debug, PartialEq)]
pub struct ValidationResult {
    pub status: String,
    pub is_valid: bool,
    pub input_hash: String,
    pub errors: Vec<String>,
}

/// A decoded response.
#[derive(Debug, PartialEq)]
pub struct OutputSchema {
    /// Free-form result; its shape is the service's own.
    pub result: Json,
    pub validation: ValidationResult,
    pub processor_used: ProcessorType,
    /// Processing time in milliseconds.
    pub processing_time_ms: Number,
    /// Zero where the response does not report it.
    pub retries_attempted: u32,
}

/// Why an exchange failed.
#[derive(Debug, PartialEq)]
pub enum ClientError {
    /// The API key cannot be carried in a header value.
    InvalidCredential,
    /// The transport failed; `timed_out` tells a client-side timeout apart.
    Transport { timed_out: bool, detail: String },
    /// The service answered with a status outside 200..=299.
    Api { status: u16, body: String },
    /// The body does not match the schema; names the offending field,
    /// or is empty where the body is not a JSON object.
    Schema(String),
}

pub open spec fn is_schema_error(e: ClientError, f: Seq<char>) -> bool {
    e is Schema && e->Schema_0@ == f
}

} // verus!
