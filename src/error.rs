//! The library's single error taxonomy.

use vstd::prelude::*;
use vstd::string::*;

verus! {

/// Every failure the registry can report. Each variant holds the readable
/// text of its cause.
#[derive(Debug, Clone)]
pub enum SkrdError {
    Io(String),
    Tls(String),
    Log(String),
    TomlDeserialize(String),
    TomlSerialize(String),
    Json(String),
    Mime(String),
    Payload(String),
    Git(String),
    FromUtf8(String),
    Poison(String),
    Walk(String),
    Reqwest(String),
    Custom(String),
    StaticCustom(&'static str),
}

/// The label that opens the readable form of each variant.
pub open spec fn error_label(e: SkrdError) -> Seq<char> {
    match e {
        SkrdError::Io(_) => "IO error: "@,
        SkrdError::Tls(_) => "TLS error: "@,
        SkrdError::Log(_) => "Log error: "@,
        SkrdError::TomlDeserialize(_) => "Toml error: "@,
        SkrdError::TomlSerialize(_) => "Toml error: "@,
        SkrdError::Json(_) => "Json error: "@,
        SkrdError::Mime(_) => "Mime error: "@,
        SkrdError::Payload(_) => "Payload error: "@,
        SkrdError::Git(_) => "Git error: "@,
        SkrdError::FromUtf8(_) => "FromUtf8 error: "@,
        SkrdError::Poison(_) => "Poison error: "@,
        SkrdError::Walk(_) => "Walk dir error: "@,
        SkrdError::Reqwest(_) => "Reqwest error: "@,
        SkrdError::Custom(_) => "Custom error: "@,
        SkrdError::StaticCustom(_) => "Custom error: "@,
    }
}

/// The cause carried by a variant.
pub open spec fn error_cause(e: SkrdError) -> Seq<char> {
    match e {
        SkrdError::Io(m) => m@,
        SkrdError::Tls(m) => m@,
        SkrdError::Log(m) => m@,
        SkrdError::TomlDeserialize(m) => m@,
        SkrdError::TomlSerialize(m) => m@,
        SkrdError::Json(m) => m@,
        SkrdError::Mime(m) => m@,
        SkrdError::Payload(m) => m@,
        SkrdError::Git(m) => m@,
        SkrdError::FromUtf8(m) => m@,
        SkrdError::Poison(m) => m@,
        SkrdError::Walk(m) => m@,
        SkrdError::Reqwest(m) => m@,
        SkrdError::Custom(m) => m@,
        SkrdError::StaticCustom(m) => m@,
    }
}

impl SkrdError {
    /// The human-readable form: the variant's label, then its cause.
    pub fn message(&self) -> (r: String)
        ensures
            r@ == error_label(*self) + error_cause(*self),
    {
        let (label, cause): (&str, &str) = match self {
            SkrdError::Io(m) => ("IO error: ", m.as_str()),
            SkrdError::Tls(m) => ("TLS error: ", m.as_str()),
            SkrdError::Log(m) => ("Log error: ", m.as_str()),
            SkrdError::TomlDeserialize(m) => ("Toml error: ", m.as_str()),
            SkrdError::TomlSerialize(m) => ("Toml error: ", m.as_str()),
            SkrdError::Json(m) => ("Json error: ", m.as_str()),
            SkrdError::Mime(m) => ("Mime error: ", m.as_str()),
            SkrdError::Payload(m) => ("Payload error: ", m.as_str()),
            SkrdError::Git(m) => ("Git error: ", m.as_str()),
            SkrdError::FromUtf8(m) => ("FromUtf8 error: ", m.as_str()),
            SkrdError::Poison(m) => ("Poison error: ", m.as_str()),
            SkrdError::Walk(m) => ("Walk dir error: ", m.as_str()),
            SkrdError::Reqwest(m) => ("Reqwest error: ", m.as_str()),
            SkrdError::Custom(m) => ("Custom error: ", m.as_str()),
            SkrdError::StaticCustom(m) => ("Custom error: ", *m),
        };
        let mut r = String::from_str(label);
        r.append(cause);
        r
    }
}

pub type SkrdResult<T> = Result<T, SkrdError>;

} // verus!
