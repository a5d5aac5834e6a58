//! Reading documents: the format that a file's extension names, and decoding
//! text as a document of a given dialect.

use vstd::prelude::*;

verus! {

/// The schema dialect that a document is written in.
#[derive(Clone, Copy, Debug, PartialEq, Eq, Structural)]
pub enum OASVersion {
    V2_0,
    V3_0,
    V3_1,
}

/// The serialization format of a document.
#[derive(Clone, Copy, Debug, PartialEq, Eq, Structural)]
pub enum OASFormat {
    YAML,
    JSON,
}

/// Errors of reading a document.
#[derive(Clone, Debug, PartialEq, Eq)]
pub enum SpecError {
    /// The file's extension, empty when it has none, names no supported format.
    UnsupportedExtension(String),
    /// The text is not a document of the dialect; with the decoder's message.
    Malformed(OASVersion, String),
}

/// roas's Swagger 2.0 document, carried as an opaque value.
#[verifier::external_type_specification]
#[verifier::external_body]
pub struct ExSpecV2(roas::v2::spec::Spec);

/// roas's OpenAPI 3.0 document, carried as an opaque value.
#[verifier::external_type_specification]
#[verifier::external_body]
pub struct ExSpecV30(roas::v3_0::spec::Spec);

/// roas's OpenAPI 3.1 document, carried as an opaque value.
#[verifier::external_type_specification]
#[verifier::external_body]
pub struct ExSpecV31(roas::v3_1::spec::Spec);

/// A decoded document of one of the three dialects.
#[derive(Debug)]
pub enum OASVersionedSpec {
    V2_0(roas::v2::spec::Spec),
    V3_0(roas::v3_0::spec::Spec),
    V3_1(roas::v3_1::spec::Spec),
}

impl OASVersionedSpec {
    /// The dialect of the document.
    pub open spec fn dialect(&self) -> OASVersion {
        match self {
            OASVersionedSpec::V2_0(_) => OASVersion::V2_0,
            OASVersionedSpec::V3_0(_) => OASVersion::V3_0,
            OASVersionedSpec::V3_1(_) => OASVersion::V3_1,
        }
    }

    /// Decodes `spec_content`, written in `spec_format`, as a document of the
    /// dialect `oas_version`. It succeeds exactly when the decoder of that format
    /// and dialect accepts the text; otherwise the error names the dialect and
    /// carries the decoder's message.
    pub fn parse(spec_content: &str, spec_format: OASFormat, oas_version: OASVersion) -> (r: Result<OASVersionedSpec, SpecError>)
        ensures
            match decode_error(spec_format, oas_version, spec_content@) {
                None => r matches Ok(s) && s.dialect() == oas_version,
                Some(m) => r matches Err(SpecError::Malformed(v, e)) && v == oas_version && e@ == m,
            },
    {
        match oas_version {
            OASVersion::V2_0 => match match spec_format {
                OASFormat::YAML => decode_yaml_v2(spec_content),
                OASFormat::JSON => decode_json_v2(spec_content),
            } {
                Ok(s) => Ok(OASVersionedSpec::V2_0(s)),
                Err(m) => Err(SpecError::Malformed(oas_version, m)),
            },
            OASVersion::V3_0 => match match spec_format {
                OASFormat::YAML => decode_yaml_v3_0(spec_content),
                OASFormat::JSON => decode_json_v3_0(spec_content),
            } {
                Ok(s) => Ok(OASVersionedSpec::V3_0(s)),
                Err(m) => Err(SpecError::Malformed(oas_version, m)),
            },
            OASVersion::V3_1 => match match spec_format {
                OASFormat::YAML => decode_yaml_v3_1(spec_content),
                OASFormat::JSON => decode_json_v3_1(spec_content),
            } {
                Ok(s) => Ok(OASVersionedSpec::V3_1(s)),
                Err(m) => Err(SpecError::Malformed(oas_version, m)),
            },
        }
    }
}

/// The decoder's message for `text` read in `format` as a document of
/// `version`; `None` when the text decodes.
pub open spec fn decode_error(format: OASFormat, version: OASVersion, text: Seq<char>) -> Option<Seq<char>> {
    match (format, version) {
        (OASFormat::JSON, OASVersion::V2_0) => json_error_v2(text),
        (OASFormat::YAML, OASVersion::V2_0) => yaml_error_v2(text),
        (OASFormat::JSON, OASVersion::V3_0) => json_error_v3_0(text),
        (OASFormat::YAML, OASVersion::V3_0) => yaml_error_v3_0(text),
        (OASFormat::JSON, OASVersion::V3_1) => json_error_v3_1(text),
        (OASFormat::YAML, OASVersion::V3_1) => yaml_error_v3_1(text),
    }
}

/// The message with which `serde_json::from_str` rejects `text` as an Swagger 2.0
/// document in JSON; `None` when it accepts it.
pub uninterp spec fn json_error_v2(text: Seq<char>) -> Option<Seq<char>>;

/// Relies on `serde_json::from_str` at roas's Swagger 2.0 document type: whether it
/// accepts the text, and its message, depend on the text alone.
#[verifier::external_body]
fn decode_json_v2(text: &str) -> (r: Result<roas::v2::spec::Spec, String>)
    ensures
        match json_error_v2(text@) {
            None => r is Ok,
            Some(msg) => r matches Err(e) && e@ == msg,
        },
{
    match serde_json::from_str::<roas::v2::spec::Spec>(text) {
        Ok(v) => Ok(v),
        Err(e) => Err(e.to_string()),
    }
}

/// The message with which `serde_saphyr::from_str` rejects `text` as an Swagger 2.0
/// document in YAML; `None` when it accepts it.
pub uninterp spec fn yaml_error_v2(text: Seq<char>) -> Option<Seq<char>>;

/// Relies on `serde_saphyr::from_str` at roas's Swagger 2.0 document type: whether it
/// accepts the text, and its message, depend on the text alone.
#[verifier::external_body]
fn decode_yaml_v2(text: &str) -> (r: Result<roas::v2::spec::Spec, String>)
    ensures
        match yaml_error_v2(text@) {
            None => r is Ok,
            Some(msg) => r matches Err(e) && e@ == msg,
        },
{
    match serde_saphyr::from_str::<roas::v2::spec::Spec>(text) {
        Ok(v) => Ok(v),
        Err(e) => Err(e.to_string()),
    }
}

/// The message with which `serde_json::from_str` rejects `text` as an OpenAPI 3.0
/// document in JSON; `None` when it accepts it.
pub uninterp spec fn json_error_v3_0(text: Seq<char>) -> Option<Seq<char>>;

/// Relies on `serde_json::from_str` at roas's OpenAPI 3.0 document type: whether it
/// accepts the text, and its message, depend on the text alone.
#[verifier::external_body]
fn decode_json_v3_0(text: &str) -> (r: Result<roas::v3_0::spec::Spec, String>)
    ensures
        match json_error_v3_0(text@) {
            None => r is Ok,
            Some(msg) => r matches Err(e) && e@ == msg,
        },
{
    match serde_json::from_str::<roas::v3_0::spec::Spec>(text) {
        Ok(v) => Ok(v),
        Err(e) => Err(e.to_string()),
    }
}

/// The message with which `serde_saphyr::from_str` rejects `text` as an OpenAPI 3.0
/// document in YAML; `None` when it accepts it.
pub uninterp spec fn yaml_error_v3_0(text: Seq<char>) -> Option<Seq<char>>;

/// Relies on `serde_saphyr::from_str` at roas's OpenAPI 3.0 document type: whether it
/// accepts the text, and its message, depend on the text alone.
#[verifier::external_body]
fn decode_yaml_v3_0(text: &str) -> (r: Result<roas::v3_0::spec::Spec, String>)
    ensures
        match yaml_error_v3_0(text@) {
            None => r is Ok,
            Some(msg) => r matches Err(e) && e@ == msg,
        },
{
    match serde_saphyr::from_str::<roas::v3_0::spec::Spec>(text) {
        Ok(v) => Ok(v),
        Err(e) => Err(e.to_string()),
    }
}

/// The message with which `serde_json::from_str` rejects `text` as an OpenAPI 3.1
/// document in JSON; `None` when it accepts it.
pub uninterp spec fn json_error_v3_1(text: Seq<char>) -> Option<Seq<char>>;

/// Relies on `serde_json::from_str` at roas's OpenAPI 3.1 document type: whether it
/// accepts the text, and its message, depend on the text alone.
#[verifier::external_body]
fn decode_json_v3_1(text: &str) -> (r: Result<roas::v3_1::spec::Spec, String>)
    ensures
        match json_error_v3_1(text@) {
            None => r is Ok,
            Some(msg) => r matches Err(e) && e@ == msg,
        },
{
    match serde_json::from_str::<roas::v3_1::spec::Spec>(text) {
        Ok(v) => Ok(v),
        Err(e) => Err(e.to_string()),
    }
}

/// The message with which `serde_saphyr::from_str` rejects `text` as an OpenAPI 3.1
/// document in YAML; `None` when it accepts it.
pub uninterp spec fn yaml_error_v3_1(text: Seq<char>) -> Option<Seq<char>>;

/// Relies on `serde_saphyr::from_str` at roas's OpenAPI 3.1 document type: whether it
/// accepts the text, and its message, depend on the text alone.
#[verifier::external_body]
fn decode_yaml_v3_1(text: &str) -> (r: Result<roas::v3_1::spec::Spec, String>)
    ensures
        match yaml_error_v3_1(text@) {
            None => r is Ok,
            Some(msg) => r matches Err(e) && e@ == msg,
        },
{
    match serde_saphyr::from_str::<roas::v3_1::spec::Spec>(text) {
        Ok(v) => Ok(v),
        Err(e) => Err(e.to_string()),
    }
}

/// The lower-case form of a text.
pub uninterp spec fn lowercase_of(s: Seq<char>) -> Seq<char>;

/// Relies on `str::to_lowercase`: the lower-case form depends on the characters alone.
#[verifier::external_body]
fn lowercase(s: &str) -> (r: String)
    ensures
        r@ == lowercase_of(s@),
{
    s.to_lowercase()
}

/// The format that a lower-case extension names: `yaml` or `json`.
pub open spec fn format_named(ext: Seq<char>) -> Option<OASFormat> {
    if ext == "yaml"@ {
        Some(OASFormat::YAML)
    } else if ext == "json"@ {
        Some(OASFormat::JSON)
    } else {
        None
    }
}

/// The format of a lower-case extension, or `UnsupportedExtension` with it.
pub fn format_of_lowercase(ext: &str) -> (r: Result<OASFormat, SpecError>)
    ensures
        match format_named(ext@) {
            Some(f) => r == Ok::<OASFormat, SpecError>(f),
            None => r matches Err(SpecError::UnsupportedExtension(e)) && e@ == ext@,
        },
{
    let e = String::from_str(ext);
    if e == String::from_str("yaml") {
        Ok(OASFormat::YAML)
    } else if e == String::from_str("json") {
        Ok(OASFormat::JSON)
    } else {
        Err(SpecError::UnsupportedExtension(e))
    }
}

/// The format of a file from its extension, in any case; a file without one
/// fails with an empty `UnsupportedExtension`.
pub fn format_for_extension(extension: Option<&str>) -> (r: Result<OASFormat, SpecError>)
    ensures
        match extension {
            None => r matches Err(SpecError::UnsupportedExtension(e)) && e@.len() == 0,
            Some(x) => match format_named(lowercase_of(x@)) {
                Some(f) => r == Ok::<OASFormat, SpecError>(f),
                None => r matches Err(SpecError::UnsupportedExtension(e)) && e@ == lowercase_of(x@),
            },
        },
{
    match extension {
        None => Err(SpecError::UnsupportedExtension(String::new())),
        Some(x) => {
            let lower = lowercase(x);
            format_of_lowercase(lower.as_str())
        },
    }
}

} // verus!
