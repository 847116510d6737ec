use vstd::prelude::*;
use crate::text::{decimal, push_decimal, push_str};

verus! {

/// HTTP-style error carried across the runtime boundary.
#[derive(Clone, Debug, PartialEq, Eq)]
pub enum Error {
    /// Bad Request (400): parsing/validation errors.
    BadRequest(String),
    /// Unauthorized (401): authorization errors.
    Unauthorized(String),
    /// Not Found (404): missing data errors.
    NotFound(String),
    /// Gone (410): stale data errors.
    Gone(String),
    /// I'm a teapot (418): all other/unknown errors.
    ImATeaPot(String),
    /// Internal Server Error (500): runtime errors.
    ServerError(String),
    /// Bad Gateway (502): upstream service errors.
    BadGateway(String),
    /// Service Unavailable (503): application-level errors.
    ServiceUnavailable(String),
}

/// The status code of each variant.
pub open spec fn spec_code(e: Error) -> u64 {
    match e {
        Error::BadRequest(_) => 400,
        Error::Unauthorized(_) => 401,
        Error::NotFound(_) => 404,
        Error::Gone(_) => 410,
        Error::ImATeaPot(_) => 418,
        Error::ServerError(_) => 500,
        Error::BadGateway(_) => 502,
        Error::ServiceUnavailable(_) => 503,
    }
}

/// The description carried by each variant.
pub open spec fn spec_description(e: Error) -> Seq<char> {
    match e {
        Error::BadRequest(d) => d@,
        Error::Unauthorized(d) => d@,
        Error::NotFound(d) => d@,
        Error::Gone(d) => d@,
        Error::ImATeaPot(d) => d@,
        Error::ServerError(d) => d@,
        Error::BadGateway(d) => d@,
        Error::ServiceUnavailable(d) => d@,
    }
}

impl Error {
    /// Returns the error code.
    pub fn code(&self) -> (c: u64)
        ensures
            c == spec_code(*self),
    {
        match self {
            Error::BadRequest(_) => 400,
            Error::Unauthorized(_) => 401,
            Error::NotFound(_) => 404,
            Error::Gone(_) => 410,
            Error::ImATeaPot(_) => 418,
            Error::ServerError(_) => 500,
            Error::BadGateway(_) => 502,
            Error::ServiceUnavailable(_) => 503,
        }
    }

    /// Returns the error description.
    pub fn description(&self) -> (d: &str)
        ensures
            d@ == spec_description(*self),
    {
        match self {
            Error::BadRequest(desc) => desc.as_str(),
            Error::Unauthorized(desc) => desc.as_str(),
            Error::NotFound(desc) => desc.as_str(),
            Error::Gone(desc) => desc.as_str(),
            Error::ImATeaPot(desc) => desc.as_str(),
            Error::ServerError(desc) => desc.as_str(),
            Error::BadGateway(desc) => desc.as_str(),
            Error::ServiceUnavailable(desc) => desc.as_str(),
        }
    }
}


/// Status code for "I'm a teapot", the code of every unknown error.
pub const TEA_POT: u64 = 418;

/// The code an error is given when it is built from `code`: `code` itself when
/// a variant has it, the teapot code otherwise.
pub open spec fn known_code(code: u64) -> u64 {
    if code == 400 || code == 401 || code == 404 || code == 410 || code == 500 || code == 502
        || code == 503 {
        code
    } else {
        TEA_POT
    }
}

/// Whether `s` can stand between the quotes of a JSON string as it is: no
/// quote, no backslash and no control character.
pub open spec fn json_plain(s: Seq<char>) -> bool {
    forall|i: int| 0 <= i < s.len() ==> s[i] != '"' && s[i] != '\\' && (s[i] as u32) >= 0x20
}

/// The JSON text `{"<num_key>": <n>, "<str_key>": "<d>"}`.
pub open spec fn two_field_object(num_key: Seq<char>, n: u64, str_key: Seq<char>, d: Seq<char>) -> Seq<char> {
    "{\""@ + num_key + "\": "@ + decimal(n as nat) + ", \""@ + str_key + "\": \""@ + d + "\"}"@
}

/// The JSON form of an error with code `code` and description `d`.
pub open spec fn error_json(code: u64, d: Seq<char>) -> Seq<char> {
    two_field_object("code"@, code, "description"@, d)
}

/// What a JSON text holds in the two fields that describe an error: `None`
/// when the text is not a JSON object; otherwise the number field's value if
/// it is an unsigned integer, and the string field's value if it is a string
/// (`serde_json::from_str` into a `Value`, then `get`, `as_u64` and `as_str`).
pub uninterp spec fn json_object_fields(
    text: Seq<char>,
    num_key: Seq<char>,
    str_key: Seq<char>,
) -> Option<(Option<u64>, Option<Seq<char>>)>;

/// A reading of two fields by views.
pub open spec fn fields_view(r: Option<(Option<u64>, Option<String>)>) -> Option<(Option<u64>, Option<Seq<char>>)> {
    match r {
        None => None,
        Some((n, d)) => Some(
            (
                n,
                match d {
                    Some(x) => Some(x@),
                    None => None,
                },
            ),
        ),
    }
}

/// Whether `fields` is what an object of just the two fields, with keys and
/// string value that need no escapes, holds: the number and the string
/// written in `text`.
pub open spec fn plain_fields_read(
    text: Seq<char>,
    num_key: Seq<char>,
    str_key: Seq<char>,
    fields: Option<(Option<u64>, Option<Seq<char>>)>,
) -> bool {
    forall|n: u64, d: Seq<char>|
        #![trigger two_field_object(num_key, n, str_key, d)]
        json_plain(num_key) && json_plain(str_key) && num_key != str_key && json_plain(d)
            && text == two_field_object(num_key, n, str_key, d)
            ==> fields == Some((Some(n), Some(d)))
}

/// Reads the number field `num_key` and the string field `str_key` of the
/// JSON object `text` (serde_json): `None` when `text` is not a JSON object.
/// Besides naming the result, the contract states what serde_json reads
/// from an object of just those two fields whose keys and string value need
/// no escapes: the number and the string written there.
#[verifier::external_body]
fn object_fields(text: &str, num_key: &str, str_key: &str) -> (r: Option<(Option<u64>, Option<String>)>)
    ensures
        plain_fields_read(text@, num_key@, str_key@, fields_view(r)),
        match r {
            None => json_object_fields(text@, num_key@, str_key@) is None,
            Some((n, d)) => json_object_fields(text@, num_key@, str_key@) == Some(
                (
                    n,
                    match d {
                        Some(x) => Some(x@),
                        None => None,
                    },
                ),
            ),
        },
{
    match serde_json::from_str::<serde_json::Value>(text) {
        Ok(serde_json::Value::Object(obj)) => Some(
            (
                obj.get(num_key).and_then(serde_json::Value::as_u64),
                obj.get(str_key).and_then(serde_json::Value::as_str).map(str::to_owned),
            ),
        ),
        _ => None,
    }
}

impl Error {
    /// Builds the error of `code` with `description`; unknown codes give the
    /// teapot error.
    pub fn from_code(code: u64, description: String) -> (e: Error)
        ensures
            spec_code(e) == known_code(code),
            spec_description(e) == description@,
    {
        match code {
            400 => Error::BadRequest(description),
            401 => Error::Unauthorized(description),
            404 => Error::NotFound(description),
            410 => Error::Gone(description),
            502 => Error::BadGateway(description),
            503 => Error::ServiceUnavailable(description),
            500 => Error::ServerError(description),
            _ => Error::ImATeaPot(description),
        }
    }

    /// Reads an error from its JSON form `{"code": .., "description": ".."}`.
    /// Text that is not a JSON object becomes a teapot error described by the
    /// text; a missing or non-numeric code is the teapot code, and a missing
    /// description is the whole text.
    pub fn parse(s: &str) -> (e: Error)
        ensures
            ({
                let fields = json_object_fields(s@, "code"@, "description"@);
                match fields {
                    None => e is ImATeaPot && spec_description(e) == s@,
                    Some((code, desc)) => {
                        &&& spec_code(e) == known_code(
                            match code {
                                Some(c) => c,
                                None => TEA_POT,
                            },
                        )
                        &&& spec_description(e) == match desc {
                            Some(d) => d,
                            None => s@,
                        }
                    },
                }
            }),
            forall|e2: Error|
                #![trigger error_json(spec_code(e2), spec_description(e2))]
                json_plain(spec_description(e2)) && s@ == error_json(spec_code(e2), spec_description(e2))
                    ==> spec_code(e) == spec_code(e2) && spec_description(e) == spec_description(e2),
    {
        let code_key = "code";
        let description_key = "description";
        proof {
            reveal_strlit("code");
            reveal_strlit("description");
            assert(code_key@.len() != description_key@.len());
        }
        let fields = object_fields(s, code_key, description_key);
        proof {
            assert forall|e2: Error|
                #![trigger error_json(spec_code(e2), spec_description(e2))]
                json_plain(spec_description(e2)) && s@ == error_json(spec_code(e2), spec_description(e2))
                implies fields_view(fields) == Some((Some(spec_code(e2)), Some(spec_description(e2))))
            by {
                lemma_code_is_known(e2);
                assert(s@ == two_field_object(code_key@, spec_code(e2), description_key@, spec_description(e2)));
            }
        }
        match fields {
            None => Error::ImATeaPot(s.to_owned()),
            Some((code, desc)) => {
                let code = match code {
                    Some(c) => c,
                    None => TEA_POT,
                };
                let description = match desc {
                    Some(d) => d,
                    None => s.to_owned(),
                };
                Error::from_code(code, description)
            },
        }
    }

    /// The JSON form of the error: `{"code": <code>, "description": "<description>"}`.
    pub fn message(&self) -> (m: String)
        ensures
            m@ == error_json(spec_code(*self), spec_description(*self)),
    {
        let mut m = String::new();
        push_str(&mut m, "{\"");
        push_str(&mut m, "code");
        push_str(&mut m, "\": ");
        push_decimal(&mut m, self.code());
        push_str(&mut m, ", \"");
        push_str(&mut m, "description");
        push_str(&mut m, "\": \"");
        push_str(&mut m, self.description());
        push_str(&mut m, "\"}");
        m
    }
}

/// What reading `s` as an error gives: the error that its JSON form
/// describes, the teapot error described by `s` when it is not a JSON
/// object, and the error itself when `s` is an error's JSON form.
pub open spec fn parsed_as(s: Seq<char>, e: Error) -> bool {
    &&& match json_object_fields(s, "code"@, "description"@) {
        None => e is ImATeaPot && spec_description(e) == s,
        Some((code, desc)) => {
            &&& spec_code(e) == known_code(
                match code {
                    Some(c) => c,
                    None => TEA_POT,
                },
            )
            &&& spec_description(e) == match desc {
                Some(d) => d,
                None => s,
            }
        },
    }
    &&& forall|e2: Error|
        #![trigger error_json(spec_code(e2), spec_description(e2))]
        json_plain(spec_description(e2)) && s == error_json(spec_code(e2), spec_description(e2))
            ==> spec_code(e) == spec_code(e2) && spec_description(e) == spec_description(e2)
}

impl core::str::FromStr for Error {
    type Err = Error;

    /// Reading an error never fails: it is what [`Error::parse`] reads.
    fn from_str(s: &str) -> (r: Result<Error, Error>)
        ensures
            r matches Ok(e) && parsed_as(s@, e),
    {
        Ok(Error::parse(s))
    }
}

/// Every error's code is one of the known codes, so rebuilding an error from
/// its own code and description keeps its variant and description.
pub proof fn lemma_code_is_known(e: Error)
    ensures
        known_code(spec_code(e)) == spec_code(e),
{
}

} // verus!
