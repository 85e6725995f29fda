use vstd::prelude::*;

verus! {

/// The closed set of failures that a request can end in.
///
/// Each kind carries a human-readable message and maps to exactly one HTTP
/// status code, so that every endpoint reports failures in one JSON shape.
#[derive(Debug)]
pub enum EzyTutorError {
    /// The storage call failed for a reason other than "no rows".
    DBError(String),
    /// A lookup by tutor and course id matched no row.
    NotFound(String),
    /// A request body did not have the expected shape.
    InvalidInput(String),
}

/// A lowercase hexadecimal digit.
pub open spec fn hex_digit(d: u32) -> char {
    if d < 10 {
        crate::text::digit_char(d as nat)
    } else if d == 10 { 'a' }
    else if d == 11 { 'b' }
    else if d == 12 { 'c' }
    else if d == 13 { 'd' }
    else if d == 14 { 'e' }
    else { 'f' }
}

/// How one character stands inside a JSON string: the quote and the
/// backslash are escaped, the five usual control characters take their
/// short escapes, every other control character below 0x20 becomes
/// `\u00xx` in lowercase hex, and anything else stands as it is.
pub open spec fn json_escape(c: char) -> Seq<char> {
    if c == '"' {
        seq!['\\', '"']
    } else if c == '\\' {
        seq!['\\', '\\']
    } else if c == '\x08' {
        seq!['\\', 'b']
    } else if c == '\t' {
        seq!['\\', 't']
    } else if c == '\n' {
        seq!['\\', 'n']
    } else if c == '\x0c' {
        seq!['\\', 'f']
    } else if c == '\r' {
        seq!['\\', 'r']
    } else if (c as u32) < 0x20 {
        seq!['\\', 'u', '0', '0', hex_digit((c as u32) / 16), hex_digit((c as u32) % 16)]
    } else {
        seq![c]
    }
}

/// The escaped characters of a string, in order.
pub open spec fn json_escaped(s: Seq<char>) -> Seq<char>
    decreases s.len(),
{
    if s.len() == 0 {
        Seq::empty()
    } else {
        json_escaped(s.drop_last()) + json_escape(s.last())
    }
}

/// The JSON text of a string value: the escaped characters between quotes.
pub open spec fn json_string_literal(s: Seq<char>) -> Seq<char> {
    seq!['"'] + json_escaped(s) + seq!['"']
}

/// Relies on serde_json's `Display` for `Value::String`, which writes the
/// string as a compact JSON string literal through `format_escaped_str`,
/// escaping by its `ESCAPE` table; writing into a `Formatter` cannot fail.
#[verifier::external_body]
fn json_quote(s: &str) -> (r: String)
    ensures
        r@ == json_string_literal(s@),
{
    serde_json::Value::String(s.to_string()).to_string()
}

impl EzyTutorError {
    /// The HTTP status code of each kind.
    pub open spec fn spec_status_code(&self) -> u16 {
        match self {
            EzyTutorError::DBError(_) => 500,
            EzyTutorError::NotFound(_) => 404,
            EzyTutorError::InvalidInput(_) => 400,
        }
    }

    /// The message that the error carries.
    pub open spec fn spec_message(&self) -> Seq<char> {
        match self {
            EzyTutorError::DBError(m) => m@,
            EzyTutorError::NotFound(m) => m@,
            EzyTutorError::InvalidInput(m) => m@,
        }
    }

    /// The message that the client sees: a storage failure reads
    /// "Database error" whatever the driver said; the other kinds show the
    /// message that they carry.
    pub open spec fn spec_client_message(&self) -> Seq<char> {
        match self {
            EzyTutorError::DBError(_) => "Database error"@,
            EzyTutorError::NotFound(m) => m@,
            EzyTutorError::InvalidInput(m) => m@,
        }
    }

    /// The JSON body of the response: `{"error_message":<client message>}`.
    pub open spec fn spec_error_body(&self) -> Seq<char> {
        "{\"error_message\":"@ + json_string_literal(self.spec_client_message()) + "}"@
    }

    pub open spec fn is_not_found(&self) -> bool {
        self is NotFound
    }

    pub open spec fn is_invalid_input(&self) -> bool {
        self is InvalidInput
    }

    pub open spec fn is_db_error(&self) -> bool {
        self is DBError
    }

    pub fn status_code(&self) -> (r: u16)
        ensures
            r == self.spec_status_code(),
    {
        match self {
            EzyTutorError::DBError(_) => 500,
            EzyTutorError::NotFound(_) => 404,
            EzyTutorError::InvalidInput(_) => 400,
        }
    }

    /// The message shown to the client under `error_message`. A storage
    /// failure's own text stays on the server side.
    pub fn error_message(&self) -> (r: String)
        ensures
            r@ == self.spec_client_message(),
    {
        match self {
            EzyTutorError::DBError(_) => String::from_str("Database error"),
            EzyTutorError::NotFound(m) => m.clone(),
            EzyTutorError::InvalidInput(m) => m.clone(),
        }
    }

    /// The JSON body of the error response, the same shape for every kind.
    pub fn error_body(&self) -> (r: String)
        ensures
            r@ == self.spec_error_body(),
    {
        let message = self.error_message();
        let quoted = json_quote(message.as_str());
        let mut body = String::from_str("{\"error_message\":");
        body.append(quoted.as_str());
        body.append("}");
        body
    }
}

} // verus!
