use vstd::prelude::*;

verus! {

/// A decode failure surfaced to the host: a diagnostic message together with
/// a stable numeric code. Code zero means no error and goes with an empty
/// message; every nonzero code goes with a non-empty message.
pub struct ErrorData {
    pub error: String,
    pub error_code: u16,
}

/// The invariant every result handed to the host obeys: the code is zero
/// exactly when the message is empty.
pub open spec fn error_data_wf(e: ErrorData) -> bool {
    (e.error_code == 0) <==> (e.error@.len() == 0)
}

/// The closed set of header-decode failures. The numeric codes are part of
/// the external contract and must never change meaning.
pub enum DecodeCarHeaderError {
    /// The generic decoder could not parse the bytes at all (code 1).
    HeaderCborDecodingError { reason: String },
    /// The decoded top-level value is not a map (code 10).
    HeaderCborMapExpectedError { reason: String },
    /// A version-1 header carries no non-empty roots list (code 20).
    HeaderRootsExpectedError,
    /// The decoded version differs from the expected one (code 30).
    HeaderVersionNotSupportedError { version: String },
    /// A fixed-layout header region is shorter than its layout (code 500).
    HeaderTooShortError,
    /// A shape error inside the map, with its own code (100, 200, 300, 400).
    InternalError(String, u16),
}

/// The diagnostic text `to_message` produces for each failure kind.
pub open spec fn spec_message(e: DecodeCarHeaderError) -> Seq<char> {
    match e {
        DecodeCarHeaderError::HeaderCborDecodingError { reason } => "Car header cbor codec error: `"@
            + reason@ + "`"@,
        DecodeCarHeaderError::HeaderCborMapExpectedError { reason } => "Car header expected cbor Map but got: `"@
            + reason@ + "`"@,
        DecodeCarHeaderError::HeaderRootsExpectedError => "Car header, no roots found."@,
        DecodeCarHeaderError::HeaderVersionNotSupportedError { version } => "Car header version is unsupported: `"@
            + version@ + "`"@,
        DecodeCarHeaderError::HeaderTooShortError => "Car header buffer is shorter than the fixed layout."@,
        DecodeCarHeaderError::InternalError(message, _) => "Internal error with code "@ + message@,
    }
}

impl DecodeCarHeaderError {
    /// The stable numeric code of this failure kind.
    pub open spec fn spec_code(&self) -> u16 {
        match self {
            DecodeCarHeaderError::HeaderCborDecodingError { .. } => 1u16,
            DecodeCarHeaderError::HeaderCborMapExpectedError { .. } => 10u16,
            DecodeCarHeaderError::HeaderRootsExpectedError => 20u16,
            DecodeCarHeaderError::HeaderVersionNotSupportedError { .. } => 30u16,
            DecodeCarHeaderError::HeaderTooShortError => 500u16,
            DecodeCarHeaderError::InternalError(_, code) => *code,
        }
    }

    pub fn to_u16(&self) -> (r: u16)
        ensures
            r == self.spec_code(),
    {
        match self {
            DecodeCarHeaderError::HeaderCborDecodingError { .. } => 1u16,
            DecodeCarHeaderError::HeaderCborMapExpectedError { .. } => 10u16,
            DecodeCarHeaderError::HeaderRootsExpectedError => 20u16,
            DecodeCarHeaderError::HeaderVersionNotSupportedError { .. } => 30u16,
            DecodeCarHeaderError::HeaderTooShortError => 500u16,
            DecodeCarHeaderError::InternalError(.., code) => *code,
        }
    }

    /// The diagnostic message for this failure, always non-empty.
    pub fn to_message(&self) -> (r: String)
        ensures
            r@ == spec_message(*self),
            r@.len() > 0,
    {
        proof {
            reveal_strlit("Car header cbor codec error: `");
            reveal_strlit("Car header expected cbor Map but got: `");
            reveal_strlit("Car header, no roots found.");
            reveal_strlit("Car header version is unsupported: `");
            reveal_strlit("Car header buffer is shorter than the fixed layout.");
            reveal_strlit("Internal error with code ");
            reveal_strlit("`");
        }
        match self {
            DecodeCarHeaderError::HeaderCborDecodingError { reason } => {
                let mut s = String::from_str("Car header cbor codec error: `");
                s.append(reason.as_str());
                s.append("`");
                proof {
                    assert(s@ =~= spec_message(*self));
                }
                s
            },
            DecodeCarHeaderError::HeaderCborMapExpectedError { reason } => {
                let mut s = String::from_str("Car header expected cbor Map but got: `");
                s.append(reason.as_str());
                s.append("`");
                proof {
                    assert(s@ =~= spec_message(*self));
                }
                s
            },
            DecodeCarHeaderError::HeaderRootsExpectedError => String::from_str(
                "Car header, no roots found.",
            ),
            DecodeCarHeaderError::HeaderVersionNotSupportedError { version } => {
                let mut s = String::from_str("Car header version is unsupported: `");
                s.append(version.as_str());
                s.append("`");
                proof {
                    assert(s@ =~= spec_message(*self));
                }
                s
            },
            DecodeCarHeaderError::HeaderTooShortError => String::from_str(
                "Car header buffer is shorter than the fixed layout.",
            ),
            DecodeCarHeaderError::InternalError(message, _) => {
                let mut s = String::from_str("Internal error with code ");
                s.append(message.as_str());
                proof {
                    assert(s@ =~= spec_message(*self));
                }
                s
            },
        }
    }

    /// Packages this failure as the value handed across the boundary.
    pub fn to_error_data(&self) -> (r: ErrorData)
        ensures
            r.error_code == self.spec_code(),
            r.error@ == spec_message(*self),
            r.error@.len() > 0,
    {
        ErrorData { error: self.to_message(), error_code: self.to_u16() }
    }
}

} // verus!
