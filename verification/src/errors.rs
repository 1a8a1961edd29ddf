//! The catalog of STUN failure classes: each known numeric error code with
//! its RFC 5389 reason phrase.

use vstd::prelude::*;

verus! {

/// The STUN failure classes known to the server.
#[derive(Clone, Copy, PartialEq, Eq, Structural, Debug)]
pub enum ErrorCodeEnum {
    BadRequest,
    Unauthorized,
    TryAlternate,
    UnknownAttributes,
    StaleNonce,
    ServerError,
}

impl ErrorCodeEnum {
    /// The numeric STUN error code of this failure class.
    pub open spec fn spec_status_code(self) -> u32 {
        match self {
            ErrorCodeEnum::BadRequest => 400,
            ErrorCodeEnum::Unauthorized => 401,
            ErrorCodeEnum::TryAlternate => 300,
            ErrorCodeEnum::UnknownAttributes => 420,
            ErrorCodeEnum::StaleNonce => 438,
            ErrorCodeEnum::ServerError => 500,
        }
    }

    /// The numeric STUN error code of this failure class.
    pub fn status_code(&self) -> (r: u32)
        ensures
            r == self.spec_status_code(),
    {
        match *self {
            ErrorCodeEnum::BadRequest => 400,
            ErrorCodeEnum::Unauthorized => 401,
            ErrorCodeEnum::TryAlternate => 300,
            ErrorCodeEnum::UnknownAttributes => 420,
            ErrorCodeEnum::StaleNonce => 438,
            ErrorCodeEnum::ServerError => 500,
        }
    }

    /// The reason phrase RFC 5389 mandates for this failure class.
    pub open spec fn spec_reason_phrase(self) -> Seq<char> {
        match self {
            ErrorCodeEnum::BadRequest => "Bad Request: The request was malformed.  The client SHOULD NOT
        retry the request without modification from the previous
        attempt.  The server may not be able to generate a valid
        MESSAGE-INTEGRITY for this error, so the client MUST NOT expect
        a valid MESSAGE-INTEGRITY attribute on this response.
"@,
            ErrorCodeEnum::Unauthorized => "Unauthorized: The request did not contain the correct
        credentials to proceed.  The client should retry the request
        with proper credentials."@,
            ErrorCodeEnum::TryAlternate => "Try Alternate: The client should contact an alternate server for
        this request.  This error response MUST only be sent if the
        request included a USERNAME attribute and a valid MESSAGE-
        INTEGRITY attribute; otherwise, it MUST NOT be sent and error
        code 400 (Bad Request) is suggested.  This error response MUST
        be protected with the MESSAGE-INTEGRITY attribute, and receivers
        MUST validate the MESSAGE-INTEGRITY of this response before
        redirecting themselves to an alternate server."@,
            ErrorCodeEnum::UnknownAttributes => "Unknown Attribute: The server received a STUN packet containing
        a comprehension-required attribute that it did not understand.
        The server MUST put this unknown attribute in the UNKNOWN-
        ATTRIBUTE attribute of its error response."@,
            ErrorCodeEnum::StaleNonce => "Stale Nonce: The NONCE used by the client was no longer valid.
        The client should retry, using the NONCE provided in the
        response."@,
            ErrorCodeEnum::ServerError => "Server Error: The server has suffered a temporary error.  The
        client should try again."@,
        }
    }

    /// The reason phrase RFC 5389 mandates for this failure class.
    pub fn reason_phrase(&self) -> (r: &'static str)
        ensures
            r@ == self.spec_reason_phrase(),
    {
        match *self {
            ErrorCodeEnum::BadRequest => "Bad Request: The request was malformed.  The client SHOULD NOT
        retry the request without modification from the previous
        attempt.  The server may not be able to generate a valid
        MESSAGE-INTEGRITY for this error, so the client MUST NOT expect
        a valid MESSAGE-INTEGRITY attribute on this response.
",
            ErrorCodeEnum::Unauthorized => "Unauthorized: The request did not contain the correct
        credentials to proceed.  The client should retry the request
        with proper credentials.",
            ErrorCodeEnum::TryAlternate => "Try Alternate: The client should contact an alternate server for
        this request.  This error response MUST only be sent if the
        request included a USERNAME attribute and a valid MESSAGE-
        INTEGRITY attribute; otherwise, it MUST NOT be sent and error
        code 400 (Bad Request) is suggested.  This error response MUST
        be protected with the MESSAGE-INTEGRITY attribute, and receivers
        MUST validate the MESSAGE-INTEGRITY of this response before
        redirecting themselves to an alternate server.",
            ErrorCodeEnum::UnknownAttributes => "Unknown Attribute: The server received a STUN packet containing
        a comprehension-required attribute that it did not understand.
        The server MUST put this unknown attribute in the UNKNOWN-
        ATTRIBUTE attribute of its error response.",
            ErrorCodeEnum::StaleNonce => "Stale Nonce: The NONCE used by the client was no longer valid.
        The client should retry, using the NONCE provided in the
        response.",
            ErrorCodeEnum::ServerError => "Server Error: The server has suffered a temporary error.  The
        client should try again.",
        }
    }
}

/// No reason phrase is longer than a kilobyte of characters, so every
/// phrase fits a 16-bit attribute length field with room for the code word.
pub proof fn lemma_reason_phrase_len(e: ErrorCodeEnum)
    ensures
        e.spec_reason_phrase().len() <= 1024,
{
    reveal_strlit("Bad Request: The request was malformed.  The client SHOULD NOT
        retry the request without modification from the previous
        attempt.  The server may not be able to generate a valid
        MESSAGE-INTEGRITY for this error, so the client MUST NOT expect
        a valid MESSAGE-INTEGRITY attribute on this response.
");
    reveal_strlit("Unauthorized: The request did not contain the correct
        credentials to proceed.  The client should retry the request
        with proper credentials.");
    reveal_strlit("Try Alternate: The client should contact an alternate server for
        this request.  This error response MUST only be sent if the
        request included a USERNAME attribute and a valid MESSAGE-
        INTEGRITY attribute; otherwise, it MUST NOT be sent and error
        code 400 (Bad Request) is suggested.  This error response MUST
        be protected with the MESSAGE-INTEGRITY attribute, and receivers
        MUST validate the MESSAGE-INTEGRITY of this response before
        redirecting themselves to an alternate server.");
    reveal_strlit("Unknown Attribute: The server received a STUN packet containing
        a comprehension-required attribute that it did not understand.
        The server MUST put this unknown attribute in the UNKNOWN-
        ATTRIBUTE attribute of its error response.");
    reveal_strlit("Stale Nonce: The NONCE used by the client was no longer valid.
        The client should retry, using the NONCE provided in the
        response.");
    reveal_strlit("Server Error: The server has suffered a temporary error.  The
        client should try again.");
}

/// The UTF-8 encoding of a character sequence takes at most four bytes per
/// character.
pub proof fn lemma_encode_utf8_len(chars: Seq<char>)
    ensures
        vstd::utf8::encode_utf8(chars).len() <= 4 * chars.len(),
    decreases chars.len(),
{
    if chars.len() > 0 {
        lemma_encode_utf8_len(chars.drop_first());
    }
}

} // verus!
