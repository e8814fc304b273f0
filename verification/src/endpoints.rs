//! The boundary: what each request is answered with, given what the store
//! said.

use crate::errors::{Error, InternalErrExt, Status};
use crate::service::{
    health_from_probe, registration_from_ack, resolution_from_lookup, Health, Resolution,
};
use crate::store::PONG;
use axum::http::header::{HeaderValue, InvalidHeaderValue};
use vstd::prelude::*;
use vstd::utf8::{encode_scalar, encode_utf8};

verus! {

/// The headers of an answer, as far as this core sets any.
#[derive(Clone, Debug, PartialEq, Eq)]
pub struct Headers {
    /// Where a redirect leads.
    pub location: Option<String>,
}

/// A byte that a header value may hold: a tab, or anything from the space
/// upwards but the delete character.
pub open spec fn is_header_byte(b: u8) -> bool {
    (b >= 32 && b != 127) || b == 9
}

/// Bytes that make up a header value.
pub open spec fn is_header_bytes(bytes: Seq<u8>) -> bool {
    forall|i: int| 0 <= i < bytes.len() ==> is_header_byte(#[trigger] bytes[i])
}

/// A character that a header value may hold: a tab, or anything from the
/// space upwards but the delete character.
pub open spec fn is_header_char(c: char) -> bool {
    (c >= ' ' && c != '\u{7f}') || c == '\t'
}

/// Text that can be carried as a header value.
pub open spec fn is_header_text(text: Seq<char>) -> bool {
    forall|i: int| 0 <= i < text.len() ==> is_header_char(#[trigger] text[i])
}

/// A header value of `http`, carried through as an opaque value.
#[verifier::external_type_specification]
#[verifier::external_body]
pub struct ExHeaderValue(HeaderValue);

/// The error of `http` for text that is no header value.
#[verifier::external_type_specification]
#[verifier::external_body]
pub struct ExInvalidHeaderValue(InvalidHeaderValue);

/// `HeaderValue::from_str` walks the bytes of the string and accepts it
/// exactly when each of them is a tab, or at least 32 and not 127.
pub assume_specification[ HeaderValue::from_str ](src: &str) -> (value: Result<
    HeaderValue,
    InvalidHeaderValue,
>)
    ensures
        value is Ok <==> is_header_bytes(encode_utf8(src@)),
;

proof fn lemma_header_scalar(c: char)
    ensures
        is_header_bytes(encode_scalar(c as u32)) <==> is_header_char(c),
{
    let s = c as u32;
    let bytes = encode_scalar(s);
    if s <= 0x7f {
        assert((s & 0x7F) as u8 == s) by (bit_vector)
            requires
                s <= 0x7f,
        ;
        assert(bytes[0] == s as u8);
        if is_header_bytes(bytes) {
            assert(is_header_byte(bytes[0]));
        }
    } else {
        assert(0xC0u8 | ((s >> 6) & 0x1F) as u8 >= 128) by (bit_vector);
        assert(0xE0u8 | ((s >> 12) & 0x0F) as u8 >= 128) by (bit_vector);
        assert(0xF0u8 | ((s >> 18) & 0x7) as u8 >= 128) by (bit_vector);
        assert(0x80u8 | (s & 0x3F) as u8 >= 128) by (bit_vector);
        assert(0x80u8 | ((s >> 6) & 0x3F) as u8 >= 128) by (bit_vector);
        assert(0x80u8 | ((s >> 12) & 0x3F) as u8 >= 128) by (bit_vector);
    }
}

/// Text can be carried as a header value exactly when the bytes of its UTF-8
/// encoding can: a character beyond ASCII is encoded in bytes of 128 and
/// above, and an ASCII character is its own byte.
pub proof fn lemma_header_text_by_bytes(text: Seq<char>)
    ensures
        is_header_bytes(encode_utf8(text)) <==> is_header_text(text),
    decreases text.len(),
{
    if text.len() > 0 {
        let head = encode_scalar(text[0] as u32);
        let rest = text.drop_first();
        let tail = encode_utf8(rest);
        lemma_header_scalar(text[0]);
        lemma_header_text_by_bytes(rest);
        assert(encode_utf8(text) == head + tail);
        if is_header_bytes(head + tail) {
            assert forall|i: int| 0 <= i < head.len() implies is_header_byte(#[trigger] head[i]) by {
                assert(head[i] == (head + tail)[i]);
            }
            assert forall|i: int| 0 <= i < tail.len() implies is_header_byte(#[trigger] tail[i]) by {
                assert(tail[i] == (head + tail)[head.len() + i]);
            }
            assert forall|i: int| 0 <= i < text.len() implies is_header_char(#[trigger] text[i]) by {
                if i > 0 {
                    assert(text[i] == rest[i - 1]);
                }
            }
        }
        if is_header_text(text) {
            assert forall|i: int| 0 <= i < rest.len() implies is_header_char(#[trigger] rest[i]) by {
                assert(rest[i] == text[i + 1]);
            }
            assert forall|i: int| 0 <= i < (head + tail).len() implies is_header_byte(
                #[trigger] (head + tail)[i],
            ) by {
                if i < head.len() {
                    assert((head + tail)[i] == head[i]);
                } else {
                    assert((head + tail)[i] == tail[i - head.len()]);
                }
            }
        }
    }
}

/// Accepts a stored target as the destination of a redirect, or reports it
/// as malformed.
pub fn redirect_target(target_url: String) -> (target: Result<String, Error>)
    ensures
        target == if is_header_text(target_url@) {
            Ok::<String, Error>(target_url)
        } else {
            Err::<String, Error>(Error::MalformedTarget)
        },
{
    proof {
        lemma_header_text_by_bytes(target_url@);
    }
    match HeaderValue::from_str(target_url.as_str()) {
        Ok(_) => Ok(target_url),
        Err(_) => Err(Error::MalformedTarget),
    }
}

/// Answers a health check: success when the store is healthy, and a service
/// that is unavailable for whatever reason it is not.
pub fn health_response(health: Health) -> (response: Result<(), Status>)
    ensures
        response == match health {
            Health::Healthy => Ok::<(), Status>(()),
            Health::Unhealthy(_) => Err::<(), Status>(Status::ServiceUnavailable),
        },
{
    match health {
        Health::Healthy => Ok(()),
        Health::Unhealthy(_) => Err(Status::ServiceUnavailable),
    }
}

/// Answers a lookup: a permanent redirect to the target that was found, an
/// answer of its own for an unknown identifier, and a server-side error where
/// the store failed or the target cannot be carried in the redirect.
pub fn link_response(resolution: Resolution) -> (response: Result<(Status, Headers), Status>)
    ensures
        response == match resolution {
            Resolution::Found(target_url) => if is_header_text(target_url@) {
                Ok::<(Status, Headers), Status>(
                    (Status::MovedPermanently, (Headers { location: Some(target_url) })),
                )
            } else {
                Err::<(Status, Headers), Status>(Status::InternalServerError)
            },
            Resolution::NotFound => Ok::<(Status, Headers), Status>(
                (Status::NotFound, (Headers { location: None })),
            ),
            Resolution::Failed(_) => Err::<(Status, Headers), Status>(Status::InternalServerError),
        },
{
    match resolution {
        Resolution::Found(target_url) => {
            let location = redirect_target(target_url).map_internal_err()?;
            Ok((Status::MovedPermanently, Headers { location: Some(location) }))
        },
        Resolution::NotFound => Ok((Status::NotFound, Headers { location: None })),
        Resolution::Failed(_) => Err(Status::InternalServerError),
    }
}

/// Answers a registration: the identifier where the write went through, a
/// server-side error where it did not.
pub fn registration_response(outcome: Result<String, Error>) -> (response: Result<String, Status>)
    ensures
        response == match outcome {
            Ok(id) => Ok::<String, Status>(id),
            Err(_) => Err::<String, Status>(Status::InternalServerError),
        },
{
    outcome.map_internal_err()
}

/// The answer to a health request, given the store's reply to the probe.
pub fn health(probe: Result<String, Error>) -> (response: Result<(), Status>)
    ensures
        response == if probe matches Ok(text) && text@ == PONG@ {
            Ok::<(), Status>(())
        } else {
            Err::<(), Status>(Status::ServiceUnavailable)
        },
{
    health_response(health_from_probe(probe))
}

/// The answer to a request for an identifier, given the store's reply to the
/// read.
pub fn get_link(lookup: Result<Option<String>, Error>) -> (response: Result<
    (Status, Headers),
    Status,
>)
    ensures
        response == match lookup {
            Ok(Some(target_url)) => if is_header_text(target_url@) {
                Ok::<(Status, Headers), Status>(
                    (Status::MovedPermanently, (Headers { location: Some(target_url) })),
                )
            } else {
                Err::<(Status, Headers), Status>(Status::InternalServerError)
            },
            Ok(None) => Ok::<(Status, Headers), Status>(
                (Status::NotFound, (Headers { location: None })),
            ),
            Err(_) => Err::<(Status, Headers), Status>(Status::InternalServerError),
        },
{
    link_response(resolution_from_lookup(lookup))
}

/// The answer to a registration request, given the identifier that was
/// written and the store's reply to the write.
pub fn set_link(id: String, ack: Result<(), Error>) -> (response: Result<String, Status>)
    ensures
        response == match ack {
            Ok(_) => Ok::<String, Status>(id),
            Err(_) => Err::<String, Status>(Status::InternalServerError),
        },
{
    registration_response(registration_from_ack(id, ack))
}

} // verus!
