use vstd::prelude::*;
use crate::error::DnsError;
use crate::message::{
    decode_request, decoded_request, encode_response, encoded_response, Answer, QuestionModel,
    Request, RequestModel, Response, ResponseModel,
};

verus! {

/// The time to live, in seconds, of every answer record.
pub const ANSWER_TTL: u32 = 600;

/// The operation code of a standard query.
pub const OP_QUERY: u8 = 0;

/// The response code that reports no error.
pub const NO_ERROR: u16 = 0;

/// The response to a question: same id, a standard query answered without
/// error, the question itself, and one A record for its name.
pub open spec fn response_model(id: u16, q: QuestionModel, address: u32) -> ResponseModel {
    (id, OP_QUERY, NO_ERROR, q, (q.0, ANSWER_TTL, address))
}

/// The request that a byte string decodes to, where it decodes.
pub open spec fn request_of(data: Seq<u8>) -> RequestModel
    recommends
        decoded_request(data) is Some,
{
    decoded_request(data)->0
}

/// The bytes of a result, or its error.
pub open spec fn bytes_of(r: Result<Vec<u8>, DnsError>) -> Result<Seq<u8>, DnsError> {
    match r {
        Ok(b) => Ok(b@),
        Err(e) => Err(e),
    }
}

/// The outcome of answering a request whose first question gets `address`.
pub open spec fn answer_bytes(req: RequestModel, address: u32) -> Result<Seq<u8>, DnsError>
    recommends
        req.1.len() > 0,
{
    match encoded_response(response_model(req.0, req.1[0], address)) {
        Some(b) => Ok(b),
        None => Err(DnsError::EncodeError),
    }
}

/// Builds the response to a decoded request: one answer for its first
/// question, with the given address.
pub fn build_response(request: &Request, address: u32) -> (r: Result<Response, DnsError>)
    ensures
        request.questions.len() == 0 ==> r == Err::<Response, DnsError>(DnsError::NoQuestion),
        request.questions.len() > 0 ==> (r matches Ok(resp) && resp@ == response_model(
            request.id,
            request.questions@[0]@,
            address,
        )),
{
    if request.questions.len() == 0 {
        return Err(DnsError::NoQuestion);
    }
    let question = request.questions[0].copy();
    let answer = Answer { name: question.name.clone(), ttl: ANSWER_TTL, address };
    Ok(Response { id: request.id, op_code: OP_QUERY, response_code: NO_ERROR, question, answer })
}

/// Answers the raw bytes of a DNS request with the raw bytes of a response
/// whose one answer holds the address that `fake_ip` supplies; `fake_ip` is
/// called only for a request that asks a question.
pub fn query<F: Fn() -> u32>(data: &[u8], fake_ip: F) -> (r: Result<Vec<u8>, DnsError>)
    requires
        fake_ip.requires(()),
    ensures
        data@.len() < 12 ==> r == Err::<Vec<u8>, DnsError>(DnsError::MalformedRequest),
        decoded_request(data@) is None ==> r == Err::<Vec<u8>, DnsError>(DnsError::MalformedRequest),
        decoded_request(data@) is Some && request_of(data@).1.len() == 0 ==> r == Err::<
            Vec<u8>,
            DnsError,
        >(DnsError::NoQuestion),
        decoded_request(data@) is Some && request_of(data@).1.len() > 0 ==> exists|a: u32|
            fake_ip.ensures((), a) && bytes_of(r) == answer_bytes(request_of(data@), a),
{
    let request = match decode_request(data) {
        Some(req) => req,
        None => return Err(DnsError::MalformedRequest),
    };
    if request.questions.len() == 0 {
        return Err(DnsError::NoQuestion);
    }
    let address = fake_ip();
    let response = match build_response(&request, address) {
        Ok(resp) => resp,
        Err(e) => return Err(e),
    };
    let r = match encode_response(&response) {
        Some(b) => Ok(b),
        None => Err(DnsError::EncodeError),
    };
    assert(request@.1[0] == request.questions@[0]@);
    assert(bytes_of(r) == answer_bytes(request_of(data@), address));
    r
}

} // verus!
