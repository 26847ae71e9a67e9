use vstd::prelude::*;
use hickory_resolver::proto::op::{Message, OpCode, Query, ResponseCode};
use hickory_resolver::proto::rr::rdata::A;
use hickory_resolver::proto::rr::{DNSClass, Name, RData, Record, RecordType};
use hickory_resolver::proto::serialize::binary::{BinDecodable, BinEncodable};

verus! {

/// A question as plain values: the name in ASCII form, its record type and class.
pub type QuestionModel = (Seq<char>, u16, u16);

/// A request as plain values: the transaction id and the questions in order.
pub type RequestModel = (u16, Seq<QuestionModel>);

/// An answer record of type A: its name, its time to live and its address.
pub type AnswerModel = (Seq<char>, u32, u32);

/// A response as plain values: transaction id, operation code, response code,
/// the one question and the one answer.
pub type ResponseModel = (u16, u8, u16, QuestionModel, AnswerModel);

/// One entry of a message's question section.
pub struct Question {
    /// The queried name, fully qualified names ending in a dot (`example.com.`).
    pub name: String,
    /// The numeric record type (1 for A).
    pub query_type: u16,
    /// The numeric class (1 for IN).
    pub query_class: u16,
}

impl View for Question {
    type V = QuestionModel;

    open spec fn view(&self) -> QuestionModel {
        (self.name@, self.query_type, self.query_class)
    }
}

impl Question {
    /// A copy of the question.
    pub fn copy(&self) -> (r: Question)
        ensures
            r@ == self@,
    {
        Question { name: self.name.clone(), query_type: self.query_type, query_class: self.query_class }
    }
}

/// What the responder reads of a decoded request.
pub struct Request {
    pub id: u16,
    pub questions: Vec<Question>,
}

impl View for Request {
    type V = RequestModel;

    open spec fn view(&self) -> RequestModel {
        (self.id, self.questions@.map_values(|q: Question| q@))
    }
}

/// The answer record of a response, always of type A.
pub struct Answer {
    pub name: String,
    pub ttl: u32,
    /// The IPv4 address, most significant octet first.
    pub address: u32,
}

impl View for Answer {
    type V = AnswerModel;

    open spec fn view(&self) -> AnswerModel {
        (self.name@, self.ttl, self.address)
    }
}

/// A response message with one question and one answer.
pub struct Response {
    pub id: u16,
    pub op_code: u8,
    pub response_code: u16,
    pub question: Question,
    pub answer: Answer,
}

impl View for Response {
    type V = ResponseModel;

    open spec fn view(&self) -> ResponseModel {
        (self.id, self.op_code, self.response_code, self.question@, self.answer@)
    }
}

/// What a byte string decodes to as a DNS message, where it is one.
pub uninterp spec fn decoded_request(b: Seq<u8>) -> Option<RequestModel>;

/// The wire form of a response, where it can be encoded.
pub uninterp spec fn encoded_response(m: ResponseModel) -> Option<Seq<u8>>;

/// Relies on hickory's `Message::from_bytes`, read back through `id`,
/// `queries`, `Name::to_ascii` and the numeric forms of `RecordType` and
/// `DNSClass`; the outcome depends on the bytes alone. `Header::read` takes
/// the first twelve bytes, the id first, most significant byte first.
#[verifier::external_body]
pub(crate) fn decode_request(data: &[u8]) -> (r: Option<Request>)
    ensures
        match r {
            Some(req) => decoded_request(data@) == Some(req@),
            None => decoded_request(data@) is None,
        },
        data@.len() < 12 ==> r is None,
        r matches Some(req) ==> req.id == data@[0] as u16 * 256 + data@[1] as u16,
{
    let m = Message::from_bytes(data).ok()?;
    let mut questions = Vec::new();
    for q in m.queries() {
        let query_type = u16::from(q.query_type());
        let query_class = u16::from(q.query_class());
        questions.push(Question { name: q.name().to_ascii(), query_type, query_class });
    }
    Some(Request { id: m.id(), questions })
}

/// Relies on hickory's `Message::error_msg` (a message of type response with
/// the given id, operation and response code), `add_query`, `add_answer` and
/// `to_bytes`, with names read by `Name::from_ascii`; the outcome depends on
/// the response's values alone.
#[verifier::external_body]
pub(crate) fn encode_response(resp: &Response) -> (r: Option<Vec<u8>>)
    ensures
        match r {
            Some(b) => encoded_response(resp@) == Some(b@),
            None => encoded_response(resp@) is None,
        },
{
    let q = &resp.question;
    let mut query = Query::query(Name::from_ascii(&q.name).ok()?, RecordType::from(q.query_type));
    query.set_query_class(DNSClass::from(q.query_class));
    let [a, b, c, d] = resp.answer.address.to_be_bytes();
    let rdata = RData::A(A::new(a, b, c, d));
    let record = Record::from_rdata(Name::from_ascii(&resp.answer.name).ok()?, resp.answer.ttl, rdata);
    let op_code = OpCode::from_u8(resp.op_code).ok()?;
    let mut m = Message::error_msg(resp.id, op_code, <ResponseCode as From<u16>>::from(resp.response_code));
    m.add_query(query).add_answer(record);
    m.to_bytes().ok()
}

} // verus!
