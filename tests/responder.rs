use std::cell::Cell;

use fake_dns::error::DnsError;
use fake_dns::message::{Question, Request};
use fake_dns::pool::Ipv4;
use fake_dns::responder::{build_response, query, ANSWER_TTL, NO_ERROR, OP_QUERY};
use hickory_resolver::proto::op::{Message, MessageType, OpCode, Query, ResponseCode};
use hickory_resolver::proto::rr::{DNSClass, Name, RData, RecordType};
use hickory_resolver::proto::serialize::binary::{BinDecodable, BinEncodable};

fn request_bytes(id: u16, questions: &[(&str, RecordType)]) -> Vec<u8> {
    let mut m = Message::new();
    m.set_id(id);
    m.set_message_type(MessageType::Query);
    m.set_op_code(OpCode::Query);
    m.set_recursion_desired(true);
    for (name, rtype) in questions {
        m.add_query(Query::query(Name::from_ascii(name).unwrap(), *rtype));
    }
    m.to_bytes().unwrap()
}

fn answer_address(m: &Message) -> u32 {
    match m.answers()[0].data() {
        Some(RData::A(a)) => u32::from(a.0),
        other => panic!("not an A record: {:?}", other),
    }
}

#[test]
fn end_to_end_example() {
    let pool = Ipv4::from_cidr("192.167.0.0/16").unwrap();
    assert_eq!(pool.range(), 65536);
    let req = request_bytes(0x1234, &[("example.com.", RecordType::A)]);
    let resp = query(&req, || pool.get_ip()).unwrap();
    let m = Message::from_bytes(&resp).unwrap();
    assert_eq!(m.id(), 0x1234);
    assert_eq!(m.message_type(), MessageType::Response);
    assert_eq!(m.op_code(), OpCode::Query);
    assert_eq!(m.response_code(), ResponseCode::NoError);
    assert_eq!(m.queries().len(), 1);
    assert_eq!(m.queries()[0].name().to_ascii(), "example.com.");
    assert_eq!(m.answers().len(), 1);
    let record = &m.answers()[0];
    assert_eq!(record.name().to_ascii(), "example.com.");
    assert_eq!(record.ttl(), 600);
    assert_eq!(record.record_type(), RecordType::A);
    let ip = answer_address(&m);
    assert!(ip >= 0xC0A7_0001);
    assert!(ip <= 0xC0A7_FFFE);
}

#[test]
fn answer_carries_supplied_address() {
    let req = request_bytes(7, &[("host.test.", RecordType::A)]);
    let resp = query(&req, || 0x0102_0304).unwrap();
    let m = Message::from_bytes(&resp).unwrap();
    assert_eq!(m.id(), 7);
    assert_eq!(answer_address(&m), 0x0102_0304);
    assert_eq!(m.queries()[0].query_type(), RecordType::A);
    assert_eq!(m.queries()[0].query_class(), DNSClass::IN);
}

#[test]
fn only_first_question_is_answered() {
    let req = request_bytes(
        99,
        &[("first.example.", RecordType::A), ("second.example.", RecordType::A)],
    );
    let resp = query(&req, || 0x0A00_0001).unwrap();
    let m = Message::from_bytes(&resp).unwrap();
    assert_eq!(m.queries().len(), 1);
    assert_eq!(m.queries()[0].name().to_ascii(), "first.example.");
    assert_eq!(m.answers().len(), 1);
    assert_eq!(m.answers()[0].name().to_ascii(), "first.example.");
}

#[test]
fn other_record_types_get_an_a_answer() {
    let req = request_bytes(5, &[("mail.example.", RecordType::MX)]);
    let resp = query(&req, || 0x0A00_0002).unwrap();
    let m = Message::from_bytes(&resp).unwrap();
    assert_eq!(m.queries()[0].query_type(), RecordType::MX);
    assert_eq!(m.answers()[0].record_type(), RecordType::A);
    assert_eq!(answer_address(&m), 0x0A00_0002);
}

#[test]
fn no_question_is_refused() {
    let calls = Cell::new(0);
    let req = request_bytes(1, &[]);
    let r = query(&req, || {
        calls.set(calls.get() + 1);
        0
    });
    assert_eq!(r, Err(DnsError::NoQuestion));
    assert_eq!(calls.get(), 0);
}

#[test]
fn empty_request_is_malformed() {
    assert_eq!(query(&[], || 0), Err(DnsError::MalformedRequest));
}

#[test]
fn truncated_request_is_malformed() {
    let req = request_bytes(3, &[("example.com.", RecordType::A)]);
    assert_eq!(query(&req[..5], || 0), Err(DnsError::MalformedRequest));
    assert_eq!(query(&req[..req.len() - 2], || 0), Err(DnsError::MalformedRequest));
}

#[test]
fn build_response_exact_values() {
    let request = Request {
        id: 0xBEEF,
        questions: vec![Question { name: "a.b.".to_string(), query_type: 1, query_class: 1 }],
    };
    let resp = build_response(&request, 0xC0A8_0101).unwrap();
    assert_eq!(resp.id, 0xBEEF);
    assert_eq!(resp.op_code, OP_QUERY);
    assert_eq!(resp.response_code, NO_ERROR);
    assert_eq!(resp.question.name, "a.b.");
    assert_eq!(resp.question.query_type, 1);
    assert_eq!(resp.question.query_class, 1);
    assert_eq!(resp.answer.name, "a.b.");
    assert_eq!(resp.answer.ttl, ANSWER_TTL);
    assert_eq!(ANSWER_TTL, 600);
    assert_eq!(resp.answer.address, 0xC0A8_0101);
}

#[test]
fn build_response_without_question() {
    let request = Request { id: 1, questions: vec![] };
    assert!(matches!(build_response(&request, 1), Err(DnsError::NoQuestion)));
}
