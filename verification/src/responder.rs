//! The responder: from a query datagram and the cache to the reply
//! datagram.

use crate::cache::{lookup, Address, NameCache};
use crate::message::{records_view, AddressRecord, AddressRecordView, Query, QueryView};
use crate::message::{Question, QuestionView, Reply, ReplyView};
use crate::message::{ANSWER_TTL, RTYPE_ADDRESS};
use crate::wire::{encode_reply, lacks_question, parse_query, query_of, reply_octets, HEADER_LEN};
use vstd::prelude::*;

verus! {

/// The answer section for a question, given what the cache holds for
/// its name: one address record where an IPv4 address is cached and the
/// question asks for address records, nothing in every other case.
pub open spec fn answers_for(question: QuestionView, cached: Option<Address>) -> Seq<
    AddressRecordView,
> {
    match cached {
        Some(Address::V4(octets)) => if question.rtype == RTYPE_ADDRESS {
            seq![AddressRecordView { name: question.name, ttl: ANSWER_TTL, address: octets@ }]
        } else {
            Seq::empty()
        },
        _ => Seq::empty(),
    }
}

/// The reply to a query: the query's identifier, the response flag set,
/// the query's question, and the answers for it.
pub open spec fn reply_for(query: QueryView, cached: Option<Address>) -> ReplyView {
    ReplyView {
        id: query.id,
        response: true,
        question: query.question,
        answers: answers_for(query.question, cached),
    }
}

/// The reply datagram for a query datagram and a table of names: none
/// where the datagram holds no query, else the octets of the reply to
/// that query with what the table holds for the queried name.
pub open spec fn response_to(table: Map<Seq<char>, Address>, datagram: Seq<u8>) -> Option<
    Seq<u8>,
> {
    match query_of(datagram) {
        Some(query) => reply_octets(reply_for(query, lookup(table, query.question.name.text))),
        None => None,
    }
}

/// Decides the answer section for a question.
pub fn answer_records(question: &Question, cached: Option<Address>) -> (answers: Vec<
    AddressRecord,
>)
    ensures
        records_view(answers@) == answers_for(question@, cached),
{
    let mut answers: Vec<AddressRecord> = Vec::new();
    match cached {
        Some(Address::V4(octets)) => {
            if question.rtype == RTYPE_ADDRESS {
                answers.push(
                    AddressRecord { name: question.name.duplicate(), ttl: ANSWER_TTL, address: octets },
                );
            }
        },
        _ => {},
    }
    assert(records_view(answers@) =~= answers_for(question@, cached));
    answers
}

/// Builds the reply to a query from what the cache holds for the
/// queried name.
pub fn build_reply(query: Query, cached: Option<Address>) -> (reply: Reply)
    ensures
        reply@ == reply_for(query@, cached),
{
    let answers = answer_records(&query.question, cached);
    let reply = Reply { id: query.id, response: true, question: query.question, answers };
    reply
}

/// Answers one datagram. A datagram that holds no query gets no reply;
/// one that is shorter than a message header or announces no question
/// never holds one. Every other datagram gets the reply to its first
/// question, with the address that the cache holds for the queried
/// name. A reply starts with the identifier of the datagram, and of the
/// flags in its third octet the response flag alone is set. The cache
/// is left as it was.
pub fn respond(cache: &NameCache, datagram: &[u8]) -> (out: Option<Vec<u8>>)
    ensures
        (match out {
            Some(octets) => Some(octets@),
            None => None,
        }) == response_to(cache@, datagram@),
        lacks_question(datagram@) ==> out is None,
        out matches Some(octets) ==> {
            &&& octets@.len() >= HEADER_LEN
            &&& octets@[0] == datagram@[0]
            &&& octets@[1] == datagram@[1]
            &&& octets@[2] == 0x80u8
        },
{
    match parse_query(datagram) {
        Some(query) => {
            let cached = cache.get(query.question.name.text.as_str());
            let reply = build_reply(query, cached);
            encode_reply(&reply)
        },
        None => None,
    }
}

/// After an IPv4 address was set for a name, a datagram that holds a
/// query for address records of that name gets the octets of this
/// reply: the query's identifier, the response flag, the query's
/// question, and exactly one answer, made of the queried name, the
/// fixed time to live and the address that was set.
pub proof fn lemma_set_then_query(
    table: Map<Seq<char>, Address>,
    name: Seq<char>,
    octets: [u8; 4],
    datagram: Seq<u8>,
    query: QueryView,
)
    requires
        query_of(datagram) == Some(query),
        query.question.name.text == name,
        query.question.rtype == RTYPE_ADDRESS,
    ensures
        response_to(table.insert(name, Address::V4(octets)), datagram) == reply_octets(
            ReplyView {
                id: query.id,
                response: true,
                question: query.question,
                answers: seq![
                    AddressRecordView { name: query.question.name, ttl: 300, address: octets@ },
                ],
            },
        ),
{
}

/// A datagram that holds a query for a name that the table does not
/// hold gets the octets of a reply with the query's identifier, the
/// response flag, the query's question and no answer.
pub proof fn lemma_absent_name_no_answer(
    table: Map<Seq<char>, Address>,
    datagram: Seq<u8>,
    query: QueryView,
)
    requires
        query_of(datagram) == Some(query),
        !table.contains_key(query.question.name.text),
    ensures
        response_to(table, datagram) == reply_octets(
            ReplyView {
                id: query.id,
                response: true,
                question: query.question,
                answers: Seq::empty(),
            },
        ),
{
}

/// A datagram that holds a query for any other record type gets the
/// octets of a reply without an answer, whatever the table holds for
/// the name.
pub proof fn lemma_other_type_no_answer(
    table: Map<Seq<char>, Address>,
    datagram: Seq<u8>,
    query: QueryView,
)
    requires
        query_of(datagram) == Some(query),
        query.question.rtype != RTYPE_ADDRESS,
    ensures
        response_to(table, datagram) == reply_octets(
            ReplyView {
                id: query.id,
                response: true,
                question: query.question,
                answers: Seq::empty(),
            },
        ),
{
}

/// A name for which the table holds an address that is no IPv4 address
/// gets no answer either.
pub proof fn lemma_other_family_no_answer(question: QuestionView, octets: [u8; 16])
    ensures
        answers_for(question, Some(Address::V6(octets))) == Seq::<AddressRecordView>::empty(),
{
}

} // verus!
