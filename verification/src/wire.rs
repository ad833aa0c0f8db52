//! Messages on the wire. The `domain` crate reads and writes them; this
//! module states what the responder relies on and drives the builder.

use crate::message::{AddressRecordView, Name, NameView};
use crate::message::{Query, QueryView, Question, QuestionView, Reply, ReplyView};
use domain::base::iana::{Class, Rtype};
use domain::base::message_builder::{AnswerBuilder, QuestionBuilder};
use domain::base::name::{Dname, ToDname};
use domain::base::{Message, MessageBuilder};
use domain::rdata::A;
use vstd::prelude::*;
use vstd::string::StringExecFns;

verus! {

/// The length of a message header in octets.
pub const HEADER_LEN: usize = 12;

/// `QuestionBuilder` of `domain`: a message under construction whose
/// question section is open. Nothing is known of it but through the
/// functions below.
#[verifier::external_type_specification]
#[verifier::external_body]
#[verifier::reject_recursive_types(Target)]
pub struct ExQuestionBuilder<Target>(domain::base::message_builder::QuestionBuilder<Target>);

/// `AnswerBuilder` of `domain`: a message under construction whose
/// answer section is open. Nothing is known of it but through the
/// functions below.
#[verifier::external_type_specification]
#[verifier::external_body]
#[verifier::reject_recursive_types(Target)]
pub struct ExAnswerBuilder<Target>(domain::base::message_builder::AnswerBuilder<Target>);

/// What `domain` reads from a datagram: the identifier of the header
/// and, of the first question, the name as `domain` displays it, the
/// name as uncompressed octets, the record type and the class. `None`
/// where the datagram is shorter than a header, holds no question, or
/// its first question cannot be read.
pub uninterp spec fn wire_query(datagram: Seq<u8>) -> Option<(u16, Seq<char>, Seq<u8>, u16, u16)>;

/// The octets that a question builder of `domain` has written so far.
pub uninterp spec fn question_builder_octets(builder: QuestionBuilder<Vec<u8>>) -> Seq<u8>;

/// The octets that an answer builder of `domain` has written so far.
pub uninterp spec fn answer_builder_octets(builder: AnswerBuilder<Vec<u8>>) -> Seq<u8>;

/// The message `before` with one more question, as `domain` writes it.
/// `None` where it refuses the name or the question.
pub uninterp spec fn octets_with_question(
    before: Seq<u8>,
    name: Seq<u8>,
    rtype: u16,
    class: u16,
) -> Option<Seq<u8>>;

/// The message `before` with one more address record of the internet
/// class in its answer section, as `domain` writes it. `None` where it
/// refuses the name or the record.
pub uninterp spec fn octets_with_address(
    before: Seq<u8>,
    name: Seq<u8>,
    ttl: u32,
    address: Seq<u8>,
) -> Option<Seq<u8>>;

/// The number of questions that a header announces: its fifth and
/// sixth octets, high octet first.
pub open spec fn question_count(datagram: Seq<u8>) -> int {
    datagram[4] * 256 + datagram[5]
}

/// Whether a datagram is shorter than a header or announces no
/// question. Such a datagram holds no query.
pub open spec fn lacks_question(datagram: Seq<u8>) -> bool {
    datagram.len() < HEADER_LEN || question_count(datagram) == 0
}

/// Whether `after` is at least as long as `before` and starts with the
/// same identifier and flags: the first four octets.
pub open spec fn keeps_id_and_flags(before: Seq<u8>, after: Seq<u8>) -> bool {
    &&& after.len() >= before.len()
    &&& forall|i: int| 0 <= i < 4 && i < before.len() ==> after[i] == before[i]
}

/// A header with every field zero and no section after it.
pub open spec fn empty_message() -> Seq<u8> {
    Seq::new(HEADER_LEN as nat, |i: int| 0u8)
}

/// The message with its transaction identifier replaced: the first two
/// octets, high octet first.
pub open spec fn with_id(octets: Seq<u8>, id: u16) -> Seq<u8> {
    octets.update(0, (id / 256) as u8).update(1, (id % 256) as u8)
}

/// The message with its response flag replaced: the top bit of the
/// third octet.
pub open spec fn with_response_flag(octets: Seq<u8>, response: bool) -> Seq<u8> {
    octets.update(
        2,
        if response {
            octets[2] | 0x80u8
        } else {
            octets[2] & 0x7fu8
        },
    )
}

/// The query that a datagram holds, if it holds one. The text of the
/// queried name is its displayed form closed by a dot.
pub open spec fn query_of(datagram: Seq<u8>) -> Option<QueryView> {
    match wire_query(datagram) {
        Some((id, displayed, wire, rtype, class)) => Some(
            QueryView {
                id,
                question: QuestionView {
                    name: NameView { text: displayed + seq!['.'], wire },
                    rtype,
                    class,
                },
            },
        ),
        None => None,
    }
}

/// The message `before` followed by the answers from index `from` on.
/// `None` as soon as one of them is refused.
pub open spec fn with_answers(
    before: Seq<u8>,
    answers: Seq<AddressRecordView>,
    from: int,
) -> Option<Seq<u8>>
    decreases answers.len() - from,
{
    if from < 0 || from >= answers.len() {
        Some(before)
    } else {
        match octets_with_address(
            before,
            answers[from].name.wire,
            answers[from].ttl,
            answers[from].address,
        ) {
            Some(next) => with_answers(next, answers, from + 1),
            None => None,
        }
    }
}

/// The octets of a reply: a fresh header with the identifier and the
/// response flag, then the question, then the answers in order.
pub open spec fn reply_octets(reply: ReplyView) -> Option<Seq<u8>> {
    match octets_with_question(
        with_response_flag(with_id(empty_message(), reply.id), reply.response),
        reply.question.name.wire,
        reply.question.rtype,
        reply.question.class,
    ) {
        Some(questioned) => with_answers(questioned, reply.answers, 0),
        None => None,
    }
}

/// Calls `Message::from_octets`, `Message::first_question` and
/// `Header::id` of `domain`, and displays the first question's name.
/// The result is named by `wire_query`. A datagram shorter than a header
/// is refused, and so is one whose header counts no question. The
/// identifier of an accepted one is its first two octets, high octet
/// first.
#[verifier::external_body]
fn read_query(datagram: &[u8]) -> (out: Option<(u16, String, Vec<u8>, u16, u16)>)
    ensures
        wire_query(datagram@) == (match out {
            Some((id, text, wire, rtype, class)) => Some((id, text@, wire@, rtype, class)),
            None => None,
        }),
        lacks_question(datagram@) ==> out is None,
        out matches Some(parts) ==> parts.0 == datagram@[0] * 256 + datagram@[1],
{
    let message = Message::from_octets(datagram).ok()?;
    let first = message.first_question()?;
    let text = format!("{}", first.qname());
    let wire = first.qname().to_vec().into_octets();
    Some((message.header().id(), text, wire, first.qtype().to_int(), first.qclass().to_int()))
}

/// Reads a datagram as a query: the identifier of its header and its
/// first question. The name's text is its displayed form closed by a
/// dot. `None` where the datagram is shorter than a header, holds no
/// question, or its first question cannot be read.
pub fn parse_query(datagram: &[u8]) -> (out: Option<Query>)
    ensures
        (match out {
            Some(query) => Some(query@),
            None => None,
        }) == query_of(datagram@),
        lacks_question(datagram@) ==> out is None,
        out matches Some(query) ==> query.id == datagram@[0] * 256 + datagram@[1],
{
    match read_query(datagram) {
        Some((id, displayed, wire, rtype, class)) => {
            proof {
                reveal_strlit(".");
                assert("."@ =~= seq!['.']);
            }
            let name = Name { text: displayed.concat("."), wire };
            Some(Query { id, question: Question { name, rtype, class } })
        },
        None => None,
    }
}

/// Calls `MessageBuilder::new_vec` and `MessageBuilder::question` of
/// `domain`: a builder that holds a header of twelve zero octets.
#[verifier::external_body]
fn start_message() -> (builder: QuestionBuilder<Vec<u8>>)
    ensures
        question_builder_octets(builder) == empty_message(),
{
    MessageBuilder::new_vec().question()
}

/// Calls `Header::set_id` of `domain` on the builder's header: the
/// first two octets become the identifier, the rest stays.
#[verifier::external_body]
fn set_id(builder: &mut QuestionBuilder<Vec<u8>>, id: u16)
    ensures
        question_builder_octets(*final(builder)) == with_id(
            question_builder_octets(*old(builder)),
            id,
        ),
{
    builder.header_mut().set_id(id);
}

/// Calls `Header::set_qr` of `domain` on the builder's header: the top
/// bit of the third octet becomes the flag, the rest stays.
#[verifier::external_body]
fn set_response_flag(builder: &mut QuestionBuilder<Vec<u8>>, response: bool)
    ensures
        question_builder_octets(*final(builder)) == with_response_flag(
            question_builder_octets(*old(builder)),
            response,
        ),
{
    builder.header_mut().set_qr(response);
}

/// Calls `Dname::from_octets` and `QuestionBuilder::push` of `domain`.
/// Whether the question was taken, and what the builder holds after it
/// was, is named by `octets_with_question`. A question that is taken
/// is written behind what was there, and only the header's counts
/// change.
#[verifier::external_body]
fn push_question(
    builder: &mut QuestionBuilder<Vec<u8>>,
    name: &Vec<u8>,
    rtype: u16,
    class: u16,
) -> (taken: bool)
    ensures
        taken == octets_with_question(
            question_builder_octets(*old(builder)),
            name@,
            rtype,
            class,
        ).is_some(),
        taken ==> Some(question_builder_octets(*final(builder))) == octets_with_question(
            question_builder_octets(*old(builder)),
            name@,
            rtype,
            class,
        ),
        taken ==> keeps_id_and_flags(
            question_builder_octets(*old(builder)),
            question_builder_octets(*final(builder)),
        ),
{
    match Dname::from_octets(name.as_slice()) {
        Ok(owner) => builder.push((owner, Rtype::from_int(rtype), Class::from_int(class))).is_ok(),
        Err(_) => false,
    }
}

/// Calls `QuestionBuilder::answer` of `domain`: the answer builder
/// holds what the question builder held.
#[verifier::external_body]
fn start_answers(builder: QuestionBuilder<Vec<u8>>) -> (answers: AnswerBuilder<Vec<u8>>)
    ensures
        answer_builder_octets(answers) == question_builder_octets(builder),
{
    builder.answer()
}

/// Calls `Dname::from_octets`, `A::from_octets` and
/// `AnswerBuilder::push` of `domain`. Whether the record was taken, and
/// what the builder holds after it was, is named by
/// `octets_with_address`. A record that is taken is written behind what
/// was there, and only the header's counts change.
#[verifier::external_body]
fn push_address(
    builder: &mut AnswerBuilder<Vec<u8>>,
    name: &Vec<u8>,
    ttl: u32,
    address: &[u8; 4],
) -> (taken: bool)
    ensures
        taken == octets_with_address(
            answer_builder_octets(*old(builder)),
            name@,
            ttl,
            address@,
        ).is_some(),
        taken ==> Some(answer_builder_octets(*final(builder))) == octets_with_address(
            answer_builder_octets(*old(builder)),
            name@,
            ttl,
            address@,
        ),
        taken ==> keeps_id_and_flags(
            answer_builder_octets(*old(builder)),
            answer_builder_octets(*final(builder)),
        ),
{
    let data = A::from_octets(address[0], address[1], address[2], address[3]);
    match Dname::from_octets(name.as_slice()) {
        Ok(owner) => builder.push((owner, ttl, data)).is_ok(),
        Err(_) => false,
    }
}

/// Calls `AnswerBuilder::finish` of `domain`: the octets written.
#[verifier::external_body]
fn finish_message(builder: AnswerBuilder<Vec<u8>>) -> (octets: Vec<u8>)
    ensures
        octets@ == answer_builder_octets(builder),
{
    builder.finish()
}

/// The answers in a reply's view are the views of its answers.
proof fn lemma_answer_view(reply: &Reply, i: int)
    requires
        0 <= i < reply.answers@.len(),
    ensures
        reply@.answers.len() == reply.answers@.len(),
        reply@.answers[i] == reply.answers@[i]@,
{
}

/// The first three octets of a message with the given identifier and
/// response flag and every other flag of the third octet clear.
pub open spec fn starts_with_id_and_flag(octets: Seq<u8>, id: u16, response: bool) -> bool {
    &&& octets.len() >= HEADER_LEN
    &&& octets[0] == id / 256
    &&& octets[1] == id % 256
    &&& octets[2] == (if response {
        0x80u8
    } else {
        0u8
    })
}

/// Writes a reply as a message: the header with the reply's identifier
/// and response flag, its question, and its answers in order. `None`
/// where a name in it is no valid wire name or the message cannot take
/// another entry.
pub fn encode_reply(reply: &Reply) -> (out: Option<Vec<u8>>)
    ensures
        (match out {
            Some(octets) => Some(octets@),
            None => None,
        }) == reply_octets(reply@),
        out matches Some(octets) ==> starts_with_id_and_flag(octets@, reply.id, reply.response),
{
    let mut questions = start_message();
    set_id(&mut questions, reply.id);
    set_response_flag(&mut questions, reply.response);
    proof {
        assert(0u8 | 0x80u8 == 0x80u8) by (bit_vector);
        assert(0u8 & 0x7fu8 == 0u8) by (bit_vector);
        assert(starts_with_id_and_flag(
            question_builder_octets(questions),
            reply.id,
            reply.response,
        ));
    }
    let taken = push_question(
        &mut questions,
        &reply.question.name.wire,
        reply.question.rtype,
        reply.question.class,
    );
    if !taken {
        return None;
    }
    let mut answers = start_answers(questions);
    let mut i: usize = 0;
    while i < reply.answers.len()
        invariant
            0 <= i <= reply.answers@.len(),
            with_answers(answer_builder_octets(answers), reply@.answers, i as int) == reply_octets(
                reply@,
            ),
            starts_with_id_and_flag(answer_builder_octets(answers), reply.id, reply.response),
        decreases reply.answers@.len() - i,
    {
        proof {
            lemma_answer_view(reply, i as int);
        }
        let record = &reply.answers[i];
        let taken = push_address(&mut answers, &record.name.wire, record.ttl, &record.address);
        if !taken {
            return None;
        }
        i = i + 1;
    }
    Some(finish_message(answers))
}

} // verus!
