//! The parts of a query and of a reply, as plain values.

use vstd::prelude::*;

verus! {

/// The record type of an address record.
pub const RTYPE_ADDRESS: u16 = 1;

/// The class of the internet.
pub const CLASS_INTERNET: u16 = 1;

/// The time to live of every answer, in seconds.
pub const ANSWER_TTL: u32 = 300;

/// A domain name in its two forms. The responder looks a name up by
/// its text and writes it into a reply by its octets; a query that was
/// read from a datagram holds both forms of one name.
#[derive(Debug, PartialEq, Eq)]
pub struct Name {
    /// The name as text: its labels, each followed by a dot.
    pub text: String,
    /// The name as it stands in a message, without compression.
    pub wire: Vec<u8>,
}

/// A name as a pair of sequences.
pub struct NameView {
    pub text: Seq<char>,
    pub wire: Seq<u8>,
}

impl View for Name {
    type V = NameView;

    open spec fn view(&self) -> NameView {
        NameView { text: self.text@, wire: self.wire@ }
    }
}

impl Name {
    /// A second copy of the name.
    pub fn duplicate(&self) -> (copy: Name)
        ensures
            copy@ == self@,
    {
        Name { text: self.text.clone(), wire: self.wire.clone() }
    }
}

/// One entry of a question section.
#[derive(Debug, PartialEq, Eq)]
pub struct Question {
    pub name: Name,
    pub rtype: u16,
    pub class: u16,
}

/// A question over the view of its name.
pub struct QuestionView {
    pub name: NameView,
    pub rtype: u16,
    pub class: u16,
}

impl View for Question {
    type V = QuestionView;

    open spec fn view(&self) -> QuestionView {
        QuestionView { name: self.name@, rtype: self.rtype, class: self.class }
    }
}

/// What the responder reads of a query: its transaction identifier and
/// its first question.
#[derive(Debug, PartialEq, Eq)]
pub struct Query {
    pub id: u16,
    pub question: Question,
}

/// A query over the view of its question.
pub struct QueryView {
    pub id: u16,
    pub question: QuestionView,
}

impl View for Query {
    type V = QueryView;

    open spec fn view(&self) -> QueryView {
        QueryView { id: self.id, question: self.question@ }
    }
}

/// An address record of the internet class.
#[derive(Debug, PartialEq, Eq)]
pub struct AddressRecord {
    pub name: Name,
    pub ttl: u32,
    pub address: [u8; 4],
}

/// An address record over the view of its name, with the address as a
/// sequence of four octets.
pub struct AddressRecordView {
    pub name: NameView,
    pub ttl: u32,
    pub address: Seq<u8>,
}

impl View for AddressRecord {
    type V = AddressRecordView;

    open spec fn view(&self) -> AddressRecordView {
        AddressRecordView { name: self.name@, ttl: self.ttl, address: self.address@ }
    }
}

/// The views of a sequence of address records, in order.
pub open spec fn records_view(records: Seq<AddressRecord>) -> Seq<AddressRecordView> {
    Seq::new(records.len(), |i: int| records[i]@)
}

/// A reply: the header fields that the responder sets, the question it
/// echoes and its answers.
#[derive(Debug, PartialEq, Eq)]
pub struct Reply {
    pub id: u16,
    pub response: bool,
    pub question: Question,
    pub answers: Vec<AddressRecord>,
}

/// A reply over the views of its question and of its answers.
pub struct ReplyView {
    pub id: u16,
    pub response: bool,
    pub question: QuestionView,
    pub answers: Seq<AddressRecordView>,
}

impl View for Reply {
    type V = ReplyView;

    open spec fn view(&self) -> ReplyView {
        ReplyView {
            id: self.id,
            response: self.response,
            question: self.question@,
            answers: records_view(self.answers@),
        }
    }
}

} // verus!
