//! The result of DNS resolution and validation of one query, held as plain
//! values.
//!
//! The engine hands results back through its own C structure; the surrounding
//! program copies that structure's fields into an [`Answer`] at the boundary,
//! and everything downstream — routing, delivery, inspection — works on this
//! type.

use vstd::prelude::*;

verus! {

/// The result of DNS resolution and validation of a query.
#[derive(Debug, Clone, PartialEq, Eq)]
pub struct Answer {
    /// The original question's name.
    pub qname: String,
    /// The original question's type.
    pub qtype: u16,
    /// The original question's class.
    pub qclass: u16,
    /// The answer record datas, in the order the engine returned them.
    pub data: Vec<Vec<u8>>,
    /// The canonical name of the result, if any.
    pub canonname: Option<String>,
    /// Additional error code in case of no data.
    pub rcode: u16,
    /// The answer packet, if any.
    pub answer_packet: Option<Vec<u8>>,
    /// True when there is data.
    pub havedata: bool,
    /// True when there is no data because the name does not exist.
    pub nxdomain: bool,
    /// True when the result is secure.
    pub secure: bool,
    /// True when a security failure happened.
    pub bogus: bool,
    /// The engine's explanation, present whenever the result is bogus.
    pub why_bogus: Option<String>,
    /// Number of seconds the result is valid.
    pub ttl: u32,
}

impl Answer {
    /// Returns the original question's name.
    pub fn qname(&self) -> (r: &str)
        ensures
            r@ == self.qname@,
    {
        self.qname.as_str()
    }

    /// Returns the original question's qtype.
    pub fn qtype(&self) -> (r: u16)
        ensures
            r == self.qtype,
    {
        self.qtype
    }

    /// Returns the original question's qclass.
    pub fn qclass(&self) -> (r: u16)
        ensures
            r == self.qclass,
    {
        self.qclass
    }

    /// Returns an iterator over answer record datas.
    pub fn data(&self) -> (r: DataIter<'_>)
        ensures
            r.spec_pos() == 0,
            r.spec_answer() == *self,
    {
        DataIter { index: 0, answer: self }
    }

    /// Returns the canonical name of the result, if any.
    pub fn canonname(&self) -> (r: Option<&str>)
        ensures
            r is Some <==> self.canonname is Some,
            r is Some ==> r->Some_0@ == self.canonname->Some_0@,
    {
        match &self.canonname {
            Some(s) => Some(s.as_str()),
            None => None,
        }
    }

    /// Returns the additional error code in case of no data.
    pub fn rcode(&self) -> (r: u16)
        ensures
            r == self.rcode,
    {
        self.rcode
    }

    /// Returns the answer packet, if any.
    pub fn answer(&self) -> (r: Option<&[u8]>)
        ensures
            r is Some <==> self.answer_packet is Some,
            r is Some ==> r->Some_0@ == self.answer_packet->Some_0@,
    {
        match &self.answer_packet {
            Some(p) => Some(p.as_slice()),
            None => None,
        }
    }

    /// Returns true when there is data.
    pub fn havedata(&self) -> (r: bool)
        ensures
            r == self.havedata,
    {
        self.havedata
    }

    /// Returns true when there is no data because the name does not exist.
    pub fn nxdomain(&self) -> (r: bool)
        ensures
            r == self.nxdomain,
    {
        self.nxdomain
    }

    /// True when the result is secure.
    pub fn secure(&self) -> (r: bool)
        ensures
            r == self.secure,
    {
        self.secure
    }

    /// True when a security failure happened.
    pub fn bogus(&self) -> (r: bool)
        ensures
            r == self.bogus,
    {
        self.bogus
    }

    /// The engine's explanation when the response is bogus, and `None` for a
    /// response that is not bogus. The engine supplies an explanation with
    /// every bogus result, so one must be present then.
    pub fn why_bogus(&self) -> (r: Option<&str>)
        requires
            self.bogus ==> self.why_bogus is Some,
        ensures
            r is Some <==> self.bogus,
            r is Some ==> r->Some_0@ == self.why_bogus->Some_0@,
    {
        if self.bogus {
            match &self.why_bogus {
                Some(s) => Some(s.as_str()),
                None => None,
            }
        } else {
            None
        }
    }

    /// Number of seconds the result is valid.
    pub fn ttl(&self) -> (r: u32)
        ensures
            r == self.ttl,
    {
        self.ttl
    }
}

/// An iterator over the datas of an [`Answer`].
pub struct DataIter<'a> {
    index: usize,
    answer: &'a Answer,
}

impl<'a> DataIter<'a> {
    /// How many datas have been handed out so far.
    pub closed spec fn spec_pos(self) -> int {
        self.index as int
    }

    /// The answer whose datas are walked.
    pub closed spec fn spec_answer(self) -> Answer {
        *self.answer
    }

    /// Returns the next answer record data, or `None` once all datas have
    /// been handed out, after which the iterator stays exhausted.
    pub fn next(&mut self) -> (r: Option<&'a [u8]>)
        ensures
            final(self).spec_answer() == old(self).spec_answer(),
            old(self).spec_pos() < old(self).spec_answer().data@.len() ==> {
                &&& r is Some
                &&& r->Some_0@ == old(self).spec_answer().data@[old(self).spec_pos()]@
                &&& final(self).spec_pos() == old(self).spec_pos() + 1
            },
            old(self).spec_pos() >= old(self).spec_answer().data@.len() ==> {
                &&& r is None
                &&& final(self).spec_pos() == old(self).spec_pos()
            },
    {
        if self.index < self.answer.data.len() {
            let item = self.answer.data[self.index].as_slice();
            self.index = self.index + 1;
            Some(item)
        } else {
            None
        }
    }
}

} // verus!
