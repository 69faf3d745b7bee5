//! A host that follows a script: it answers each call with the next reply it
//! was given and keeps a record of what it was asked.

use vstd::prelude::*;
use vstd::slice::slice_to_vec;
use crate::mgp::{Entry, Host, Reply};
use crate::status::Status;

verus! {

/// A call as the scripted host saw it.
#[derive(Clone, Debug, PartialEq, Eq)]
pub struct Request {
    pub entry: Entry,
    pub text: Vec<u8>,
}

/// A stand-in for the host. Replies are handed out in the order in which they
/// were scripted, one per call, whatever the call; once the script has run
/// out every call is answered with `UnknownError`.
pub struct Scripted {
    replies: Vec<Reply>,
    served: usize,
    requests: Vec<Request>,
}

impl Scripted {
    /// The scripted replies, used or not.
    pub closed spec fn script(&self) -> Seq<Reply> {
        self.replies@
    }

    /// How many of the scripted replies have been handed out.
    pub closed spec fn spec_served(&self) -> nat {
        self.served as nat
    }

    /// The calls seen so far, oldest first.
    pub closed spec fn seen(&self) -> Seq<Request> {
        self.requests@
    }

    /// A host with the given script that has not been called yet.
    pub fn new(replies: Vec<Reply>) -> (host: Scripted)
        ensures
            host.script() == replies@,
            host.spec_served() == 0,
            host.seen() == Seq::<Request>::empty(),
    {
        Scripted { replies, served: 0, requests: Vec::new() }
    }

    /// Adds a reply to the end of the script.
    pub fn expect(&mut self, reply: Reply)
        ensures
            final(self).script() == old(self).script().push(reply),
            final(self).spec_served() == old(self).spec_served(),
            final(self).seen() == old(self).seen(),
    {
        self.replies.push(reply);
    }

    /// The number of calls made to this host.
    pub fn calls(&self) -> (n: usize)
        ensures
            n == self.seen().len(),
    {
        self.requests.len()
    }

    /// The calls made to this host, oldest first.
    pub fn requests(&self) -> (requests: &Vec<Request>)
        ensures
            requests@ == self.seen(),
    {
        &self.requests
    }

    /// How many scripted replies have been handed out.
    pub fn served(&self) -> (n: usize)
        ensures
            n == self.spec_served(),
    {
        self.served
    }

    /// Whether every scripted reply has been handed out.
    pub fn exhausted(&self) -> (b: bool)
        ensures
            b == (self.spec_served() >= self.script().len()),
    {
        self.served >= self.replies.len()
    }
}

impl Host for Scripted {
    fn invoke(&mut self, entry: Entry, text: &[u8]) -> (reply: Reply)
        ensures
            final(self).script() == old(self).script(),
            final(self).seen().len() == old(self).seen().len() + 1,
            final(self).seen().drop_last() == old(self).seen(),
            final(self).seen().last().entry == entry,
            final(self).seen().last().text@ == text@,
            old(self).spec_served() < old(self).script().len() ==> {
                &&& final(self).spec_served() == old(self).spec_served() + 1
                &&& reply.status == old(self).script()[old(self).spec_served() as int].status
                &&& reply.value == old(self).script()[old(self).spec_served() as int].value
                &&& reply.text@ == old(self).script()[old(self).spec_served() as int].text@
            },
            old(self).spec_served() >= old(self).script().len() ==> {
                &&& final(self).spec_served() == old(self).spec_served()
                &&& reply.status == Status::UnknownError
            },
    {
        let ghost before = self.requests@;
        self.requests.push(Request { entry, text: slice_to_vec(text) });
        assert(self.requests@.drop_last() =~= before);
        if self.served < self.replies.len() {
            let scripted = &self.replies[self.served];
            let reply = Reply {
                status: scripted.status,
                value: scripted.value,
                text: slice_to_vec(scripted.text.as_slice()),
            };
            self.served = self.served + 1;
            reply
        } else {
            Reply::failure(Status::UnknownError)
        }
    }
}

} // verus!
