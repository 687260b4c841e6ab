//! Requests, responses and the peer identity that is attached to both.
use vstd::prelude::*;

verus! {

/// Identity of a node of the mesh.
#[derive(Clone, Copy, Debug, PartialEq, Eq, Structural)]
pub struct NodeId {
    pub id: u64,
}

/// What travels beside a message body without being part of it. It has one
/// slot for a peer identity; an insertion replaces what the slot held.
#[derive(Clone, Copy, Debug, PartialEq, Eq, Structural)]
pub struct Metadata {
    pub peer_id: Option<NodeId>,
}

impl Metadata {
    /// Metadata with nothing in it.
    pub fn new() -> (r: Metadata)
        ensures
            r.peer_id is None,
    {
        Metadata { peer_id: None }
    }

    /// Whether `peer_id` is in the metadata.
    pub open spec fn contains(self, peer_id: NodeId) -> bool {
        self.peer_id == Some(peer_id)
    }

    /// Puts a peer identity into the metadata and gives back the one that
    /// was there.
    pub fn insert(&mut self, peer_id: NodeId) -> (previous: Option<NodeId>)
        ensures
            previous == old(self).peer_id,
            final(self).contains(peer_id),
    {
        let previous = self.peer_id;
        self.peer_id = Some(peer_id);
        previous
    }
}

/// Mathematical value of a [`Request`] or a [`Response`].
pub struct MessageView {
    pub body: Seq<u8>,
    pub metadata: Metadata,
}

/// A request: an opaque body, from which the receiver learns the route, and
/// metadata.
#[derive(Clone, Debug, PartialEq, Eq)]
pub struct Request {
    pub body: Vec<u8>,
    pub metadata: Metadata,
}

impl View for Request {
    type V = MessageView;

    open spec fn view(&self) -> MessageView {
        MessageView { body: self.body@, metadata: self.metadata }
    }
}

impl Request {
    /// A request with the given body and empty metadata.
    pub fn new(body: Vec<u8>) -> (r: Request)
        ensures
            r@.body == body@,
            r@.metadata.peer_id is None,
    {
        Request { body, metadata: Metadata { peer_id: None } }
    }
}

/// A response: an opaque body and metadata.
#[derive(Clone, Debug, PartialEq, Eq)]
pub struct Response {
    pub body: Vec<u8>,
    pub metadata: Metadata,
}

impl View for Response {
    type V = MessageView;

    open spec fn view(&self) -> MessageView {
        MessageView { body: self.body@, metadata: self.metadata }
    }
}

impl Response {
    /// A response with the given body and empty metadata.
    pub fn new(body: Vec<u8>) -> (r: Response)
        ensures
            r@.body == body@,
            r@.metadata.peer_id is None,
    {
        Response { body, metadata: Metadata { peer_id: None } }
    }
}

} // verus!
