use vstd::prelude::*;

verus! {

/// A stream that both sends and receives.
#[derive(Debug)]
pub struct BidirectionalStream {
    id: u64,
}

/// A stream that only receives.
#[derive(Debug)]
pub struct ReceiveStream {
    id: u64,
}

/// A stream that only sends.
#[derive(Debug)]
pub struct SendStream {
    id: u64,
}

impl BidirectionalStream {
    pub closed spec fn id_spec(&self) -> u64 {
        self.id
    }

    pub fn new(id: u64) -> (r: Self)
        ensures
            r.id_spec() == id,
    {
        BidirectionalStream { id }
    }

    pub fn id(&self) -> (r: u64)
        ensures
            r == self.id_spec(),
    {
        self.id
    }
}

impl ReceiveStream {
    pub closed spec fn id_spec(&self) -> u64 {
        self.id
    }

    pub fn new(id: u64) -> (r: Self)
        ensures
            r.id_spec() == id,
    {
        ReceiveStream { id }
    }

    pub fn id(&self) -> (r: u64)
        ensures
            r == self.id_spec(),
    {
        self.id
    }
}

impl SendStream {
    pub closed spec fn id_spec(&self) -> u64 {
        self.id
    }

    pub fn new(id: u64) -> (r: Self)
        ensures
            r.id_spec() == id,
    {
        SendStream { id }
    }

    pub fn id(&self) -> (r: u64)
        ensures
            r == self.id_spec(),
    {
        self.id
    }
}

/// Any of the kinds of stream.
#[derive(Debug)]
pub enum Stream {
    Bidirectional(BidirectionalStream),
    Receive(ReceiveStream),
    Send(SendStream),
}

impl Stream {
    /// The identifier of the stream, whatever its kind.
    pub open spec fn id_spec(&self) -> u64 {
        match self {
            Stream::Bidirectional(s) => s.id_spec(),
            Stream::Receive(s) => s.id_spec(),
            Stream::Send(s) => s.id_spec(),
        }
    }

    pub fn id(&self) -> (r: u64)
        ensures
            r == self.id_spec(),
    {
        match self {
            Stream::Bidirectional(stream) => stream.id(),
            Stream::Receive(stream) => stream.id(),
            Stream::Send(stream) => stream.id(),
        }
    }
}

impl From<ReceiveStream> for Stream {
    fn from(stream: ReceiveStream) -> (r: Self) {
        Stream::Receive(stream)
    }
}

impl vstd::std_specs::convert::FromSpecImpl<ReceiveStream> for Stream {
    open spec fn obeys_from_spec() -> bool {
        true
    }

    open spec fn from_spec(stream: ReceiveStream) -> Self {
        Stream::Receive(stream)
    }
}

impl From<SendStream> for Stream {
    fn from(stream: SendStream) -> (r: Self) {
        Stream::Send(stream)
    }
}

impl vstd::std_specs::convert::FromSpecImpl<SendStream> for Stream {
    open spec fn obeys_from_spec() -> bool {
        true
    }

    open spec fn from_spec(stream: SendStream) -> Self {
        Stream::Send(stream)
    }
}

impl From<BidirectionalStream> for Stream {
    fn from(stream: BidirectionalStream) -> (r: Self) {
        Stream::Bidirectional(stream)
    }
}

impl vstd::std_specs::convert::FromSpecImpl<BidirectionalStream> for Stream {
    open spec fn obeys_from_spec() -> bool {
        true
    }

    open spec fn from_spec(stream: BidirectionalStream) -> Self {
        Stream::Bidirectional(stream)
    }
}

} // verus!
