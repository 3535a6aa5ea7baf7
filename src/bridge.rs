//! Buffered body bridge: drains a chunked response body into one byte buffer,
//! so that a host that cannot stream still gets the whole body at once.
use vstd::prelude::*;

verus! {

/// Status sent when the response body could not be drained.
pub const INTERNAL_ERROR_STATUS: u16 = 500;

/// One step of a response body stream: bytes, or a failure of the producer.
pub enum BodyChunk {
    Data(Vec<u8>),
    Fault,
}

impl BodyChunk {
    pub open spec fn is_data(&self) -> bool {
        self is Data
    }

    pub open spec fn bytes(&self) -> Seq<u8> {
        match self {
            BodyChunk::Data(b) => b@,
            BodyChunk::Fault => Seq::empty(),
        }
    }
}

/// The body stream failed before it ended.
#[derive(PartialEq, Eq, Structural, Debug, Clone, Copy)]
pub enum TransportFault {
    BrokenChunk,
}

/// A fully buffered HTTP response, as the serverless host takes it.
pub struct BufferedResponse {
    pub status: u16,
    pub body: Vec<u8>,
}

/// The bytes of the first `n` chunks, in order.
pub open spec fn concat_prefix(chunks: Seq<BodyChunk>, n: int) -> Seq<u8>
    decreases n,
{
    if n <= 0 {
        Seq::empty()
    } else {
        concat_prefix(chunks, n - 1) + chunks[n - 1].bytes()
    }
}

/// The bytes of all chunks, in order.
pub open spec fn concat_all(chunks: Seq<BodyChunk>) -> Seq<u8> {
    concat_prefix(chunks, chunks.len() as int)
}

/// Sum of the chunk lengths of the first `n` chunks.
pub open spec fn total_len_prefix(chunks: Seq<BodyChunk>, n: int) -> nat
    decreases n,
{
    if n <= 0 {
        0
    } else {
        total_len_prefix(chunks, n - 1) + chunks[n - 1].bytes().len()
    }
}

pub open spec fn total_len(chunks: Seq<BodyChunk>) -> nat {
    total_len_prefix(chunks, chunks.len() as int)
}

/// Every chunk of the stream carries data.
pub open spec fn no_fault(chunks: Seq<BodyChunk>) -> bool {
    forall|i: int| 0 <= i < chunks.len() ==> #[trigger] chunks[i].is_data()
}

/// The bytes of a prefix are as many as its chunk lengths add up to.
pub proof fn lemma_prefix_len(chunks: Seq<BodyChunk>, n: int)
    requires
        0 <= n <= chunks.len(),
    ensures
        concat_prefix(chunks, n).len() == total_len_prefix(chunks, n),
    decreases n,
{
    if n > 0 {
        lemma_prefix_len(chunks, n - 1);
    }
}

/// Drains the whole stream. Succeeds exactly when no chunk is a fault, and
/// then holds every byte of every chunk, in stream order.
pub fn drain_body(chunks: &Vec<BodyChunk>) -> (r: Result<Vec<u8>, TransportFault>)
    ensures
        r is Ok <==> no_fault(chunks@),
        r matches Ok(b) ==> b@ == concat_all(chunks@),
        r matches Err(e) ==> e == TransportFault::BrokenChunk,
{
    let mut out: Vec<u8> = Vec::new();
    let mut i: usize = 0;
    while i < chunks.len()
        invariant
            0 <= i <= chunks.len(),
            out@ == concat_prefix(chunks@, i as int),
            forall|k: int| 0 <= k < i ==> #[trigger] chunks@[k].is_data(),
        decreases chunks.len() - i,
    {
        match &chunks[i] {
            BodyChunk::Data(bytes) => {
                let mut j: usize = 0;
                let ghost before = out@;
                while j < bytes.len()
                    invariant
                        0 <= j <= bytes.len(),
                        out@ == before + bytes@.subrange(0, j as int),
                    decreases bytes.len() - j,
                {
                    out.push(bytes[j]);
                    j = j + 1;
                    proof {
                        assert(out@ =~= before + bytes@.subrange(0, j as int));
                    }
                }
                proof {
                    assert(bytes@.subrange(0, bytes@.len() as int) =~= bytes@);
                }
            },
            BodyChunk::Fault => {
                proof {
                    assert(!chunks@[i as int].is_data());
                }
                return Err(TransportFault::BrokenChunk);
            },
        }
        i = i + 1;
    }
    Ok(out)
}

/// Turns the status and body stream of a protocol response into the one
/// response the host sends: the same status and the whole body, or a 500
/// with an empty body when the stream failed.
pub fn bridge_response(status: u16, chunks: &Vec<BodyChunk>) -> (r: BufferedResponse)
    ensures
        no_fault(chunks@) ==> r.status == status && r.body@ == concat_all(chunks@),
        !no_fault(chunks@) ==> r.status == INTERNAL_ERROR_STATUS && r.body@.len() == 0,
{
    match drain_body(chunks) {
        Ok(body) => BufferedResponse { status, body },
        Err(_) => BufferedResponse { status: INTERNAL_ERROR_STATUS, body: Vec::new() },
    }
}

/// A stream of chunks without faults is bridged into a body whose length is
/// the sum of the chunk lengths: nothing is dropped or repeated.
pub proof fn lemma_bridge_complete(status: u16, chunks: Seq<BodyChunk>, r: BufferedResponse)
    requires
        no_fault(chunks),
        r.status == status && r.body@ == concat_all(chunks),
    ensures
        r.body@.len() == total_len(chunks),
        r.status == status,
{
    lemma_prefix_len(chunks, chunks.len() as int);
}

} // verus!
