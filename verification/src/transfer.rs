use vstd::prelude::*;
use crate::error::DownloadError;
use crate::progress::{mode_for, ProgressMode};
use crate::size::{opt_bytes, size_indicator};

verus! {

/// The concatenation of a sequence of chunks, in arrival order.
pub open spec fn concat_of(chunks: Seq<Seq<u8>>) -> Seq<u8>
    decreases chunks.len(),
{
    if chunks.len() == 0 {
        Seq::empty()
    } else {
        concat_of(chunks.drop_last()) + chunks.last()
    }
}

/// The total number of bytes in a sequence of chunks.
pub open spec fn sum_len(chunks: Seq<Seq<u8>>) -> int
    decreases chunks.len(),
{
    if chunks.len() == 0 {
        0
    } else {
        sum_len(chunks.drop_last()) + chunks.last().len()
    }
}

/// Whether an HTTP status code reports success.
pub open spec fn is_success(status: u16) -> bool {
    200 <= status <= 299
}

/// The transient state of one body transfer: the expected total size as the
/// response reported it, the indicator mode that size selected, the running
/// byte count, and the buffer that accumulates the body.  The chunks received
/// so far are kept alongside in ghost form, so that the buffer can be stated
/// to be exactly their concatenation.
pub struct Transfer {
    mode: ProgressMode,
    total: u64,
    received: u64,
    buf: Vec<u8>,
    chunks: Ghost<Seq<Seq<u8>>>,
}

impl Transfer {
    /// The chunks this transfer has received, in arrival order.
    pub closed spec fn chunks(&self) -> Seq<Seq<u8>> {
        self.chunks@
    }

    /// The bytes accumulated so far.
    pub closed spec fn bytes(&self) -> Seq<u8> {
        self.buf@
    }

    /// The expected total size, zero meaning unknown.
    pub closed spec fn total_spec(&self) -> u64 {
        self.total
    }

    /// The progress counter's current value.
    pub closed spec fn received_spec(&self) -> u64 {
        self.received
    }

    /// The indicator mode chosen for this transfer.
    pub closed spec fn mode_spec(&self) -> ProgressMode {
        self.mode
    }

    /// Well-formedness: the buffer is exactly the concatenation of the
    /// received chunks, the progress counter equals its length, and the mode
    /// is the one the expected total selects.
    pub open spec fn wf(&self) -> bool {
        &&& self.bytes() == concat_of(self.chunks())
        &&& self.received_spec() == self.bytes().len()
        &&& self.mode_spec() == mode_for(self.total_spec())
    }

    /// Inspects a response's status and, on success, opens a transfer whose
    /// expected total is read from the optional size header.  Any status
    /// outside the 2xx range is refused, so no transfer — and hence no output
    /// — can come of such a response.
    pub fn begin(status: u16, size_header: Option<&[u8]>) -> (r: Result<Transfer, DownloadError>)
        ensures
            r is Ok <==> is_success(status),
            !is_success(status) ==> r == Result::<Transfer, DownloadError>::Err(
                DownloadError::HttpStatusError(status),
            ),
            r is Ok ==> {
                let t = r->Ok_0;
                &&& t.wf()
                &&& t.chunks() == Seq::<Seq<u8>>::empty()
                &&& t.bytes() == Seq::<u8>::empty()
                &&& t.received_spec() == 0
                &&& t.total_spec() == size_indicator(opt_bytes(size_header))
                &&& t.mode_spec() == mode_for(size_indicator(opt_bytes(size_header)))
            },
    {
        if status < 200 || status > 299 {
            return Err(DownloadError::HttpStatusError(status));
        }
        let total = crate::size::expected_total(size_header);
        let mode = ProgressMode::for_total(total);
        Ok(Transfer { mode, total, received: 0, buf: Vec::new(), chunks: Ghost(Seq::empty()) })
    }

    /// The expected total size, zero meaning unknown.
    pub fn total(&self) -> (r: u64)
        ensures
            r == self.total_spec(),
    {
        self.total
    }

    /// The indicator mode chosen for this transfer.
    pub fn mode(&self) -> (r: ProgressMode)
        ensures
            r == self.mode_spec(),
    {
        self.mode
    }

    /// The progress counter: how many bytes have arrived so far.
    pub fn received(&self) -> (r: u64)
        ensures
            r == self.received_spec(),
    {
        self.received
    }

    /// Appends one arrived chunk to the buffer, in order and in full, and
    /// advances the progress counter by the chunk's length.
    pub fn push_chunk(&mut self, chunk: &[u8])
        requires
            old(self).wf(),
            old(self).bytes().len() + chunk@.len() <= usize::MAX,
        ensures
            final(self).wf(),
            final(self).chunks() == old(self).chunks().push(chunk@),
            final(self).bytes() == old(self).bytes() + chunk@,
            final(self).received_spec() == old(self).received_spec() + chunk@.len(),
            final(self).total_spec() == old(self).total_spec(),
            final(self).mode_spec() == old(self).mode_spec(),
    {
        let ghost prev = self.buf@;
        let mut i: usize = 0;
        while i < chunk.len()
            invariant
                0 <= i <= chunk@.len(),
                self.buf@ == prev + chunk@.take(i as int),
                prev.len() + chunk@.len() <= usize::MAX,
                self.received == prev.len(),
                self.total == old(self).total,
                self.mode == old(self).mode,
                self.chunks@ == old(self).chunks@,
            decreases chunk@.len() - i,
        {
            let b = chunk[i];
            self.buf.push(b);
            proof {
                assert(prev + chunk@.take(i + 1) =~= (prev + chunk@.take(i as int)).push(
                    chunk@[i as int],
                ));
            }
            i = i + 1;
        }
        proof {
            assert(chunk@.take(chunk@.len() as int) =~= chunk@);
        }
        self.received = self.received + (chunk.len() as u64);
        proof {
            self.chunks@ = self.chunks@.push(chunk@);
            assert(concat_of(self.chunks@.drop_last()) == concat_of(old(self).chunks@)) by {
                assert(self.chunks@.drop_last() =~= old(self).chunks@);
            }
        }
    }

    /// Ends the stream: hands back the full accumulated buffer, which is the
    /// concatenation of every chunk received, none dropped, duplicated or
    /// reordered.
    pub fn finish(self) -> (r: Vec<u8>)
        requires
            self.wf(),
        ensures
            r@ == self.bytes(),
            r@ == concat_of(self.chunks()),
    {
        self.buf
    }
}

} // verus!
