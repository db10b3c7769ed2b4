//! The bytes of a file on their way: cut into chunks by the sender, put together again
//! by the receiver.
use crate::filename;
use crate::protocol::OfferView;
use crate::session;
use crate::session::{ActionView, EventView, IncomingView, SessionEvent, SessionView, Step, CHUNK_LEN};
use vstd::prelude::*;

verus! {

/// A file that is being sent over a data stream.
pub struct Outgoing {
    transfer_id: String,
    data: Vec<u8>,
    sent: usize,
}

/// An [`Outgoing`] as a mathematical value.
#[verifier::ext_equal]
pub struct OutgoingView {
    pub transfer_id: Seq<char>,
    pub data: Seq<u8>,
    /// How many of the bytes have been written.
    pub sent: nat,
}

impl View for Outgoing {
    type V = OutgoingView;

    closed spec fn view(&self) -> OutgoingView {
        OutgoingView {
            transfer_id: self.transfer_id@,
            data: self.data@,
            sent: self.sent as nat,
        }
    }
}

/// Where the chunk that starts at `sent` ends, in a file of `len` bytes.
pub open spec fn chunk_end(sent: nat, len: nat) -> nat {
    if len - sent < CHUNK_LEN {
        len
    } else {
        sent + CHUNK_LEN as nat
    }
}

impl OutgoingView {
    /// No more has been sent than there is.
    pub open spec fn inv(self) -> bool {
        self.sent <= self.data.len()
    }

    /// The chunk to write next, if anything is left.
    pub open spec fn next_chunk(self) -> Option<Seq<u8>> {
        if self.sent < self.data.len() {
            Some(
                self.data.subrange(
                    self.sent as int,
                    chunk_end(self.sent, self.data.len()) as int,
                ),
            )
        } else {
            None
        }
    }

    /// The file, once the next chunk has been written.
    pub open spec fn advanced(self) -> OutgoingView {
        OutgoingView { sent: chunk_end(self.sent, self.data.len()), ..self }
    }
}

impl Outgoing {
    /// A file, of which nothing has been sent.
    pub fn new(transfer_id: String, data: Vec<u8>) -> (o: Outgoing)
        ensures
            o@ == (OutgoingView { transfer_id: transfer_id@, data: data@, sent: 0 }),
            o@.inv(),
    {
        Outgoing { transfer_id, data, sent: 0 }
    }

    /// The chunk to write next. `None` once the whole file has been written: the data
    /// stream is then to be shut down.
    pub fn next_chunk(&self) -> (chunk: Option<&[u8]>)
        ensures
            match self@.next_chunk() {
                Some(bytes) => chunk matches Some(c) && c@ == bytes,
                None => chunk is None,
            },
    {
        let len: usize = self.data.len();
        if self.sent < len {
            let end: usize = if len - self.sent < CHUNK_LEN { len } else { self.sent + CHUNK_LEN };
            Some(vstd::slice::slice_subrange(self.data.as_slice(), self.sent, end))
        } else {
            None
        }
    }

    /// The next chunk has been written. Says how far the file is; `None` where nothing
    /// was left to write.
    pub fn on_written(&mut self) -> (progress: Option<SessionEvent>)
        ensures
            old(self)@.inv() ==> final(self)@.inv(),
            match old(self)@.next_chunk() {
                Some(_) => {
                    &&& final(self)@ == old(self)@.advanced()
                    &&& progress matches Some(e) && e@ == EventView::TransferProgress {
                        transfer_id: old(self)@.transfer_id,
                        bytes_transferred: old(self)@.advanced().sent as u64,
                        total_bytes: old(self)@.data.len() as u64,
                    }
                },
                None => progress is None && final(self)@ == old(self)@,
            },
    {
        let len: usize = self.data.len();
        if self.sent < len {
            self.sent = if len - self.sent < CHUNK_LEN { len } else { self.sent + CHUNK_LEN };
            Some(
                SessionEvent::TransferProgress {
                    transfer_id: self.transfer_id.clone(),
                    bytes_transferred: self.sent as u64,
                    total_bytes: len as u64,
                },
            )
        } else {
            None
        }
    }
}

/// The chunks that are written for a file from `sent` on, in order.
pub open spec fn chunks_from(file: OutgoingView) -> Seq<Seq<u8>>
    decreases file.data.len() - file.sent,
{
    match file.next_chunk() {
        Some(chunk) => seq![chunk] + chunks_from(file.advanced()),
        None => Seq::empty(),
    }
}

/// Chunks, put together in order.
pub open spec fn joined(chunks: Seq<Seq<u8>>) -> Seq<u8>
    decreases chunks.len(),
{
    if chunks.len() == 0 {
        Seq::empty()
    } else {
        chunks[0] + joined(chunks.skip(1))
    }
}

/// What is written for a file is the rest of the file: put together, its chunks are the
/// bytes that were left. None of them is empty, and none exceeds the chunk size.
pub proof fn law_chunks_are_the_file(file: OutgoingView)
    requires
        file.inv(),
    ensures
        joined(chunks_from(file)) == file.data.skip(file.sent as int),
        forall|i: int|
            0 <= i < chunks_from(file).len() ==> 0 < (#[trigger] chunks_from(file)[i]).len()
                <= CHUNK_LEN,
    decreases file.data.len() - file.sent,
{
    match file.next_chunk() {
        Some(chunk) => {
            let rest = file.advanced();
            law_chunks_are_the_file(rest);
            let all = chunks_from(file);
            assert(all.skip(1) =~= chunks_from(rest));
            assert(file.data.skip(file.sent as int) =~= chunk + file.data.skip(rest.sent as int));
            assert forall|i: int| 0 <= i < all.len() implies 0 < (#[trigger] all[i]).len()
                <= CHUNK_LEN by {
                if i > 0 {
                    assert(all[i] == chunks_from(rest)[i - 1]);
                }
            }
        },
        None => {
            assert(file.data.skip(file.sent as int) =~= Seq::empty());
        },
    }
}

/// A file takes no more chunks than it must: all but the last are full.
pub proof fn law_chunks_are_as_few_as_can_be(file: OutgoingView)
    requires
        file.inv(),
    ensures
        chunks_from(file).len() == (file.data.len() - file.sent + CHUNK_LEN - 1) / (
        CHUNK_LEN as int),
    decreases file.data.len() - file.sent,
{
    if file.sent < file.data.len() {
        law_chunks_are_as_few_as_can_be(file.advanced());
        assert(chunks_from(file).len() == 1 + chunks_from(file.advanced()).len());
    }
}

/// A session that is given chunks from the data stream, one after the other.
pub open spec fn receive_all(s: SessionView, chunks: Seq<Seq<u8>>) -> Step
    decreases chunks.len(),
{
    if chunks.len() == 0 {
        s.ignore()
    } else {
        let first = s.on_data(chunks[0]);
        let rest = receive_all(first.0, chunks.skip(1));
        (rest.0, first.1 + rest.1)
    }
}

/// What is told of the progress of a file while chunks arrive, `have` bytes having
/// arrived before.
pub open spec fn progress_of(offer: OfferView, have: nat, chunks: Seq<Seq<u8>>) -> Seq<ActionView>
    decreases chunks.len(),
{
    if chunks.len() == 0 {
        Seq::empty()
    } else {
        let now = have + chunks[0].len();
        seq![
            ActionView::Emit(
                EventView::TransferProgress {
                    transfer_id: offer.transfer_id,
                    bytes_transferred: now as u64,
                    total_bytes: offer.size_bytes,
                },
            ),
        ] + progress_of(offer, now, chunks.skip(1))
    }
}

/// A file arrives intact: however the data stream cuts its bytes, once as many have
/// arrived as were announced they are stored, all of them and in order, under the name
/// that the offered one amounts to. Until then the session only tells of the progress.
pub proof fn law_file_arrives_intact(s: SessionView, offer: OfferView, chunks: Seq<Seq<u8>>)
    requires
        s.inv(),
        s.incoming matches IncomingView::Receiving { offer: o, .. } && o == offer,
        filename::sanitized(offer.filename) is Some,
        chunks.len() > 0,
        forall|i: int| 0 <= i < chunks.len() ==> (#[trigger] chunks[i]).len() > 0,
        s.incoming->data.len() + joined(chunks).len() == offer.size_bytes,
    ensures
        receive_all(s, chunks).0 == (SessionView {
            incoming: IncomingView::Storing { offer },
            ..s
        }),
        receive_all(s, chunks).1 == progress_of(offer, s.incoming->data.len(), chunks).push(
            ActionView::StoreFile {
                filename: filename::sanitized(offer.filename)->0,
                data: s.incoming->data + joined(chunks),
            },
        ),
    decreases chunks.len(),
{
    let data = s.incoming->data;
    let now = data + chunks[0];
    let rest = chunks.skip(1);
    let first = s.on_data(chunks[0]);
    assert(joined(chunks) == chunks[0] + joined(rest));
    assert(data + joined(chunks) =~= now + joined(rest));
    if rest.len() == 0 {
        assert(joined(rest) =~= Seq::empty());
        assert(now + joined(rest) =~= now);
        assert(receive_all(first.0, rest).1 =~= Seq::empty());
        assert(progress_of(offer, now.len(), rest) =~= Seq::empty());
        assert(receive_all(s, chunks).1 =~= first.1);
        assert(first.1 =~= progress_of(offer, data.len(), chunks).push(
            ActionView::StoreFile {
                filename: filename::sanitized(offer.filename)->0,
                data: now,
            },
        ));
    } else {
        assert forall|i: int| 0 <= i < rest.len() implies (#[trigger] rest[i]).len() > 0 by {
            assert(rest[i] == chunks[i + 1]);
        }
        assert(rest[0].len() > 0);
        assert(joined(rest).len() >= rest[0].len());
        assert(now.len() < offer.size_bytes);
        law_file_arrives_intact(first.0, offer, rest);
        assert(receive_all(s, chunks).1 =~= progress_of(offer, data.len(), chunks).push(
            ActionView::StoreFile {
                filename: filename::sanitized(offer.filename)->0,
                data: data + joined(chunks),
            },
        ));
    }
}

/// An empty file needs no data at all: it is stored as soon as the data stream is there.
pub proof fn law_empty_file_is_stored_at_once(s: SessionView, offer: OfferView)
    requires
        s.incoming == (IncomingView::Receiving { offer, data: Seq::empty() }),
        filename::sanitized(offer.filename) is Some,
        offer.size_bytes == 0,
    ensures
        s.on_stream_accepted() == (
            SessionView { incoming: IncomingView::Storing { offer }, ..s },
            seq![
                ActionView::StoreFile {
                    filename: filename::sanitized(offer.filename)->0,
                    data: Seq::empty(),
                },
            ],
        ),
{
}

/// What the receiving end stores is what the sending end was given: a file that is sent
/// as chunks, received in whatever pieces, and announced with its true size, is stored
/// byte for byte.
pub proof fn law_sent_file_is_stored(
    file: OutgoingView,
    s: SessionView,
    offer: OfferView,
    pieces: Seq<Seq<u8>>,
)
    requires
        file.sent == 0,
        file.data.len() > 0,
        offer.size_bytes == file.data.len(),
        s.inv(),
        s.incoming == (IncomingView::Receiving { offer, data: Seq::empty() }),
        filename::sanitized(offer.filename) is Some,
        forall|i: int| 0 <= i < pieces.len() ==> (#[trigger] pieces[i]).len() > 0,
        joined(pieces) == joined(chunks_from(file)),
    ensures
        receive_all(s, pieces).1.last() == (ActionView::StoreFile {
            filename: filename::sanitized(offer.filename)->0,
            data: file.data,
        }),
{
    law_chunks_are_the_file(file);
    assert(file.data.skip(0) =~= file.data);
    assert(Seq::<u8>::empty() + file.data =~= file.data);
    law_file_arrives_intact(s, offer, pieces);
}

/// A data stream that ends early leaves nothing stored: the peer is told how much is
/// missing, and the session is over.
pub proof fn law_short_file_is_refused(s: SessionView, offer: OfferView)
    requires
        s.incoming matches IncomingView::Receiving { offer: o, data } && o == offer && data.len()
            < offer.size_bytes,
    ensures
        s.on_data(Seq::empty()).0.state is Done,
        s.on_data(Seq::empty()).1[0] == ActionView::Send(
            crate::protocol::MessageView::TransferDone {
                transfer_id: offer.transfer_id,
                ok: false,
                stored_filename: None,
                reason: Some(
                    session::incomplete_text(s.incoming->data.len(), offer.size_bytes as nat),
                ),
            },
        ),
        forall|i: int|
            0 <= i < s.on_data(Seq::empty()).1.len() ==> #[trigger] s.on_data(Seq::empty()).1[i]
                !is StoreFile,
{
}

/// The progress that is told is what was written: each chunk adds its length, no chunk is
/// larger than the limit, and all chunks but the last are full.
pub proof fn law_progress_counts_what_was_written(file: OutgoingView)
    requires
        file.inv(),
    ensures
        file.sent == file.data.len() ==> file.next_chunk() is None,
        file.sent < file.data.len() ==> {
            &&& file.next_chunk() matches Some(chunk)
            &&& 0 < chunk.len() <= CHUNK_LEN
            &&& file.advanced().sent == file.sent + chunk.len()
            &&& file.advanced().sent < file.data.len() ==> chunk.len() == CHUNK_LEN
            &&& chunk == file.data.subrange(file.sent as int, (file.sent + chunk.len()) as int)
            &&& file.advanced().data == file.data
            &&& file.advanced().transfer_id == file.transfer_id
        },
{
}

} // verus!
