//! The client side of a multipart upload: buffering into parts and the
//! session's lifecycle.

use vstd::prelude::*;

use crate::errors::ErrorKind;
use crate::ids::{is_v4_id, new_session_id};

verus! {

/// Size in bytes at which the buffer of an upload session is handed to the
/// backend as one part.
pub const PART_SIZE: usize = 5242880;

/// Where an upload session stands in its lifetime.
#[derive(Clone, Copy, Debug, PartialEq, Eq, Structural)]
pub enum UploadState {
    Open,
    Completed,
    Aborted,
}

/// The client side of a multipart upload: bytes accepted from the caller wait
/// in `buffer` until they reach `part_size`, then leave as one part.
pub struct UploadSession {
    session_id: u128,
    buffer: Vec<u8>,
    part_size: usize,
    state: UploadState,
    /// Every byte accepted so far, in order.
    accepted: Ghost<Seq<u8>>,
    /// Every part handed out so far, in order.
    parts: Ghost<Seq<Seq<u8>>>,
}

/// One append: the chunk joins the buffer; if the buffer then holds at least
/// `part_size` bytes it leaves whole as a part and the buffer starts empty.
/// Returns the part handed out, if any, and the buffer left behind.
pub open spec fn append_step(part_size: nat, buffer: Seq<u8>, chunk: Seq<u8>) -> (Option<
    Seq<u8>,
>, Seq<u8>) {
    let joined = buffer + chunk;
    if joined.len() >= part_size {
        (Some(joined), Seq::empty())
    } else {
        (None, joined)
    }
}

/// An optional part as a sequence of zero or one parts.
pub open spec fn part_seq(part: Option<Seq<u8>>) -> Seq<Seq<u8>> {
    match part {
        Some(p) => seq![p],
        None => Seq::empty(),
    }
}

/// The part that completion hands out: what is left in the buffer, if anything.
pub open spec fn final_part(buffer: Seq<u8>) -> Option<Seq<u8>> {
    if buffer.len() > 0 {
        Some(buffer)
    } else {
        None
    }
}

/// All parts joined in order.
pub open spec fn concat(parts: Seq<Seq<u8>>) -> Seq<u8>
    decreases parts.len(),
{
    if parts.len() == 0 {
        Seq::empty()
    } else {
        concat(parts.drop_last()) + parts.last()
    }
}

/// The parts handed out, and the buffer left, after appending `chunks` in
/// order to an open session that started empty.
pub open spec fn feed_chunks(part_size: nat, chunks: Seq<Seq<u8>>) -> (Seq<Seq<u8>>, Seq<u8>)
    decreases chunks.len(),
{
    if chunks.len() == 0 {
        (Seq::empty(), Seq::empty())
    } else {
        let (parts, buffer) = feed_chunks(part_size, chunks.drop_last());
        let (part, rest) = append_step(part_size, buffer, chunks.last());
        match part {
            Some(p) => (parts.push(p), rest),
            None => (parts, rest),
        }
    }
}

/// Every part uploaded for `chunks` once the session is completed.
pub open spec fn uploaded_parts(part_size: nat, chunks: Seq<Seq<u8>>) -> Seq<Seq<u8>> {
    let (parts, buffer) = feed_chunks(part_size, chunks);
    match final_part(buffer) {
        Some(p) => parts.push(p),
        None => parts,
    }
}

proof fn lemma_feed_chunks(part_size: nat, chunks: Seq<Seq<u8>>)
    requires
        part_size > 0,
    ensures
        concat(feed_chunks(part_size, chunks).0) + feed_chunks(part_size, chunks).1 == concat(
            chunks,
        ),
        forall|i: int|
            0 <= i < feed_chunks(part_size, chunks).0.len() ==> #[trigger] feed_chunks(
                part_size,
                chunks,
            ).0[i].len() >= part_size,
        feed_chunks(part_size, chunks).1.len() < part_size,
    decreases chunks.len(),
{
    if chunks.len() > 0 {
        let prev = chunks.drop_last();
        lemma_feed_chunks(part_size, prev);
        let (parts, buffer) = feed_chunks(part_size, prev);
        let (part, rest) = append_step(part_size, buffer, chunks.last());
        match part {
            Some(p) => {
                assert(parts.push(p).drop_last() =~= parts);
                assert(concat(parts.push(p)) + rest =~= concat(chunks));
            },
            None => {
                assert(concat(parts) + rest =~= concat(chunks));
            },
        }
    }
}

/// Appending any chunks to a session with a positive threshold and then
/// completing it uploads exactly the appended bytes, in order, and every part
/// but the last holds at least the threshold.
pub proof fn lemma_parts_cover_appended_bytes(part_size: nat, chunks: Seq<Seq<u8>>)
    requires
        part_size > 0,
    ensures
        concat(uploaded_parts(part_size, chunks)) == concat(chunks),
        concat(uploaded_parts(part_size, chunks)).len() == concat(chunks).len(),
        forall|i: int|
            0 <= i < uploaded_parts(part_size, chunks).len() - 1 ==> #[trigger] uploaded_parts(
                part_size,
                chunks,
            )[i].len() >= part_size,
{
    lemma_feed_chunks(part_size, chunks);
    let (parts, buffer) = feed_chunks(part_size, chunks);
    match final_part(buffer) {
        Some(p) => {
            assert(parts.push(p).drop_last() =~= parts);
            assert(forall|i: int| 0 <= i < parts.len() ==> parts.push(p)[i] == parts[i]);
        },
        None => {
            assert(buffer =~= Seq::<u8>::empty());
            assert(concat(parts) + buffer =~= concat(parts));
        },
    }
}

impl UploadSession {
    pub closed spec fn spec_buffer(&self) -> Seq<u8> {
        self.buffer@
    }

    pub closed spec fn spec_part_size(&self) -> nat {
        self.part_size as nat
    }

    pub closed spec fn spec_state(&self) -> UploadState {
        self.state
    }

    pub closed spec fn spec_session_id(&self) -> u128 {
        self.session_id
    }

    pub closed spec fn spec_accepted(&self) -> Seq<u8> {
        self.accepted@
    }

    pub closed spec fn spec_parts(&self) -> Seq<Seq<u8>> {
        self.parts@
    }

    /// The threshold is positive; unless aborted, the parts handed out and
    /// then the buffer hold exactly the accepted bytes; an open session never
    /// keeps a full part in its buffer and has handed out only full parts; a
    /// completed session has an empty buffer and only its last part may be
    /// short.
    pub open spec fn wf(&self) -> bool {
        &&& self.spec_part_size() > 0
        &&& self.spec_state() != UploadState::Aborted ==> concat(self.spec_parts())
            + self.spec_buffer() == self.spec_accepted()
        &&& self.spec_state() == UploadState::Open ==> {
            &&& self.spec_buffer().len() < self.spec_part_size()
            &&& forall|i: int|
                0 <= i < self.spec_parts().len() ==> #[trigger] self.spec_parts()[i].len()
                    >= self.spec_part_size()
        }
        &&& self.spec_state() == UploadState::Completed ==> {
            &&& self.spec_buffer().len() == 0
            &&& forall|i: int|
                0 <= i < self.spec_parts().len() - 1 ==> #[trigger] self.spec_parts()[i].len()
                    >= self.spec_part_size()
        }
    }

    /// A fresh open session with an empty buffer and the given threshold.
    pub fn with_part_size(part_size: usize) -> (r: UploadSession)
        requires
            part_size > 0,
        ensures
            r.wf(),
            r.spec_state() == UploadState::Open,
            r.spec_buffer() == Seq::<u8>::empty(),
            r.spec_part_size() == part_size,
            r.spec_accepted() == Seq::<u8>::empty(),
            r.spec_parts() == Seq::<Seq<u8>>::empty(),
            is_v4_id(r.spec_session_id()),
    {
        let r = UploadSession {
            session_id: new_session_id(),
            buffer: Vec::new(),
            part_size,
            state: UploadState::Open,
            accepted: Ghost(Seq::empty()),
            parts: Ghost(Seq::empty()),
        };
        proof {
            assert(concat(r.parts@) + r.buffer@ =~= r.accepted@);
        }
        r
    }

    pub fn session_id(&self) -> (r: u128)
        ensures
            r == self.spec_session_id(),
    {
        self.session_id
    }

    pub fn part_size(&self) -> (r: usize)
        ensures
            r == self.spec_part_size(),
    {
        self.part_size
    }

    pub fn state(&self) -> (r: UploadState)
        ensures
            r == self.spec_state(),
    {
        self.state
    }

    pub fn buffered_len(&self) -> (r: usize)
        ensures
            r == self.spec_buffer().len(),
    {
        self.buffer.len()
    }

    /// Empties the buffer and returns what it held.
    fn take_buffer(&mut self) -> (r: Vec<u8>)
        ensures
            r@ == old(self).spec_buffer(),
            final(self).spec_buffer() == Seq::<u8>::empty(),
            final(self).spec_part_size() == old(self).spec_part_size(),
            final(self).spec_state() == old(self).spec_state(),
            final(self).spec_session_id() == old(self).spec_session_id(),
            final(self).spec_accepted() == old(self).spec_accepted(),
            final(self).spec_parts() == old(self).spec_parts(),
    {
        let mut taken: Vec<u8> = Vec::new();
        core::mem::swap(&mut taken, &mut self.buffer);
        taken
    }
}

/// Opens the client side of an upload with the standard part size.
pub fn start_upload_session() -> (r: UploadSession)
    ensures
        r.wf(),
        r.spec_state() == UploadState::Open,
        r.spec_buffer() == Seq::<u8>::empty(),
        r.spec_part_size() == PART_SIZE,
        r.spec_accepted() == Seq::<u8>::empty(),
        r.spec_parts() == Seq::<Seq<u8>>::empty(),
        is_v4_id(r.spec_session_id()),
{
    UploadSession::with_part_size(PART_SIZE)
}

/// Appends `chunk` to an open session. Returns the part to upload when the
/// buffer reached the threshold (the buffer is then empty), `None` otherwise.
/// A session that is no longer open is left as it is and reported.
pub fn upload_chunk(session: &mut UploadSession, chunk: &[u8]) -> (r: Result<
    Option<Vec<u8>>,
    ErrorKind,
>)
    requires
        old(session).wf(),
    ensures
        final(session).wf(),
        final(session).spec_part_size() == old(session).spec_part_size(),
        final(session).spec_session_id() == old(session).spec_session_id(),
        final(session).spec_state() == old(session).spec_state(),
        old(session).spec_state() != UploadState::Open ==> {
            &&& r == Err::<Option<Vec<u8>>, ErrorKind>(ErrorKind::InvalidSessionState)
            &&& final(session).spec_buffer() == old(session).spec_buffer()
            &&& final(session).spec_accepted() == old(session).spec_accepted()
            &&& final(session).spec_parts() == old(session).spec_parts()
        },
        old(session).spec_state() == UploadState::Open ==> {
            let (part, rest) = append_step(
                old(session).spec_part_size(),
                old(session).spec_buffer(),
                chunk@,
            );
            &&& r is Ok
            &&& final(session).spec_buffer() == rest
            &&& final(session).spec_accepted() == old(session).spec_accepted() + chunk@
            &&& final(session).spec_parts() == old(session).spec_parts() + part_seq(part)
            &&& match r {
                Ok(Some(p)) => part == Some(p@),
                _ => part is None,
            }
        },
{
    if session.state != UploadState::Open {
        return Err(ErrorKind::InvalidSessionState);
    }
    session.buffer.extend_from_slice(chunk);
    session.accepted = Ghost(session.accepted@ + chunk@);
    proof {
        assert(session.buffer@ =~= old(session).buffer@ + chunk@);
        assert(concat(session.parts@) + session.buffer@ =~= session.accepted@);
    }
    if session.buffer.len() >= session.part_size {
        let part = session.take_buffer();
        let ghost before = session.parts@;
        session.parts = Ghost(session.parts@.push(part@));
        proof {
            assert(session.parts@.drop_last() =~= before);
            assert(concat(session.parts@) + session.buffer@ =~= session.accepted@);
            assert(session.parts@ =~= before + part_seq(Some(part@)));
            assert forall|i: int| 0 <= i < session.parts@.len() implies #[trigger] session.parts@[i].len()
                >= session.part_size by {
                if i < before.len() {
                    assert(session.parts@[i] == before[i]);
                }
            }
        }
        Ok(Some(part))
    } else {
        proof {
            assert(session.parts@ =~= session.parts@ + part_seq(None));
        }
        Ok(None)
    }
}

/// Closes an open session for completion: returns the final part (what is
/// left in the buffer, if anything) and marks the session completed, whether
/// or not the backend later accepts the completion.
pub fn complete_upload(session: &mut UploadSession) -> (r: Result<Option<Vec<u8>>, ErrorKind>)
    requires
        old(session).wf(),
    ensures
        final(session).wf(),
        final(session).spec_part_size() == old(session).spec_part_size(),
        final(session).spec_session_id() == old(session).spec_session_id(),
        old(session).spec_state() != UploadState::Open ==> {
            &&& r == Err::<Option<Vec<u8>>, ErrorKind>(ErrorKind::InvalidSessionState)
            &&& final(session).spec_state() == old(session).spec_state()
            &&& final(session).spec_buffer() == old(session).spec_buffer()
            &&& final(session).spec_accepted() == old(session).spec_accepted()
            &&& final(session).spec_parts() == old(session).spec_parts()
        },
        old(session).spec_state() == UploadState::Open ==> {
            &&& final(session).spec_state() == UploadState::Completed
            &&& final(session).spec_buffer() == Seq::<u8>::empty()
            &&& final(session).spec_accepted() == old(session).spec_accepted()
            &&& final(session).spec_parts() == old(session).spec_parts() + part_seq(
                final_part(old(session).spec_buffer()),
            )
            &&& concat(final(session).spec_parts()) == final(session).spec_accepted()
            &&& (forall|i: int|
                0 <= i < final(session).spec_parts().len() - 1
                    ==> #[trigger] final(session).spec_parts()[i].len()
                    >= final(session).spec_part_size())
            &&& r is Ok
            &&& match r {
                Ok(Some(p)) => final_part(old(session).spec_buffer()) == Some(p@),
                _ => final_part(old(session).spec_buffer()) is None,
            }
        },
{
    if session.state != UploadState::Open {
        return Err(ErrorKind::InvalidSessionState);
    }
    let rest = session.take_buffer();
    session.state = UploadState::Completed;
    let ghost before = session.parts@;
    if rest.len() > 0 {
        session.parts = Ghost(session.parts@.push(rest@));
        proof {
            assert(session.parts@.drop_last() =~= before);
            assert(session.parts@ =~= before + part_seq(final_part(rest@)));
            assert(concat(session.parts@) + session.buffer@ =~= session.accepted@);
            assert(concat(session.parts@) + session.buffer@ =~= concat(session.parts@));
            assert forall|i: int| 0 <= i < session.parts@.len() - 1 implies #[trigger] session.parts@[i].len()
                >= session.part_size by {
                assert(session.parts@[i] == before[i]);
            }
        }
        Ok(Some(rest))
    } else {
        proof {
            assert(session.parts@ =~= before + part_seq(final_part(rest@)));
            assert(concat(session.parts@) + session.buffer@ =~= concat(session.parts@));
        }
        Ok(None)
    }
}

/// Whatever appends came before, a completed session has handed out parts
/// that, joined in order, are exactly the bytes it accepted, and every part
/// but the last holds at least the threshold.
pub proof fn lemma_completed_upload_parts(session: UploadSession)
    requires
        session.wf(),
        session.spec_state() == UploadState::Completed,
    ensures
        concat(session.spec_parts()) == session.spec_accepted(),
        concat(session.spec_parts()).len() == session.spec_accepted().len(),
        forall|i: int|
            0 <= i < session.spec_parts().len() - 1 ==> #[trigger] session.spec_parts()[i].len()
                >= session.spec_part_size(),
{
    assert(session.spec_buffer() =~= Seq::<u8>::empty());
    assert(concat(session.spec_parts()) + session.spec_buffer() =~= concat(session.spec_parts()));
}

/// Closes an open session for abort: buffered bytes are dropped and the
/// session can no longer be used.
pub fn abort_upload(session: &mut UploadSession) -> (r: Result<(), ErrorKind>)
    requires
        old(session).wf(),
    ensures
        final(session).wf(),
        final(session).spec_part_size() == old(session).spec_part_size(),
        final(session).spec_session_id() == old(session).spec_session_id(),
        old(session).spec_state() != UploadState::Open ==> {
            &&& r == Err::<(), ErrorKind>(ErrorKind::InvalidSessionState)
            &&& final(session).spec_state() == old(session).spec_state()
            &&& final(session).spec_buffer() == old(session).spec_buffer()
            &&& final(session).spec_accepted() == old(session).spec_accepted()
            &&& final(session).spec_parts() == old(session).spec_parts()
        },
        old(session).spec_state() == UploadState::Open ==> {
            &&& r is Ok
            &&& final(session).spec_state() == UploadState::Aborted
            &&& final(session).spec_buffer() == Seq::<u8>::empty()
            &&& final(session).spec_accepted() == old(session).spec_accepted()
            &&& final(session).spec_parts() == old(session).spec_parts()
        },
{
    if session.state != UploadState::Open {
        return Err(ErrorKind::InvalidSessionState);
    }
    let _dropped = session.take_buffer();
    session.state = UploadState::Aborted;
    Ok(())
}

} // verus!
