//! What a host keeps for one guest.
use vstd::prelude::*;
use vstd::utf8::encode_utf8;

use crate::bytes::{bytes_of, slice_of};
use crate::host_calls::columnar_reply_bytes;
use crate::host_imports::Import;
use crate::host_memory::{bytes_at, E_OTHER};
use crate::host_replies::{Answer, AnswerView};
use crate::host_values::input_length;
use crate::manifold::Manifold;

verus! {

/// What a host keeps for one guest.
pub struct HostState {
    /// What the script may do.
    pub manifold: Manifold,
    /// How much output the guest may write.
    pub stdout_capacity: usize,
    /// Bytes that the guest's memory may grow to; `None` where only the engine limits it.
    pub memory_bytes: Option<usize>,
    /// What the guest is told of the last call that failed.
    pub last_error: String,
    /// The input of the call, until the guest asks for it.
    pub pending_input: Vec<u8>,
    /// The envelope of the next step of a daemon.
    pub pending_envelope: Vec<u8>,
    /// What the guest replied to a batch of columns.
    pub pending_columnar_reply: Option<Vec<u8>>,
}

impl HostState {
    /// For a guest without input.
    pub fn new(memory_bytes: Option<usize>, stdout_capacity: usize, manifold: Manifold) -> (r: Self)
        ensures
            r.manifold == manifold,
            r.stdout_capacity == stdout_capacity,
            r.memory_bytes == memory_bytes,
            r.last_error@ == Seq::<char>::empty(),
            r.pending_input@ == Seq::<u8>::empty(),
            r.pending_envelope@ == Seq::<u8>::empty(),
            r.pending_columnar_reply is None,
    {
        let last_error = String::new();
        assert(last_error@ =~= Seq::<char>::empty());
        HostState {
            manifold,
            stdout_capacity,
            memory_bytes,
            last_error,
            pending_input: Vec::new(),
            pending_envelope: Vec::new(),
            pending_columnar_reply: None,
        }
    }

    /// For a guest with this input.
    pub fn new_with_input(
        input: Vec<u8>,
        memory_bytes: Option<usize>,
        stdout_capacity: usize,
        manifold: Manifold,
    ) -> (r: Self)
        ensures
            r.manifold == manifold,
            r.stdout_capacity == stdout_capacity,
            r.memory_bytes == memory_bytes,
            r.last_error@ == Seq::<char>::empty(),
            r.pending_input == input,
            r.pending_envelope@ == Seq::<u8>::empty(),
            r.pending_columnar_reply is None,
    {
        let mut s = HostState::new(memory_bytes, stdout_capacity, manifold);
        s.pending_input = input;
        s
    }

    /// Answers a call for what the host itself keeps; `None` for any other function.
    pub fn own_answer(&self, i: Import) -> (r: Option<Answer>)
        ensures
            match i {
                Import::LastError => r matches Some(a) && a@ == AnswerView::Out(
                    encode_utf8(self.last_error@),
                ),
                Import::GetInput => r matches Some(a) && a@ == AnswerView::Out(self.pending_input@),
                Import::GetEnvelope => r matches Some(a) && a@ == AnswerView::Out(
                    self.pending_envelope@,
                ),
                Import::GetInputLen => r matches Some(a) && a@ == AnswerView::Number(
                    if self.pending_input@.len() <= i32::MAX {
                        self.pending_input@.len() as i64
                    } else {
                        -1i64
                    },
                ),
                _ => r is None,
            },
    {
        match i {
            Import::LastError => Some(Answer::Out(bytes_of(&self.last_error))),
            Import::GetInput => {
                let copy = slice_of(&self.pending_input, 0, self.pending_input.len());
                assert(copy@ =~= self.pending_input@);
                Some(Answer::Out(copy))
            },
            Import::GetEnvelope => {
                let copy = slice_of(&self.pending_envelope, 0, self.pending_envelope.len());
                assert(copy@ =~= self.pending_envelope@);
                Some(Answer::Out(copy))
            },
            Import::GetInputLen => Some(
                Answer::Number(input_length(self.pending_input.len()) as i64),
            ),
            _ => None,
        }
    }

    /// Takes the guest's reply to a batch of columns: zero, or the code where it has none at that
    /// place. A reply takes the place of one before it.
    pub fn columnar_reply(&mut self, memory: Option<&[u8]>, ptr: i64, len: i64) -> (r: i32)
        ensures
            r == 0 || r == E_OTHER,
            r == 0 <==> len >= 0 && (memory matches Some(m) && bytes_at(
                m@,
                ptr as int,
                len as int,
            ) is Some),
            r == 0 ==> (final(self).pending_columnar_reply matches Some(b) && Some(b@) == bytes_at(
                memory->0@,
                ptr as int,
                len as int,
            )) && final(self).last_error@ == old(self).last_error@,
            r != 0 ==> final(self).pending_columnar_reply == old(self).pending_columnar_reply
                && final(self).last_error@ == (if len < 0 {
                "columnar reply: negative blob_len"@
            } else if memory is None {
                old(self).last_error@
            } else {
                "columnar reply: blob slice out of bounds"@
            }),
            final(self).manifold == old(self).manifold,
            final(self).pending_input == old(self).pending_input,
            final(self).pending_envelope == old(self).pending_envelope,
    {
        match columnar_reply_bytes(memory, ptr, len, &mut self.last_error) {
            Ok(b) => {
                self.pending_columnar_reply = Some(b);
                0
            },
            Err(code) => code,
        }
    }

    /// Takes the reply out, once.
    pub fn take_columnar_reply(&mut self) -> (r: Option<Vec<u8>>)
        ensures
            r == old(self).pending_columnar_reply,
            final(self).pending_columnar_reply is None,
            final(self).last_error == old(self).last_error,
            final(self).pending_input == old(self).pending_input,
            final(self).pending_envelope == old(self).pending_envelope,
            final(self).manifold == old(self).manifold,
    {
        self.pending_columnar_reply.take()
    }
}

} // verus!
