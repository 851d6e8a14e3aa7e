//! The mathematical model of a PCM source: a stream of bytes, cut into
//! frames, and a cursor that counts the frames already served.
use crate::wave_format::WaveFormat;
use vstd::prelude::*;

verus! {

/// What a source is, seen from outside: its format, the bytes of its stream
/// and the number of frames served since the stream was last at its start.
pub struct PcmSource {
    pub format: WaveFormat,
    /// The PCM stream: frame zero starts at index zero. Bytes beyond the last
    /// whole frame are never served.
    pub pcm: Seq<u8>,
    /// The cursor, in frames.
    pub position: nat,
}

/// `len` bytes of silence.
pub open spec fn silence(len: nat) -> Seq<u8> {
    Seq::new(len, |i: int| 0u8)
}

impl PcmSource {
    /// Bytes per frame.
    pub open spec fn block_align(self) -> nat {
        self.format.block_align_bytes as nat
    }

    /// Number of whole frames in the stream.
    pub open spec fn total_frames(self) -> nat {
        (self.pcm.len() as int / self.block_align() as int) as nat
    }

    /// The format is fit for playback and the cursor is inside the stream.
    pub open spec fn wf(self) -> bool {
        &&& self.format.wf()
        &&& self.position <= self.total_frames()
    }

    /// Number of frames between the cursor and the end of the stream.
    pub open spec fn remaining_frames(self) -> nat {
        (self.total_frames() - self.position) as nat
    }

    /// Whether a request for `requested` frames asks for more than is left.
    pub open spec fn runs_dry(self, requested: nat) -> bool {
        requested > self.remaining_frames()
    }

    /// Number of frames that a request for `requested` frames gets from the
    /// stream.
    pub open spec fn served(self, requested: nat) -> nat {
        if self.runs_dry(requested) {
            self.remaining_frames()
        } else {
            requested
        }
    }

    /// The bytes of `count` frames, from frame `first` on.
    pub open spec fn frames(self, first: nat, count: nat) -> Seq<u8> {
        self.pcm.subrange(
            (first * self.block_align()) as int,
            ((first + count) * self.block_align()) as int,
        )
    }

    /// The buffer that a request for `requested` frames is answered with: the
    /// frames that the stream still has, then silence.
    pub open spec fn filled(self, requested: nat) -> Seq<u8> {
        self.frames(self.position, self.served(requested)) + silence(
            ((requested - self.served(requested)) * self.block_align()) as nat,
        )
    }

    /// The source after a request in bounded mode: the cursor has moved past
    /// the frames served and stays at the end once it is there.
    pub open spec fn after_bounded(self, requested: nat) -> PcmSource {
        PcmSource { position: self.position + self.served(requested), ..self }
    }

    /// The source after a request in looping mode: a request that runs dry
    /// puts the cursor back to frame zero.
    pub open spec fn after_looping(self, requested: nat) -> PcmSource {
        PcmSource {
            position: if self.runs_dry(requested) {
                0
            } else {
                self.position + requested
            },
            ..self
        }
    }

    /// The source after a sequence of requests in looping mode.
    pub open spec fn looped(self, requests: Seq<nat>) -> PcmSource
        decreases requests.len(),
    {
        if requests.len() == 0 {
            self
        } else {
            self.looped(requests.drop_last()).after_looping(requests.last())
        }
    }

    /// The buffers that a sequence of requests in looping mode is answered
    /// with, in order.
    pub open spec fn looped_buffers(self, requests: Seq<nat>) -> Seq<Seq<u8>>
        decreases requests.len(),
    {
        if requests.len() == 0 {
            Seq::empty()
        } else {
            self.looped_buffers(requests.drop_last()).push(
                self.looped(requests.drop_last()).filled(requests.last()),
            )
        }
    }

    /// The frames of a stream fit into it: the byte offset of the end of the
    /// last whole frame is no more than the length of the stream.
    pub proof fn lemma_frames_in_stream(self, first: nat, count: nat)
        requires
            self.format.wf(),
            first + count <= self.total_frames(),
        ensures
            first * self.block_align() <= (first + count) * self.block_align(),
            (first + count) * self.block_align() <= self.pcm.len(),
            self.frames(first, count).len() == count * self.block_align(),
    {
        let ba: int = self.block_align() as int;
        let len: int = self.pcm.len() as int;
        let total: int = len / ba;
        let a: int = first as int;
        let c: int = count as int;
        assert(total * ba <= len) by (nonlinear_arith)
            requires
                ba > 0,
                len >= 0,
                total == len / ba,
        ;
        assert(a * ba <= (a + c) * ba && (a + c) * ba <= total * ba && (a + c) * ba - a * ba == c
            * ba) by (nonlinear_arith)
            requires
                ba > 0,
                0 <= a,
                0 <= c,
                a + c <= total,
        ;
    }

    /// A filled buffer is as long as the request, in bytes.
    pub proof fn lemma_filled_len(self, requested: nat)
        requires
            self.wf(),
        ensures
            self.filled(requested).len() == requested * self.block_align(),
            self.served(requested) <= requested,
            self.position + self.served(requested) <= self.total_frames(),
    {
        let ba: int = self.block_align() as int;
        let s: int = self.served(requested) as int;
        let r: int = requested as int;
        self.lemma_frames_in_stream(self.position, self.served(requested));
        assert(s * ba + (r - s) * ba == r * ba && (r - s) * ba >= 0) by (nonlinear_arith)
            requires
                ba > 0,
                0 <= s <= r,
        ;
    }

    /// Both modes keep the source well formed.
    pub proof fn lemma_after_wf(self, requested: nat)
        requires
            self.wf(),
        ensures
            self.after_bounded(requested).wf(),
            self.after_looping(requested).wf(),
    {
    }

    /// A request that the stream can meet is answered from the stream alone,
    /// without a byte of silence, and moves the cursor by as many frames as
    /// were asked for, in either mode.
    pub proof fn lemma_request_within_stream(self, requested: nat)
        requires
            self.wf(),
            requested <= self.remaining_frames(),
        ensures
            self.filled(requested) == self.frames(self.position, requested),
            self.after_bounded(requested).position == self.position + requested,
            self.after_looping(requested).position == self.position + requested,
    {
        assert(silence(0) =~= Seq::<u8>::empty());
        assert(0 * self.block_align() == 0);
        assert(self.filled(requested) =~= self.frames(self.position, requested));
    }

    /// A request in bounded mode that asks for more than is left is answered
    /// with the frames that are left and then zeros for every frame that is
    /// missing; the cursor ends at the end of the stream.
    pub proof fn lemma_request_beyond_stream(self, requested: nat)
        requires
            self.wf(),
            self.runs_dry(requested),
        ensures
            self.filled(requested).len() == requested * self.block_align(),
            self.filled(requested).subrange(
                0,
                (self.remaining_frames() * self.block_align()) as int,
            ) == self.frames(self.position, self.remaining_frames()),
            self.filled(requested).subrange(
                (self.remaining_frames() * self.block_align()) as int,
                (requested * self.block_align()) as int,
            ) == silence(((requested - self.remaining_frames()) * self.block_align()) as nat),
            self.after_bounded(requested).position == self.total_frames(),
            self.after_bounded(requested).remaining_frames() == 0,
    {
        self.lemma_filled_len(requested);
        self.lemma_frames_in_stream(self.position, self.remaining_frames());
        let head = self.frames(self.position, self.remaining_frames());
        let tail = silence(((requested - self.remaining_frames()) * self.block_align()) as nat);
        assert(self.filled(requested) == head + tail);
        assert((head + tail).subrange(0, head.len() as int) =~= head);
        assert((head + tail).subrange(head.len() as int, (head + tail).len() as int) =~= tail);
    }

    /// In looping mode a request that runs dry rewinds the source, so the
    /// request after it is answered from frame zero of the stream.
    pub proof fn lemma_rewind(self, requested: nat, next: nat)
        requires
            self.wf(),
            self.runs_dry(requested),
        ensures
            self.after_looping(requested).position == 0,
            self.after_looping(requested).remaining_frames() == self.total_frames(),
            self.after_looping(requested).filled(next).subrange(
                0,
                (self.after_looping(requested).served(next) * self.block_align()) as int,
            ) == self.frames(0, self.after_looping(requested).served(next)),
    {
        let rewound = self.after_looping(requested);
        rewound.lemma_filled_len(next);
        rewound.lemma_frames_in_stream(0, rewound.served(next));
        let head = rewound.frames(0, rewound.served(next));
        let tail = silence(((next - rewound.served(next)) * rewound.block_align()) as nat);
        assert(rewound.filled(next) == head + tail);
        assert((head + tail).subrange(0, head.len() as int) =~= head);
    }

    /// Requests made one after another can be split at any point.
    pub proof fn lemma_looped_concat(self, first: Seq<nat>, second: Seq<nat>)
        ensures
            self.looped(first + second) == self.looped(first).looped(second),
            self.looped_buffers(first + second) == self.looped_buffers(first)
                + self.looped(first).looped_buffers(second),
        decreases second.len(),
    {
        if second.len() == 0 {
            assert(first + second =~= first);
            assert(self.looped_buffers(first) + Seq::<Seq<u8>>::empty() =~= self.looped_buffers(
                first,
            ));
        } else {
            let shorter = second.drop_last();
            self.lemma_looped_concat(first, shorter);
            assert((first + second).drop_last() =~= first + shorter);
            assert((first + second).last() == second.last());
            let mid = self.looped(first);
            assert(self.looped_buffers(first + second) =~= self.looped_buffers(first)
                + mid.looped_buffers(second));
        }
    }

    /// A sequence of requests in looping mode keeps the source well formed.
    pub proof fn lemma_looped_wf(self, requests: Seq<nat>)
        requires
            self.wf(),
        ensures
            self.looped(requests).wf(),
            self.looped(requests).format == self.format,
            self.looped(requests).pcm == self.pcm,
        decreases requests.len(),
    {
        if requests.len() > 0 {
            self.lemma_looped_wf(requests.drop_last());
        }
    }

    /// Replay in looping mode: a cycle of requests that starts at frame zero
    /// and whose last request runs dry leaves the source as it found it, so a
    /// second cycle of the same requests is answered with the same buffers,
    /// byte for byte.
    pub proof fn lemma_replay(self, cycle: Seq<nat>)
        requires
            self.wf(),
            self.position == 0,
            cycle.len() > 0,
            self.looped(cycle.drop_last()).runs_dry(cycle.last()),
        ensures
            self.looped(cycle) == self,
            self.looped_buffers(cycle + cycle) == self.looped_buffers(cycle) + self.looped_buffers(
                cycle,
            ),
            self.looped(cycle + cycle) == self,
    {
        self.lemma_looped_wf(cycle.drop_last());
        self.lemma_looped_concat(cycle, cycle);
    }
}

} // verus!
