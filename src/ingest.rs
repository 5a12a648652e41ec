//! The peripheral's ingest pipeline: the receive interrupt queues bytes, and
//! the worker drains them through a request decoder and answers reads.
use vstd::prelude::*;

use crate::frame::{addresses_peer, decode_header, header_of, read_frame, PEER_ADDRESS};
use crate::queue::{IngestQueue, INGEST_CAPACITY};
use crate::registers::{
    lookup_register,
    register_at,
    respond,
    response_for,
    Register,
    RegisterInputs,
    Response,
};

verus! {

/// Where the decoder stands within the request stream.
#[derive(Clone, Copy, Debug, PartialEq, Eq, Structural)]
pub enum DecoderState {
    /// Waiting for an address byte that names the peer.
    Idle,
    /// The address byte has come; the register byte is next.
    HeaderPartial { first: u8 },
    /// A write header has come; its length byte is next.
    WriteLength,
    /// Skipping the rest of a write's payload.
    WritePayload { remaining: u8 },
}

/// One byte through the decoder: the next state, and the register that a
/// complete read request for a known register asks for.
///
/// A byte that does not name the peer cannot start a request and is dropped
/// alone, so the decoder finds the next request after any such noise. A read
/// of an unknown register is abandoned. A write is consumed, payload and all,
/// and not answered.
pub open spec fn step(s: DecoderState, byte: u8) -> (DecoderState, Option<Register>) {
    match s {
        DecoderState::Idle => {
            if addresses_peer(byte) {
                (DecoderState::HeaderPartial { first: byte }, None)
            } else {
                (DecoderState::Idle, None)
            }
        },
        DecoderState::HeaderPartial { first } => {
            if header_of(first, byte).read {
                (DecoderState::Idle, register_at(byte))
            } else {
                (DecoderState::WriteLength, None)
            }
        },
        DecoderState::WriteLength => {
            if byte == 0 {
                (DecoderState::Idle, None)
            } else {
                (DecoderState::WritePayload { remaining: byte }, None)
            }
        },
        DecoderState::WritePayload { remaining } => {
            if remaining <= 1 {
                (DecoderState::Idle, None)
            } else {
                (DecoderState::WritePayload { remaining: (remaining - 1) as u8 }, None)
            }
        },
    }
}

/// The sequence holding `o`'s value, if it has one.
pub open spec fn opt_seq(o: Option<Register>) -> Seq<Register> {
    match o {
        Some(r) => seq![r],
        None => Seq::empty(),
    }
}

/// The decoder run over `bytes` from `s`: the final state and the registers
/// asked for, in order.
pub open spec fn run(s: DecoderState, bytes: Seq<u8>) -> (DecoderState, Seq<Register>)
    decreases bytes.len(),
{
    if bytes.len() == 0 {
        (s, Seq::empty())
    } else {
        let (mid, regs) = run(s, bytes.drop_last());
        let (next, out) = step(mid, bytes.last());
        (next, regs + opt_seq(out))
    }
}

/// Advances the decoder by one byte.
pub fn decode_step(s: DecoderState, byte: u8) -> (r: (DecoderState, Option<Register>))
    ensures
        r == step(s, byte),
{
    match s {
        DecoderState::Idle => {
            proof {
                assert((byte & 0x7F) == byte % 0x80) by (bit_vector);
            }
            if byte & 0x7F == PEER_ADDRESS {
                (DecoderState::HeaderPartial { first: byte }, None)
            } else {
                (DecoderState::Idle, None)
            }
        },
        DecoderState::HeaderPartial { first } => {
            let header = decode_header(first, byte);
            if header.read {
                (DecoderState::Idle, lookup_register(header.register))
            } else {
                (DecoderState::WriteLength, None)
            }
        },
        DecoderState::WriteLength => {
            if byte == 0 {
                (DecoderState::Idle, None)
            } else {
                (DecoderState::WritePayload { remaining: byte }, None)
            }
        },
        DecoderState::WritePayload { remaining } => {
            if remaining <= 1 {
                (DecoderState::Idle, None)
            } else {
                (DecoderState::WritePayload { remaining: remaining - 1 }, None)
            }
        },
    }
}

/// Feeding `a` and then `b` leaves the decoder where feeding `a + b` at once
/// does, and asks for the same registers: how the bytes are split into
/// deliveries does not matter, down to one byte at a time.
pub proof fn lemma_run_concat(s: DecoderState, a: Seq<u8>, b: Seq<u8>)
    ensures
        run(s, a + b) == (run(run(s, a).0, b).0, run(s, a).1 + run(run(s, a).0, b).1),
    decreases b.len(),
{
    if b.len() == 0 {
        assert(a + b =~= a);
        assert(run(s, a).1 + Seq::<Register>::empty() =~= run(s, a).1);
    } else {
        assert((a + b).drop_last() =~= a + b.drop_last());
        assert((a + b).last() == b.last());
        lemma_run_concat(s, a, b.drop_last());
        let mid = run(s, a).0;
        let (m2, r2) = run(mid, b.drop_last());
        let (n, o) = step(m2, b.last());
        assert(run(s, a).1 + r2 + opt_seq(o) =~= run(s, a).1 + (r2 + opt_seq(o)));
    }
}

/// From an idle decoder, a read request for a known register asks for
/// exactly that register, whose response has the register's width, and
/// leaves the decoder idle.
pub proof fn lemma_read_request_answered_once(register: u8, inputs: RegisterInputs)
    requires
        register_at(register) is Some,
    ensures
        run(DecoderState::Idle, read_frame(register)) == (
        DecoderState::Idle,
        seq![register_at(register)->Some_0],
        ),
        response_for(register_at(register)->Some_0, inputs).bytes_spec().len()
            == register_at(register)->Some_0.width_spec(),
{
    crate::frame::lemma_read_round_trip(register);
    let f = read_frame(register);
    assert(f.drop_last() =~= seq![f[0]]);
    assert(seq![f[0]].drop_last() =~= Seq::<u8>::empty());
    assert(run(DecoderState::Idle, Seq::<u8>::empty()) == (DecoderState::Idle, Seq::<Register>::empty()));
    assert(run(DecoderState::Idle, seq![f[0]]).0 == DecoderState::HeaderPartial { first: f[0] });
    assert(run(DecoderState::Idle, seq![f[0]]).1 =~= Seq::<Register>::empty());
    assert(Seq::<Register>::empty() + opt_seq(register_at(register)) =~= seq![
        register_at(register)->Some_0,
    ]);
}

/// From an idle decoder, a two-byte header whose address byte does not name
/// the peer asks for nothing.
pub proof fn lemma_foreign_header_unanswered(b0: u8, b1: u8)
    requires
        !addresses_peer(b0),
    ensures
        run(DecoderState::Idle, seq![b0, b1]).1.len() == 0,
{
    assert(seq![b0, b1].drop_last() =~= seq![b0]);
    assert(seq![b0].drop_last() =~= Seq::<u8>::empty());
    assert(run(DecoderState::Idle, Seq::<u8>::empty()) == (DecoderState::Idle, Seq::<Register>::empty()));
    assert(run(DecoderState::Idle, seq![b0]) == (DecoderState::Idle, Seq::<Register>::empty()));
    let (mid, regs) = run(DecoderState::Idle, seq![b0]);
    assert(run(DecoderState::Idle, seq![b0, b1]).1 =~= regs + opt_seq(step(mid, b1).1));
}

/// Bytes that do not name the peer leave an idle decoder idle and ask for
/// nothing.
pub proof fn lemma_noise_ignored(noise: Seq<u8>)
    requires
        forall|i: int| 0 <= i < noise.len() ==> !addresses_peer(#[trigger] noise[i]),
    ensures
        run(DecoderState::Idle, noise) == (DecoderState::Idle, Seq::<Register>::empty()),
    decreases noise.len(),
{
    if noise.len() > 0 {
        let rest = noise.drop_last();
        assert forall|i: int| 0 <= i < rest.len() implies !addresses_peer(#[trigger] rest[i]) by {
            assert(rest[i] == noise[i]);
        }
        lemma_noise_ignored(rest);
        assert(!addresses_peer(noise[noise.len() - 1]));
        assert(Seq::<Register>::empty() + opt_seq(None) =~= Seq::<Register>::empty());
    }
}

/// After any run of bytes that do not name the peer, the next read request
/// for a known register is still answered, exactly once.
pub proof fn lemma_resync_after_noise(noise: Seq<u8>, register: u8)
    requires
        forall|i: int| 0 <= i < noise.len() ==> !addresses_peer(#[trigger] noise[i]),
        register_at(register) is Some,
    ensures
        run(DecoderState::Idle, noise + read_frame(register)) == (
        DecoderState::Idle,
        seq![register_at(register)->Some_0],
        ),
{
    lemma_noise_ignored(noise);
    lemma_run_concat(DecoderState::Idle, noise, read_frame(register));
    lemma_read_request_answered_once(register, RegisterInputs { adc: 0, sample_rate: 0 });
    assert(Seq::<Register>::empty() + seq![register_at(register)->Some_0] =~= seq![
        register_at(register)->Some_0,
    ]);
}

/// The signals that wake the worker.
#[derive(Clone, Copy, Debug, PartialEq, Eq, Structural)]
pub enum Signal {
    /// Shut the worker down.
    Stop,
    /// Bytes have been queued.
    DataReady,
}

/// What the worker does after handling a signal.
#[derive(Debug)]
pub enum WorkerAction {
    /// Leave the worker loop; the queue has been released.
    Exit,
    /// Write each response on the link, in order.
    Serve(Vec<Response>),
}

/// The responses to the registers asked for, in order.
pub open spec fn responses(regs: Seq<Register>, inputs: RegisterInputs) -> Seq<Response> {
    regs.map_values(|r: Register| response_for(r, inputs))
}

/// The peripheral's ingest pipeline. It owns the queue and the decoder; the
/// interrupt side only calls `receive_byte`, the worker only `handle_signal`.
pub struct IngestPipeline {
    queue: IngestQueue,
    state: DecoderState,
    stopped: bool,
}

impl IngestPipeline {
    /// The queue and decoder hold together.
    pub closed spec fn wf(&self) -> bool {
        self.queue.wf()
    }

    /// The bytes queued and not yet decoded, oldest first.
    pub closed spec fn pending(&self) -> Seq<u8> {
        self.queue@
    }

    /// The decoder's state.
    pub closed spec fn decoder(&self) -> DecoderState {
        self.state
    }

    /// Whether the worker has been stopped.
    pub closed spec fn is_stopped(&self) -> bool {
        self.stopped
    }

    /// A running pipeline with an empty queue and an idle decoder.
    pub fn new() -> (p: IngestPipeline)
        ensures
            p.wf(),
            p.pending() == Seq::<u8>::empty(),
            p.decoder() == DecoderState::Idle,
            !p.is_stopped(),
    {
        IngestPipeline { queue: IngestQueue::new(), state: DecoderState::Idle, stopped: false }
    }

    /// The receive interrupt's work for one byte: queue it, without decoding
    /// or blocking. A full queue, or a stopped worker, drops the byte. The
    /// caller raises `Signal::DataReady` toward the worker afterwards.
    pub fn receive_byte(&mut self, byte: u8) -> (stored: bool)
        requires
            old(self).wf(),
        ensures
            final(self).wf(),
            stored == (!old(self).is_stopped() && old(self).pending().len() < INGEST_CAPACITY),
            stored ==> final(self).pending() == old(self).pending().push(byte),
            !stored ==> final(self).pending() == old(self).pending(),
            final(self).decoder() == old(self).decoder(),
            final(self).is_stopped() == old(self).is_stopped(),
    {
        if self.stopped {
            return false;
        }
        self.queue.push(byte)
    }

    /// Whether the worker has been stopped.
    pub fn stopped(&self) -> (r: bool)
        ensures
            r == self.is_stopped(),
    {
        self.stopped
    }

    /// The worker's work for one signal. `Stop` releases the queue and ends
    /// the worker; `DataReady` drains every queued byte through the decoder
    /// and answers each complete read of a known register with `inputs`.
    pub fn handle_signal(&mut self, signal: Signal, inputs: &RegisterInputs) -> (r: WorkerAction)
        requires
            old(self).wf(),
        ensures
            final(self).wf(),
            final(self).pending() == Seq::<u8>::empty(),
            (signal == Signal::Stop || old(self).is_stopped()) ==> {
                &&& r is Exit
                &&& final(self).is_stopped()
                &&& final(self).decoder() == old(self).decoder()
            },
            (signal == Signal::DataReady && !old(self).is_stopped()) ==> {
                &&& r is Serve
                &&& r->Serve_0@ == responses(run(old(self).decoder(), old(self).pending()).1, *inputs)
                &&& final(self).decoder() == run(old(self).decoder(), old(self).pending()).0
                &&& !final(self).is_stopped()
            },
    {
        if self.stopped || signal == Signal::Stop {
            self.stopped = true;
            self.queue.clear();
            return WorkerAction::Exit;
        }
        let ghost start = self.state;
        let ghost all = self.queue@;
        let mut out: Vec<Response> = Vec::new();
        let mut n: usize = self.queue.len();
        while n > 0
            invariant
                self.queue.wf(),
                n == self.queue@.len(),
                n <= all.len(),
                self.queue@ == all.subrange(all.len() - n, all.len() as int),
                run(start, all.subrange(0, all.len() - n)).0 == self.state,
                out@ == responses(run(start, all.subrange(0, all.len() - n)).1, *inputs),
                !self.stopped,
            decreases n,
        {
            let ghost done = all.subrange(0, all.len() - n);
            let byte = match self.queue.pop() {
                Some(b) => b,
                None => 0,
            };
            let (next, asked) = decode_step(self.state, byte);
            proof {
                let k = all.len() - n;
                assert(byte == all[k]);
                assert(all.subrange(0, k + 1).drop_last() =~= done);
                assert(all.subrange(0, k + 1).last() == byte);
                assert(self.queue@ =~= all.subrange(k + 1, all.len() as int));
            }
            self.state = next;
            match asked {
                Some(reg) => {
                    out.push(respond(reg, inputs));
                },
                None => {},
            }
            proof {
                let k = all.len() - n;
                let regs = run(start, done).1;
                assert(run(start, all.subrange(0, k + 1)).1 == regs + opt_seq(asked));
                assert(out@ =~= responses(regs + opt_seq(asked), *inputs));
            }
            n = n - 1;
        }
        proof {
            assert(all.subrange(0, all.len() as int) =~= all);
        }
        WorkerAction::Serve(out)
    }
}

} // verus!
