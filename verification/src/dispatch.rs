//! The job dispatcher: owns the pool, the random-bit generator and an
//! ordered collection of channels, and services at most one job per
//! invocation, rotating fairly across channels.
//!
//! A channel is a capability — non-blocking receive, fallible send — so the
//! same dispatcher runs over a static queue pair or a socket-backed stream.
use vstd::prelude::*;

use crate::gcm::{encrypt, decrypt, spec_encrypt, spec_decrypt, CipherSuite};
use crate::jobs::{ChannelError, ErrorKind, ReqModel, Request, RespModel, Response};
use crate::limits::{GCM_TAG_SIZE, KEY128_SIZE, KEY256_SIZE, MAX_PLAINTEXT_SIZE, MAX_RANDOM_SIZE, SEED_SIZE};
use crate::pool::{BufferKind, Pool, POOL_SIZE};
use crate::rng::{next_counter, rng_output, Rng};
use vstd::std_specs::vec::vec_index_mut;

verus! {

/// What one `process_next` invocation reports: one job serviced, or no job
/// found anywhere.
#[derive(Clone, Copy, Debug, PartialEq, Eq, Structural)]
pub enum Progress {
    /// Exactly one pending job was serviced.
    Serviced,
    /// No channel had a pending request.
    Idle,
}

/// A condition fatal to the current invocation: the serviced job's response
/// could not be delivered and was dropped.
#[derive(Clone, Copy, Debug, PartialEq, Eq, Structural)]
pub enum CoreError {
    /// The channel's outbound half refused the response.
    ChannelSend,
}

/// One client's bidirectional link to the dispatcher. The dispatcher sees
/// only this capability, never a concrete transport; the two views list the
/// requests pending on the inbound half and the responses accepted by the
/// outbound half, oldest first.
pub trait Channel: Sized {
    /// Requests received on this channel and not yet taken, oldest first.
    spec fn inbox(&self) -> Seq<ReqModel>;

    /// Responses accepted for delivery on this channel, oldest first.
    spec fn outbox(&self) -> Seq<RespModel>;

    /// Non-blocking receive: the oldest pending request, or `None` — never
    /// blocking — when nothing is pending.
    fn try_receive(&mut self) -> (r: Option<Request>)
        ensures
            r is None ==> old(self).inbox().len() == 0 && final(self).inbox() == old(self).inbox()
                && final(self).outbox() == old(self).outbox(),
            r matches Some(req) ==> old(self).inbox().len() > 0 && req.model() == old(self).inbox()[0] && final(self).inbox() == old(self).inbox().drop_first() && final(self).outbox() == old(self).outbox(),
    ;

    /// Fallible, non-blocking send: the response is either accepted in
    /// order, or refused — outbound capacity exhausted — leaving the
    /// channel unchanged.
    fn send(&mut self, resp: Response) -> (r: Result<(), ChannelError>)
        ensures
            final(self).inbox() == old(self).inbox(),
            r is Ok ==> final(self).outbox() == old(self).outbox().push(resp.model()),
            r is Err ==> final(self).outbox() == old(self).outbox(),
    ;
}

/// What the crypto engine answers for an encryption request, the cipher
/// suite selected by the key length.
pub open spec fn request_encrypt_result(
    key: Seq<u8>,
    nonce: Seq<u8>,
    aad: Seq<u8>,
    plaintext: Seq<u8>,
) -> Result<Seq<u8>, ErrorKind> {
    if key.len() == KEY128_SIZE {
        spec_encrypt(CipherSuite::Aes128Gcm, key, nonce, aad, plaintext)
    } else if key.len() == KEY256_SIZE {
        spec_encrypt(CipherSuite::Aes256Gcm, key, nonce, aad, plaintext)
    } else {
        Err(ErrorKind::InvalidKeySize)
    }
}

/// What the crypto engine answers for a decryption request, the cipher
/// suite selected by the key length.
pub open spec fn request_decrypt_result(
    key: Seq<u8>,
    nonce: Seq<u8>,
    aad: Seq<u8>,
    ciphertext: Seq<u8>,
) -> Result<Seq<u8>, ErrorKind> {
    if key.len() == KEY128_SIZE {
        spec_decrypt(CipherSuite::Aes128Gcm, key, nonce, aad, ciphertext)
    } else if key.len() == KEY256_SIZE {
        spec_decrypt(CipherSuite::Aes256Gcm, key, nonce, aad, ciphertext)
    } else {
        Err(ErrorKind::InvalidKeySize)
    }
}

/// The one response the dispatcher owes for `req`, given the generator's
/// key and counter when the job starts. A pool checkout the arena cannot
/// back is answered with `AllocationFailed` before the engine is invoked.
pub open spec fn response_model(req: ReqModel, key: Seq<u8>, ctr: u64) -> RespModel {
    match req {
        ReqModel::GetRandom { size } => if size > MAX_RANDOM_SIZE as nat {
            RespModel::Error(ErrorKind::AllocationFailed)
        } else {
            RespModel::GetRandom { data: rng_output(key, ctr, size) }
        },
        ReqModel::Encrypt { key: k, nonce, aad, plaintext } => if plaintext.len()
            > MAX_PLAINTEXT_SIZE as nat {
            RespModel::Error(ErrorKind::AllocationFailed)
        } else {
            match request_encrypt_result(k, nonce, aad, plaintext) {
                Ok(c) => RespModel::Encrypt { ciphertext: c },
                Err(e) => RespModel::Error(e),
            }
        },
        ReqModel::Decrypt { key: k, nonce, aad, ciphertext } => if ciphertext.len() > (
        MAX_PLAINTEXT_SIZE + GCM_TAG_SIZE) as nat {
            RespModel::Error(ErrorKind::AllocationFailed)
        } else {
            match request_decrypt_result(k, nonce, aad, ciphertext) {
                Ok(p) => RespModel::Decrypt { plaintext: p },
                Err(e) => RespModel::Error(e),
            }
        },
    }
}

/// The generator's counter after servicing `req`: it advances exactly when
/// the job drew random output.
pub open spec fn counter_after(req: ReqModel, ctr: u64) -> u64 {
    match req {
        ReqModel::GetRandom { size } => if size <= MAX_RANDOM_SIZE as nat {
            next_counter(ctr)
        } else {
            ctr
        },
        _ => ctr,
    }
}

/// `i` reduced into `[0, len)`, for `0 <= i < 2 * len`.
pub open spec fn wrap_index(i: int, len: int) -> int {
    if i >= len {
        i - len
    } else {
        i
    }
}

/// The first channel at rotation offset `off` or later, starting from
/// `start`, whose inbox is not empty.
pub open spec fn find_pending(inboxes: Seq<Seq<ReqModel>>, start: int, off: int) -> Option<int>
    decreases inboxes.len() - off,
{
    if off < 0 || off >= inboxes.len() {
        None
    } else {
        let idx = wrap_index(start + off, inboxes.len() as int);
        if inboxes[idx].len() > 0 {
            Some(idx)
        } else {
            find_pending(inboxes, start, off + 1)
        }
    }
}

/// Executes one job to completion: checks out the pool buffer backing the
/// response payload, invokes the matching engine operation, and releases
/// the buffer whether the job succeeded or failed.
pub fn execute_job(pool: &mut Pool, rng: &mut Rng, req: Request) -> (resp: Response)
    requires
        old(pool).wf(),
        old(pool).outstanding == 0,
        old(pool).capacity == POOL_SIZE,
        old(rng).wf(),
    ensures
        final(pool).wf(),
        final(pool).outstanding == 0,
        final(pool).capacity == POOL_SIZE,
        final(rng).wf(),
        final(rng).key@ == old(rng).key@,
        final(rng).counter == counter_after(req.model(), old(rng).counter),
        resp.model() == response_model(req.model(), old(rng).key@, old(rng).counter),
{
    match req {
        Request::GetRandom { size } => {
            match pool.checkout(BufferKind::Random, size) {
                Err(e) => Response::Error(e),
                Ok(mut buf) => {
                    rng.fill_into(&mut buf.data);
                    let data = buf.take();
                    pool.release(buf);
                    Response::GetRandom { data }
                },
            }
        },
        Request::Encrypt { key, nonce, aad, plaintext } => {
            if plaintext.len() > MAX_PLAINTEXT_SIZE {
                return Response::Error(ErrorKind::AllocationFailed);
            }
            match pool.checkout(BufferKind::Ciphertext, plaintext.len() + GCM_TAG_SIZE) {
                Err(e) => Response::Error(e),
                Ok(mut buf) => {
                    let outcome = if key.len() == KEY128_SIZE {
                        encrypt(
                            CipherSuite::Aes128Gcm,
                            key.as_slice(),
                            nonce.as_slice(),
                            aad.as_slice(),
                            plaintext.as_slice(),
                        )
                    } else if key.len() == KEY256_SIZE {
                        encrypt(
                            CipherSuite::Aes256Gcm,
                            key.as_slice(),
                            nonce.as_slice(),
                            aad.as_slice(),
                            plaintext.as_slice(),
                        )
                    } else {
                        Err(ErrorKind::InvalidKeySize)
                    };
                    match outcome {
                        Ok(ciphertext) => {
                            buf.data = ciphertext;
                            let data = buf.take();
                            pool.release(buf);
                            Response::Encrypt { ciphertext: data }
                        },
                        Err(e) => {
                            pool.release(buf);
                            Response::Error(e)
                        },
                    }
                },
            }
        },
        Request::Decrypt { key, nonce, aad, ciphertext } => {
            if ciphertext.len() > MAX_PLAINTEXT_SIZE + GCM_TAG_SIZE {
                return Response::Error(ErrorKind::AllocationFailed);
            }
            let out_size = if ciphertext.len() >= GCM_TAG_SIZE {
                ciphertext.len() - GCM_TAG_SIZE
            } else {
                0
            };
            match pool.checkout(BufferKind::Plaintext, out_size) {
                Err(e) => Response::Error(e),
                Ok(mut buf) => {
                    let outcome = if key.len() == KEY128_SIZE {
                        decrypt(
                            CipherSuite::Aes128Gcm,
                            key.as_slice(),
                            nonce.as_slice(),
                            aad.as_slice(),
                            ciphertext.as_slice(),
                        )
                    } else if key.len() == KEY256_SIZE {
                        decrypt(
                            CipherSuite::Aes256Gcm,
                            key.as_slice(),
                            nonce.as_slice(),
                            aad.as_slice(),
                            ciphertext.as_slice(),
                        )
                    } else {
                        Err(ErrorKind::InvalidKeySize)
                    };
                    match outcome {
                        Ok(plaintext) => {
                            buf.data = plaintext;
                            let data = buf.take();
                            pool.release(buf);
                            Response::Decrypt { plaintext: data }
                        },
                        Err(e) => {
                            pool.release(buf);
                            Response::Error(e)
                        },
                    }
                },
            }
        },
    }
}

/// The job dispatcher: the pool, the generator, the ordered channel
/// collection, and the rotation cursor — the position the next search for
/// a pending request starts from.
pub struct Core<C> {
    /// The arena backing every job's buffers.
    pub pool: Pool,
    /// The generator serving `GetRandom` jobs.
    pub rng: Rng,
    /// One channel per connected client, registered at construction.
    pub channels: Vec<C>,
    /// The channel the next rotation starts from.
    pub next_channel: usize,
}

impl<C: Channel> Core<C> {
    /// The pending requests of every channel, by channel position.
    pub open spec fn inboxes(&self) -> Seq<Seq<ReqModel>> {
        self.channels@.map_values(|c: C| c.inbox())
    }

    /// The accepted responses of every channel, by channel position.
    pub open spec fn outboxes(&self) -> Seq<Seq<RespModel>> {
        self.channels@.map_values(|c: C| c.outbox())
    }

    /// Between invocations the pool has nothing checked out, the generator
    /// is seeded, and the rotation cursor points at a channel.
    pub open spec fn wf(&self) -> bool {
        &&& self.pool.wf()
        &&& self.pool.outstanding == 0
        &&& self.pool.capacity == POOL_SIZE
        &&& self.rng.wf()
        &&& (self.channels@.len() == 0 ==> self.next_channel == 0)
        &&& (self.channels@.len() > 0 ==> (self.next_channel as int) < self.channels@.len())
    }

    /// The channel the next invocation will service: the first, in rotation
    /// order from the cursor, with a pending request.
    pub open spec fn serviced_channel(&self) -> Option<int> {
        find_pending(self.inboxes(), self.next_channel as int, 0)
    }

    /// A dispatcher over the given channels, with a fresh arena and a
    /// generator seeded from the given 256-bit seed.
    pub fn new(seed: &[u8], channels: Vec<C>) -> (r: Core<C>)
        requires
            seed@.len() == SEED_SIZE,
        ensures
            r.wf(),
            r.channels == channels,
            r.rng.key@ == seed@,
            r.rng.counter == 0,
            r.next_channel == 0,
    {
        Core { pool: Pool::new(), rng: Rng::new(seed), channels, next_channel: 0 }
    }

    /// Services at most one job: the first channel in rotation order with a
    /// pending request has its oldest request taken, executed, and answered
    /// with exactly one response on the same channel; the cursor then moves
    /// past that channel, so no channel can starve another. With no pending
    /// request anywhere it reports `Idle` and changes nothing. A refused
    /// send is fatal for the invocation: the response is dropped and the
    /// error reported to the caller.
    pub fn process_next(&mut self) -> (r: Result<Progress, CoreError>)
        requires
            old(self).wf(),
        ensures
            final(self).wf(),
            final(self).channels@.len() == old(self).channels@.len(),
            final(self).rng.key@ == old(self).rng.key@,
            old(self).serviced_channel() is None ==> r == Ok::<Progress, CoreError>(Progress::Idle)
                && final(self).inboxes() == old(self).inboxes() && final(self).outboxes() == old(self).outboxes() && final(self).next_channel == old(self).next_channel && final(self).rng
                == old(self).rng,
            r == Ok::<Progress, CoreError>(Progress::Idle) ==> old(self).serviced_channel() is None,
            old(self).serviced_channel() matches Some(j) ==> ({
                let req = old(self).inboxes()[j][0];
                &&& 0 <= j < old(self).channels@.len()
                &&& old(self).inboxes()[j].len() > 0
                &&& final(self).inboxes() == old(self).inboxes().update(
                    j,
                    old(self).inboxes()[j].drop_first(),
                )
                &&& final(self).next_channel as int == wrap_index(
                    j + 1,
                    old(self).channels@.len() as int,
                )
                &&& final(self).rng.counter == counter_after(req, old(self).rng.counter)
                &&& (r is Ok ==> r == Ok::<Progress, CoreError>(Progress::Serviced) && final(self).outboxes() == old(self).outboxes().update(
                    j,
                    old(self).outboxes()[j].push(
                        response_model(req, old(self).rng.key@, old(self).rng.counter),
                    ),
                ))
                &&& (r is Err ==> r == Err::<Progress, CoreError>(CoreError::ChannelSend) && final(self).outboxes() == old(self).outboxes())
            }),
    {
        let len = self.channels.len();
        if len == 0 {
            return Ok(Progress::Idle);
        }
        let start = self.next_channel;
        let mut off: usize = 0;
        while off < len
            invariant
                old(self).wf(),
                len == self.channels@.len(),
                len == old(self).channels@.len(),
                len > 0,
                start == old(self).next_channel,
                (start as int) < len as int,
                off <= len,
                self.pool == old(self).pool,
                self.rng == old(self).rng,
                self.next_channel == old(self).next_channel,
                forall|c: int|
                    0 <= c < len ==> #[trigger] self.channels@[c].inbox() == old(self).inboxes()[c],
                forall|c: int|
                    0 <= c < len ==> #[trigger] self.channels@[c].outbox() == old(
                        self,
                    ).outboxes()[c],
                find_pending(old(self).inboxes(), start as int, 0) == find_pending(
                    old(self).inboxes(),
                    start as int,
                    off as int,
                ),
            decreases len - off,
        {
            let idx = if off < len - start {
                start + off
            } else {
                off - (len - start)
            };
            proof {
                assert(idx as int == wrap_index(start as int + off as int, len as int));
                assert(old(self).inboxes()[idx as int] == self.channels@[idx as int].inbox());
            }
            let received = {
                let ch = vec_index_mut(&mut self.channels, idx);
                ch.try_receive()
            };
            match received {
                None => {
                    proof {
                        assert(find_pending(old(self).inboxes(), start as int, off as int)
                            == find_pending(old(self).inboxes(), start as int, off as int + 1));
                    }
                    off += 1;
                },
                Some(req) => {
                    proof {
                        assert(find_pending(old(self).inboxes(), start as int, off as int)
                            == Some(idx as int));
                    }
                    let ghost req_model = req.model();
                    let ghost old_inboxes = old(self).inboxes();
                    let ghost old_outboxes = old(self).outboxes();
                    let resp = execute_job(&mut self.pool, &mut self.rng, req);
                    let ghost resp_model = resp.model();
                    let sent = {
                        let ch = vec_index_mut(&mut self.channels, idx);
                        ch.send(resp)
                    };
                    self.next_channel = if idx + 1 == len {
                        0
                    } else {
                        idx + 1
                    };
                    proof {
                        assert(self.inboxes() =~= old_inboxes.update(
                            idx as int,
                            old_inboxes[idx as int].drop_first(),
                        ));
                        if sent is Ok {
                            assert(self.outboxes() =~= old_outboxes.update(
                                idx as int,
                                old_outboxes[idx as int].push(resp_model),
                            ));
                        } else {
                            assert(self.outboxes() =~= old_outboxes);
                        }
                    }
                    return match sent {
                        Ok(()) => Ok(Progress::Serviced),
                        Err(_) => Err(CoreError::ChannelSend),
                    };
                },
            }
        }
        proof {
            assert(find_pending(old(self).inboxes(), start as int, len as int) is None);
            assert(self.inboxes() =~= old(self).inboxes());
            assert(self.outboxes() =~= old(self).outboxes());
        }
        Ok(Progress::Idle)
    }
}

/// A channel over a pair of in-memory queues: the direct realization used
/// when client and dispatcher share an address space. The outbound queue is
/// bounded; a send beyond its capacity is refused.
pub struct QueueChannel {
    /// Requests enqueued by the client and not yet taken.
    pub incoming: Vec<Request>,
    /// Responses produced by the dispatcher and not yet taken.
    pub outgoing: Vec<Response>,
    /// How many responses the outbound queue can hold.
    pub outgoing_capacity: usize,
}

impl QueueChannel {
    /// An empty channel whose outbound queue holds up to
    /// `outgoing_capacity` responses.
    pub fn new(outgoing_capacity: usize) -> (c: QueueChannel)
        ensures
            c.inbox() == Seq::<ReqModel>::empty(),
            c.outbox() == Seq::<RespModel>::empty(),
            c.outgoing_capacity == outgoing_capacity,
    {
        let c = QueueChannel { incoming: Vec::new(), outgoing: Vec::new(), outgoing_capacity };
        proof {
            assert(c.inbox() =~= Seq::<ReqModel>::empty());
            assert(c.outbox() =~= Seq::<RespModel>::empty());
        }
        c
    }

    /// Client side: enqueues a request for the dispatcher.
    pub fn push_request(&mut self, req: Request)
        ensures
            final(self).inbox() == old(self).inbox().push(req.model()),
            final(self).outbox() == old(self).outbox(),
            final(self).outgoing_capacity == old(self).outgoing_capacity,
    {
        let ghost req_model = req.model();
        self.incoming.push(req);
        proof {
            assert(self.inbox() =~= old(self).inbox().push(req_model));
            assert(self.outbox() =~= old(self).outbox());
        }
    }

    /// Client side: takes the oldest delivered response, if any.
    pub fn pop_response(&mut self) -> (r: Option<Response>)
        ensures
            final(self).inbox() == old(self).inbox(),
            final(self).outgoing_capacity == old(self).outgoing_capacity,
            r is None ==> old(self).outbox().len() == 0 && final(self).outbox() == old(
                self,
            ).outbox(),
            r matches Some(resp) ==> old(self).outbox().len() > 0 && resp.model() == old(
                self,
            ).outbox()[0] && final(self).outbox() == old(self).outbox().drop_first(),
    {
        if self.outgoing.len() > 0 {
            let resp = self.outgoing.remove(0);
            proof {
                assert(self.outbox() =~= old(self).outbox().drop_first());
                assert(self.inbox() =~= old(self).inbox());
            }
            Some(resp)
        } else {
            None
        }
    }
}

impl Channel for QueueChannel {
    open spec fn inbox(&self) -> Seq<ReqModel> {
        self.incoming@.map_values(|q: Request| q.model())
    }

    open spec fn outbox(&self) -> Seq<RespModel> {
        self.outgoing@.map_values(|p: Response| p.model())
    }

    fn try_receive(&mut self) -> (r: Option<Request>) {
        if self.incoming.len() > 0 {
            let req = self.incoming.remove(0);
            proof {
                assert(self.inbox() =~= old(self).inbox().drop_first());
                assert(self.outbox() =~= old(self).outbox());
            }
            Some(req)
        } else {
            None
        }
    }

    fn send(&mut self, resp: Response) -> (r: Result<(), ChannelError>) {
        if self.outgoing.len() < self.outgoing_capacity {
            let ghost resp_model = resp.model();
            self.outgoing.push(resp);
            proof {
                assert(self.outbox() =~= old(self).outbox().push(resp_model));
                assert(self.inbox() =~= old(self).inbox());
            }
            Ok(())
        } else {
            Err(ChannelError::QueueFull)
        }
    }
}

/// One dispatch step on the ghost state `process_next` is specified by:
/// the first pending channel in rotation order loses its oldest request
/// and the cursor moves past it; with nothing pending, nothing changes.
pub open spec fn step_state(inboxes: Seq<Seq<ReqModel>>, next: int) -> (Seq<Seq<ReqModel>>, int) {
    match find_pending(inboxes, next, 0) {
        Some(j) => (
            inboxes.update(j, inboxes[j].drop_first()),
            wrap_index(j + 1, inboxes.len() as int),
        ),
        None => (inboxes, next),
    }
}

/// The ghost state after `n` dispatch steps.
pub open spec fn run_steps(inboxes: Seq<Seq<ReqModel>>, next: int, n: nat) -> (
    Seq<Seq<ReqModel>>,
    int,
)
    decreases n,
{
    if n == 0 {
        (inboxes, next)
    } else {
        let prev = run_steps(inboxes, next, (n - 1) as nat);
        step_state(prev.0, prev.1)
    }
}

/// How far `c` lies from `start` in rotation order.
pub open spec fn rotation_distance(c: int, start: int, len: int) -> int {
    if c >= start {
        c - start
    } else {
        c + len - start
    }
}

/// Round-robin fairness: with `k` channels each holding exactly one pending
/// request, the `i`-th of `k` consecutive dispatches services channel
/// `start + i` reduced modulo `k` — every channel exactly once, in rotation
/// order, the channels already served being exactly those within rotation
/// distance `i` of the start.
pub proof fn lemma_round_robin(inboxes: Seq<Seq<ReqModel>>, start: int, i: int)
    requires
        0 <= start < inboxes.len(),
        forall|c: int| 0 <= c < inboxes.len() ==> #[trigger] inboxes[c].len() == 1,
        0 <= i < inboxes.len(),
    ensures
        ({
            let s = run_steps(inboxes, start, i as nat);
            let len = inboxes.len() as int;
            &&& s.0.len() == inboxes.len()
            &&& s.1 == wrap_index(start + i, len)
            &&& forall|c: int|
                0 <= c < len ==> #[trigger] s.0[c].len() == (if rotation_distance(c, start, len)
                    < i {
                    0nat
                } else {
                    1nat
                })
            &&& find_pending(s.0, s.1, 0) == Some(wrap_index(start + i, len))
        }),
    decreases i,
{
    let len = inboxes.len() as int;
    if i == 0 {
        assert(run_steps(inboxes, start, 0) == (inboxes, start));
        assert(wrap_index(start + 0, len) == start);
        assert(inboxes[start].len() == 1);
        assert(find_pending(inboxes, start, 0) == Some(start));
    } else {
        lemma_round_robin(inboxes, start, i - 1);
        let prev = run_steps(inboxes, start, (i - 1) as nat);
        let s = run_steps(inboxes, start, i as nat);
        assert(s == step_state(prev.0, prev.1));
        let jprev = wrap_index(start + (i - 1), len);
        assert(find_pending(prev.0, prev.1, 0) == Some(jprev));
        assert(s.0 == prev.0.update(jprev, prev.0[jprev].drop_first()));
        assert(rotation_distance(jprev, start, len) == i - 1);
        assert(prev.0[jprev].len() == 1);
        assert(prev.0[jprev].drop_first().len() == 0);
        assert forall|c: int| 0 <= c < len implies #[trigger] s.0[c].len() == (
        if rotation_distance(c, start, len) < i {
            0nat
        } else {
            1nat
        }) by {
            if c == jprev {
            } else {
                assert(s.0[c] == prev.0[c]);
                assert(rotation_distance(c, start, len) != i - 1);
            }
        }
        let j = wrap_index(start + i, len);
        assert(s.1 == wrap_index(jprev + 1, len));
        assert(s.1 == j);
        assert(rotation_distance(j, start, len) == i);
        assert(s.0[j].len() == 1);
        assert(find_pending(s.0, s.1, 0) == Some(j));
    }
}

/// After a full rotation over `k` channels each holding one pending
/// request, every inbox is empty: no request was skipped and none was
/// taken twice.
pub proof fn lemma_round_robin_complete(inboxes: Seq<Seq<ReqModel>>, start: int)
    requires
        0 <= start < inboxes.len(),
        forall|c: int| 0 <= c < inboxes.len() ==> #[trigger] inboxes[c].len() == 1,
    ensures
        ({
            let s = run_steps(inboxes, start, inboxes.len());
            &&& s.0.len() == inboxes.len()
            &&& forall|c: int| 0 <= c < inboxes.len() ==> #[trigger] s.0[c].len() == 0
        }),
{
    let len = inboxes.len() as int;
    let k = len - 1;
    lemma_round_robin(inboxes, start, k);
    let prev = run_steps(inboxes, start, k as nat);
    let s = run_steps(inboxes, start, inboxes.len());
    assert(s == step_state(prev.0, prev.1));
    let jlast = wrap_index(start + k, len);
    assert(s.0 == prev.0.update(jlast, prev.0[jlast].drop_first()));
    assert forall|c: int| 0 <= c < len implies #[trigger] s.0[c].len() == 0 by {
        if c == jlast {
        } else {
            assert(s.0[c] == prev.0[c]);
            assert(rotation_distance(c, start, len) < k);
        }
    }
}

} // verus!
