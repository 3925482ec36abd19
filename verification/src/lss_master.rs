//! The LSS master: the fast scan that finds the identity of an unconfigured node bit by bit.
use vstd::prelude::*;
use crate::protocol::lss::{LssIdentity, LssRequest, LssState};

verus! {

/// An error of the LSS master.
#[derive(Clone, Copy, Debug, PartialEq, Eq, Structural)]
pub enum LssError {
    /// No LSS response came in time
    Timeout,
    /// The slave refused a ConfigBitTiming command
    BitTimingConfigError {
        /// The error code: 1 for an unsupported bit rate, 255 for a manufacturer error
        error: u8,
        /// The manufacturer specific error code, meaningful when error is 255
        spec_error: u8,
    },
    /// The slave refused a ConfigNodeId command
    NodeIdConfigError {
        /// The error code: 1 for an invalid node ID, 255 for a manufacturer error
        error: u8,
        /// The manufacturer specific error code, meaningful when error is 255
        spec_error: u8,
    },
    /// The slave refused a StoreConfiguration command
    NodeStoreConfigError {
        /// The error code: 1 when storing is not supported, 255 for a manufacturer error
        error: u8,
        /// The manufacturer specific error code, meaningful when error is 255
        spec_error: u8,
    },
    /// The node ID is not from 1 to 127
    InvalidNodeIdError,
}

/// A master of the LSS protocol, with the sender and receiver a driver uses.
pub struct LssMaster<S, R> {
    /// The sender of frames to the bus
    pub sender: S,
    /// The receiver of frames from the bus
    pub receiver: R,
}

impl<S, R> LssMaster<S, R> {
    /// Creates a master.
    pub fn new(sender: S, receiver: R) -> (r: Self)
        ensures
            r.sender == sender,
            r.receiver == receiver,
    {
        LssMaster { sender, receiver }
    }

    /// Returns the request that puts all nodes into `mode`; no response is expected.
    pub fn global_mode_request(mode: LssState) -> (r: LssRequest)
        ensures
            r == (LssRequest::SwitchModeGlobal { mode: mode.spec_raw() }),
    {
        LssRequest::SwitchModeGlobal { mode: mode.raw() }
    }
}

/// The state of a fast scan.
#[derive(Clone, Copy, Debug)]
pub struct FastScan {
    /// The identity words found so far
    pub id: [u32; 4],
    /// The word being scanned
    pub sub: u8,
    /// The bit being checked
    pub bit_check: u8,
    /// The word a node goes on to after a confirmed word
    pub next: u8,
    /// The scan waits for the confirmation of a whole word
    pub confirming: bool,
}

/// What a fast scan asks for next.
#[derive(Clone, Copy, Debug, PartialEq, Eq, Structural)]
pub enum FastScanStep {
    /// Send this query, wait the whole timeout, then report whether any node answered
    Query(LssRequest),
    /// The identity of a node was found
    Found(LssIdentity),
    /// No node confirmed a word
    NotFound,
}

/// The state of a fast scan, with its words as a sequence.
pub struct ScanView {
    /// The identity words found so far
    pub id: Seq<u32>,
    /// The word being scanned
    pub sub: u8,
    /// The bit being checked
    pub bit_check: u8,
    /// The word a node goes on to after a confirmed word
    pub next: u8,
    /// The scan waits for the confirmation of a whole word
    pub confirming: bool,
}

/// The query of a state: the word so far, the bit, the word index and the next one.
pub open spec fn query_of(v: ScanView) -> LssRequest {
    LssRequest::FastScan { id: v.id[v.sub as int], bit_check: v.bit_check, sub: v.sub, next: v.next }
}

/// The identity of four words: vendor, product, revision, serial.
pub open spec fn identity_of(words: Seq<u32>) -> LssIdentity {
    LssIdentity { vendor_id: words[0], product_code: words[1], revision: words[2], serial: words[3] }
}

/// The step after a query was answered (`responded`) or not. A bit no node answered for is set
/// in the word; after bit 0 the word is confirmed with the next word index; an unconfirmed word
/// ends the scan, and the fourth confirmed word gives the identity.
pub open spec fn spec_on_reply(v: ScanView, responded: bool) -> (ScanView, FastScanStep) {
    if !v.confirming {
        let word = if responded {
            v.id[v.sub as int]
        } else {
            v.id[v.sub as int] | (1u32 << v.bit_check)
        };
        let id = v.id.update(v.sub as int, word);
        if v.bit_check > 0 {
            let s = ScanView { id, bit_check: (v.bit_check - 1) as u8, ..v };
            (s, FastScanStep::Query(query_of(s)))
        } else {
            let s = ScanView { id, next: ((v.sub + 1) % 4) as u8, confirming: true, ..v };
            (s, FastScanStep::Query(query_of(s)))
        }
    } else if !responded {
        (v, FastScanStep::NotFound)
    } else if v.sub + 1 == 4 {
        (v, FastScanStep::Found(identity_of(v.id)))
    } else {
        let s = ScanView { sub: (v.sub + 1) as u8, bit_check: 31, confirming: false, ..v };
        (s, FastScanStep::Query(query_of(s)))
    }
}

impl FastScan {
    /// The state with its words as a sequence.
    pub open spec fn view(self) -> ScanView {
        ScanView { id: self.id@, sub: self.sub, bit_check: self.bit_check, next: self.next, confirming: self.confirming }
    }

    /// The scan is in a state it can reach.
    pub open spec fn wf(self) -> bool {
        &&& self.sub < 4
        &&& self.bit_check < 32
        &&& self.next < 4
        &&& self.confirming ==> self.bit_check == 0
    }

    /// Starts a scan: all words zero, word 0, bit 31.
    pub fn start() -> (r: (FastScan, FastScanStep))
        ensures
            r.0.wf(),
            r.0.view() == (ScanView { id: seq![0u32, 0u32, 0u32, 0u32], sub: 0, bit_check: 31, next: 0, confirming: false }),
            r.1 == FastScanStep::Query(query_of(r.0.view())),
    {
        let s = FastScan { id: [0u32, 0u32, 0u32, 0u32], sub: 0, bit_check: 31, next: 0, confirming: false };
        assert(s.id@ =~= seq![0u32, 0u32, 0u32, 0u32]);
        (s, FastScanStep::Query(s.query()))
    }

    /// Returns the query of the current state.
    pub fn query(&self) -> (r: LssRequest)
        requires
            self.wf(),
        ensures
            r == query_of(self.view()),
    {
        LssRequest::FastScan { id: self.id[self.sub as usize], bit_check: self.bit_check, sub: self.sub, next: self.next }
    }

    /// Reports whether any node answered the last query, and returns what comes next.
    pub fn on_reply(&mut self, responded: bool) -> (r: FastScanStep)
        requires
            old(self).wf(),
        ensures
            final(self).wf(),
            (final(self).view(), r) == spec_on_reply(old(self).view(), responded),
    {
        if !self.confirming {
            let s = self.sub as usize;
            if !responded {
                let word = self.id[s] | (1u32 << self.bit_check);
                self.id[s] = word;
            }
            assert(self.id@ =~= old(self).id@.update(
                old(self).sub as int,
                if responded {
                    old(self).id@[old(self).sub as int]
                } else {
                    old(self).id@[old(self).sub as int] | (1u32 << old(self).bit_check)
                },
            ));
            if self.bit_check > 0 {
                self.bit_check = self.bit_check - 1;
            } else {
                self.next = (self.sub + 1) % 4;
                self.confirming = true;
            }
            FastScanStep::Query(self.query())
        } else if !responded {
            FastScanStep::NotFound
        } else if self.sub + 1 == 4 {
            FastScanStep::Found(LssIdentity::new(self.id[0], self.id[1], self.id[2], self.id[3]))
        } else {
            self.sub = self.sub + 1;
            self.bit_check = 31;
            self.confirming = false;
            FastScanStep::Query(self.query())
        }
    }
}


/// A lone node with identity words `x` answers a query when its word `sub` agrees with the
/// query's word in every bit from `bit_check` up.
pub open spec fn answers(x: Seq<u32>, v: ScanView) -> bool {
    (x[v.sub as int] ^ v.id[v.sub as int]) >> v.bit_check == 0
}

/// The scan after `n` replies of a lone node with identity words `x`, from state `v`: the state
/// and the last step; once the scan has ended it stays ended.
pub open spec fn scan_run(x: Seq<u32>, v: ScanView, n: nat) -> (ScanView, FastScanStep)
    decreases n,
{
    if n == 0 {
        (v, FastScanStep::Query(query_of(v)))
    } else {
        let (w, step) = spec_on_reply(v, answers(x, v));
        if step is Query {
            scan_run(x, w, (n - 1) as nat)
        } else {
            (w, step)
        }
    }
}

/// The bits of `x` above bit `b`.
pub open spec fn bits_above(x: u32, b: u32) -> u32 {
    x & !(0xFFFF_FFFFu32 >> ((31u32 - b) as u32))
}

/// A reply to the query of bit `b` (from 1 to 31) makes the known bits reach down to `b`.
proof fn lemma_bit_step(x: u32, b: u8)
    by (bit_vector)
    requires
        1 <= b <= 31,
    ensures
        (x ^ bits_above(x, b as u32)) >> b == 0 ==> bits_above(x, b as u32) == bits_above(x, (b - 1) as u32),
        (x ^ bits_above(x, b as u32)) >> b != 0 ==> (bits_above(x, b as u32) | (1u32 << b)) == bits_above(
            x,
            (b - 1) as u32,
        ),
{
}

/// A reply to the query of bit 0 makes the word whole, and the word then answers its
/// confirmation.
proof fn lemma_last_bit(x: u32)
    by (bit_vector)
    ensures
        (x ^ bits_above(x, 0)) >> 0u8 == 0 ==> bits_above(x, 0) == x,
        (x ^ bits_above(x, 0)) >> 0u8 != 0 ==> (bits_above(x, 0) | (1u32 << 0u8)) == x,
        (x ^ x) >> 0u8 == 0,
        bits_above(x, 31) == 0,
{
}

/// Running `n` then `m` replies is running `n + m`.
proof fn lemma_run_add(x: Seq<u32>, v: ScanView, n: nat, m: nat)
    ensures
        scan_run(x, v, n + m) == (if scan_run(x, v, n).1 is Query {
            scan_run(x, scan_run(x, v, n).0, m)
        } else {
            scan_run(x, v, n)
        }),
    decreases n,
{
    if n > 0 {
        let (w, step) = spec_on_reply(v, answers(x, v));
        if step is Query {
            lemma_run_add(x, w, (n - 1) as nat, m);
            assert((n + m - 1) as nat == ((n - 1) as nat) + m);
        }
    }
}

/// From bit `b` of word `s`, with the bits above `b` known, `b + 1` replies find the whole word
/// and ask for its confirmation.
proof fn lemma_word_bits(x: Seq<u32>, v: ScanView)
    requires
        x.len() == 4,
        v.id.len() == 4,
        v.sub < 4,
        v.bit_check < 32,
        !v.confirming,
        v.id[v.sub as int] == bits_above(x[v.sub as int], v.bit_check as u32),
    ensures
        ({
            let w = ScanView {
                id: v.id.update(v.sub as int, x[v.sub as int]),
                bit_check: 0,
                next: ((v.sub + 1) % 4) as u8,
                confirming: true,
                ..v
            };
            scan_run(x, v, (v.bit_check + 1) as nat) == (w, FastScanStep::Query(query_of(w)))
        }),
    decreases v.bit_check,
{
    let s = v.sub as int;
    let b = v.bit_check;
    let (v1, step) = spec_on_reply(v, answers(x, v));
    let w = ScanView {
        id: v.id.update(s, x[s]),
        bit_check: 0,
        next: ((v.sub + 1) % 4) as u8,
        confirming: true,
        ..v
    };
    assert(step is Query);
    assert(scan_run(x, v, (b + 1) as nat) == scan_run(x, v1, b as nat));
    if b == 0 {
        lemma_last_bit(x[s]);
        assert(v1.id =~= w.id);
        assert(v1 == w);
    } else {
        lemma_bit_step(x[s], b);
        assert(v1.id[s] == bits_above(x[s], (b - 1) as u32));
        lemma_word_bits(x, v1);
        assert(v1.id.update(s, x[s]) =~= w.id);
    }
}

/// A whole word: from the start of word `s` with the words before it found, 33 replies find the
/// word and move on to the next, or give the identity after the last word.
proof fn lemma_word(x: Seq<u32>, v: ScanView)
    requires
        x.len() == 4,
        v.id.len() == 4,
        v.sub < 4,
        v.bit_check == 31,
        !v.confirming,
        v.id[v.sub as int] == 0,
        forall|k: int| 0 <= k < v.sub ==> v.id[k] == x[k],
    ensures
        v.sub < 3 ==> scan_run(x, v, 33) == ({
            let w = ScanView {
                id: v.id.update(v.sub as int, x[v.sub as int]),
                sub: (v.sub + 1) as u8,
                bit_check: 31,
                next: ((v.sub + 1) % 4) as u8,
                confirming: false,
            };
            (w, FastScanStep::Query(query_of(w)))
        }),
        v.sub == 3 ==> scan_run(x, v, 33).1 == FastScanStep::Found(identity_of(x)),
{
    let s = v.sub as int;
    lemma_last_bit(x[s]);
    lemma_word_bits(x, v);
    lemma_run_add(x, v, 32, 1);
    let w = ScanView {
        id: v.id.update(s, x[s]),
        bit_check: 0,
        next: ((v.sub + 1) % 4) as u8,
        confirming: true,
        ..v
    };
    assert(answers(x, w));
    assert(scan_run(x, v, 32) == (w, FastScanStep::Query(query_of(w))));
    let (w2, step2) = spec_on_reply(w, true);
    assert(scan_run(x, w, 1) == (if step2 is Query { scan_run(x, w2, 0) } else { (w2, step2) }));
    if v.sub == 3 {
        assert(w.id =~= x);
        assert(identity_of(w.id) == identity_of(x));
    }
}

/// A fast scan with a lone unconfigured node on the bus finds that node's identity: after 132
/// replies, 33 for each of the four words, the scan ends with the node's identity.
pub proof fn lemma_fast_scan_finds_lone_node(x: Seq<u32>)
    requires
        x.len() == 4,
    ensures
        scan_run(x, ScanView { id: seq![0u32, 0u32, 0u32, 0u32], sub: 0, bit_check: 31, next: 0, confirming: false }, 132).1
            == FastScanStep::Found(identity_of(x)),
{
    let v0 = ScanView { id: seq![0u32, 0u32, 0u32, 0u32], sub: 0, bit_check: 31, next: 0, confirming: false };
    lemma_word(x, v0);
    let v1 = ScanView { id: v0.id.update(0, x[0]), sub: 1, bit_check: 31, next: 1, confirming: false };
    lemma_word(x, v1);
    let v2 = ScanView { id: v1.id.update(1, x[1]), sub: 2, bit_check: 31, next: 2, confirming: false };
    lemma_word(x, v2);
    let v3 = ScanView { id: v2.id.update(2, x[2]), sub: 3, bit_check: 31, next: 3, confirming: false };
    lemma_word(x, v3);
    lemma_run_add(x, v0, 33, 99);
    lemma_run_add(x, v1, 33, 66);
    lemma_run_add(x, v2, 33, 33);
}

} // verus!
