//! SDO block transfers: the frames of the block protocol and the decisions of block downloads
//! and uploads.
//!
//! As with the other SDO transfers, a block transfer is a state machine: the caller performs the
//! action it asks for (send a frame, pause, wait for a frame) and hands back what happened.
use vstd::prelude::*;
use crate::can::{CanId, CanMessage};
use crate::le_bytes::{le_u16, le_u32, u16_from_le, u16_le, u16_to_le, u32_from_le, u32_le, u32_to_le};
use crate::protocol::sdo::{AbortCode, SdoRequest, SdoResponse};
use crate::sdo_client::{
    lemma_pad7, lemma_segment_bytes_len, pad7, segment_bytes, segment_count, ExpectedResponse, RawAbortCode, SdoAction,
    SdoClientError, TransferError, SEND_RETRY_PAUSE_MS, SEND_TRIES,
};

verus! {

/// Names the CRC-16/XMODEM checksum (polynomial 0x1021, initial value 0) of a byte sequence.
pub uninterp spec fn crc16_xmodem_of(data: Seq<u8>) -> u16;

/// Calls `crc16::State::<crc16::XMODEM>::calculate`, the CRC-16/XMODEM checksum of the bytes.
#[verifier::external_body]
fn crc16_xmodem(data: &[u8]) -> (r: u16)
    ensures
        r == crc16_xmodem_of(data@),
{
    crc16::State::<crc16::XMODEM>::calculate(data)
}

/// The largest sequence number of a block segment, and the block size a client asks for.
pub const MAX_BLKSIZE: u8 = 127;

/// Eight bytes as a sequence.
pub open spec fn bytes8(b0: u8, b1: u8, b2: u8, b3: u8, b4: u8, b5: u8, b6: u8, b7: u8) -> Seq<u8> {
    seq![b0, b1, b2, b3, b4, b5, b6, b7]
}

/// The request that begins a block download of `size` bytes, with CRC support and the size
/// indicated.
pub open spec fn initiate_block_download_bytes(index: u16, sub: u8, size: u32) -> Seq<u8> {
    bytes8(0xC6, u16_le(index)[0], u16_le(index)[1], sub, u32_le(size)[0], u32_le(size)[1], u32_le(size)[2], u32_le(size)[3])
}

/// The first byte of a block segment: the sequence number, with the top bit set on the last
/// segment.
pub open spec fn segment_header(c: bool, seqnum: u8) -> u8 {
    if c && seqnum < 128 { (seqnum + 128) as u8 } else { seqnum }
}

/// A block segment: the last-segment flag in the top bit of the first byte over the sequence
/// number, then seven bytes of data.
pub open spec fn block_segment_bytes(c: bool, seqnum: u8, data: Seq<u8>) -> Seq<u8> {
    bytes8(segment_header(c, seqnum), data[0], data[1], data[2], data[3], data[4], data[5], data[6])
}

/// The request that ends a block download: the number of unused bytes in the last segment and
/// the CRC.
pub open spec fn end_block_download_bytes(n: u8, crc: u16) -> Seq<u8> {
    bytes8((0xC1 + 4 * n) as u8, u16_le(crc)[0], u16_le(crc)[1], 0, 0, 0, 0, 0)
}

/// The request that begins a block upload, with CRC support, the block size and the protocol
/// switch threshold.
pub open spec fn initiate_block_upload_bytes(index: u16, sub: u8, blksize: u8, pst: u8) -> Seq<u8> {
    bytes8(0xA4, u16_le(index)[0], u16_le(index)[1], sub, blksize, pst, 0, 0)
}

/// The request that starts the segments of a block upload.
pub open spec fn start_block_upload_bytes() -> Seq<u8> {
    bytes8(0xA3, 0, 0, 0, 0, 0, 0, 0)
}

/// The confirmation of a block of an upload: the last sequence number received and the next
/// block size.
pub open spec fn confirm_block_bytes(ackseq: u8, blksize: u8) -> Seq<u8> {
    bytes8(0xA2, ackseq, blksize, 0, 0, 0, 0, 0)
}

/// The request that ends a block upload.
pub open spec fn end_block_upload_bytes() -> Seq<u8> {
    bytes8(0xA1, 0, 0, 0, 0, 0, 0, 0)
}

/// `m` is an eight byte data frame on COB ID `id` with the bytes `b`.
pub open spec fn frame_with(m: CanMessage, id: CanId, b: Seq<u8>) -> bool {
    m.id == id && m.dlc == 8 && !m.rtr && m.data@ == b
}

/// Builds an eight byte data frame.
fn frame8(id: CanId, b: [u8; 8]) -> (m: CanMessage)
    ensures
        frame_with(m, id, b@),
{
    CanMessage { data: b, dlc: 8, rtr: false, id }
}

/// A response of a server during a block transfer.
#[derive(Clone, Copy, Debug, PartialEq, Eq, Structural)]
pub enum BlockResponse {
    /// Confirms the start of a block download
    ConfirmBlockDownload {
        /// Set when the server checks a CRC
        sc: bool,
        /// The object index
        index: u16,
        /// The object sub index
        sub: u8,
        /// The number of segments of a block
        blksize: u8,
    },
    /// Confirms a block of a download
    ConfirmBlock {
        /// The sequence number of the last segment received in order
        ackseq: u8,
        /// The number of segments of the next block
        blksize: u8,
    },
    /// Confirms the end of a block download
    ConfirmBlockDownloadEnd,
    /// Confirms the start of a block upload
    ConfirmBlockUpload {
        /// Set when the server sends a CRC
        sc: bool,
        /// Set when the size is indicated
        s: bool,
        /// The object index
        index: u16,
        /// The object sub index
        sub: u8,
        /// The size, when indicated
        size: u32,
    },
    /// Ends a block upload
    BlockUploadEnd {
        /// The number of unused bytes in the last segment
        n: u8,
        /// The CRC of the data
        crc: u16,
    },
    /// The server aborts the transfer
    Abort {
        /// The object index
        index: u16,
        /// The object sub index
        sub: u8,
        /// The abort code
        abort_code: u32,
    },
}

/// The block transfer response in eight data bytes, if they hold one: the server command
/// specifier is the top three bits of the first byte (4 abort, 5 block download, 6 block
/// upload) and the low bits tell the kind.
pub open spec fn spec_block_response(d: Seq<u8>) -> Option<BlockResponse> {
    let scs = d[0] / 32;
    if scs == 4 {
        Some(BlockResponse::Abort { index: le_u16(d[1], d[2]), sub: d[3], abort_code: le_u32(d[4], d[5], d[6], d[7]) })
    } else if scs == 5 {
        if d[0] % 4 == 0 {
            Some(BlockResponse::ConfirmBlockDownload {
                sc: (d[0] / 4) % 2 == 1,
                index: le_u16(d[1], d[2]),
                sub: d[3],
                blksize: d[4],
            })
        } else if d[0] % 4 == 1 {
            Some(BlockResponse::ConfirmBlockDownloadEnd)
        } else if d[0] % 4 == 2 {
            Some(BlockResponse::ConfirmBlock { ackseq: d[1], blksize: d[2] })
        } else {
            None
        }
    } else if scs == 6 {
        if d[0] % 2 == 0 {
            Some(BlockResponse::ConfirmBlockUpload {
                sc: (d[0] / 4) % 2 == 1,
                s: (d[0] / 2) % 2 == 1,
                index: le_u16(d[1], d[2]),
                sub: d[3],
                size: le_u32(d[4], d[5], d[6], d[7]),
            })
        } else {
            Some(BlockResponse::BlockUploadEnd { n: (d[0] / 4) % 8, crc: le_u16(d[1], d[2]) })
        }
    } else {
        None
    }
}

/// Reads a block transfer response out of the eight data bytes of a frame.
pub fn block_response(msg: &CanMessage) -> (r: Option<BlockResponse>)
    ensures
        r == spec_block_response(msg.data@),
{
    let d = msg.data;
    let scs = d[0] / 32;
    if scs == 4 {
        Some(BlockResponse::Abort {
            index: u16_from_le(d[1], d[2]),
            sub: d[3],
            abort_code: u32_from_le(d[4], d[5], d[6], d[7]),
        })
    } else if scs == 5 {
        if d[0] % 4 == 0 {
            Some(BlockResponse::ConfirmBlockDownload {
                sc: (d[0] / 4) % 2 == 1,
                index: u16_from_le(d[1], d[2]),
                sub: d[3],
                blksize: d[4],
            })
        } else if d[0] % 4 == 1 {
            Some(BlockResponse::ConfirmBlockDownloadEnd)
        } else if d[0] % 4 == 2 {
            Some(BlockResponse::ConfirmBlock { ackseq: d[1], blksize: d[2] })
        } else {
            None
        }
    } else if scs == 6 {
        if d[0] % 2 == 0 {
            Some(BlockResponse::ConfirmBlockUpload {
                sc: (d[0] / 4) % 2 == 1,
                s: (d[0] / 2) % 2 == 1,
                index: u16_from_le(d[1], d[2]),
                sub: d[3],
                size: u32_from_le(d[4], d[5], d[6], d[7]),
            })
        } else {
            Some(BlockResponse::BlockUploadEnd { n: (d[0] / 4) % 8, crc: u16_from_le(d[1], d[2]) })
        }
    } else {
        None
    }
}

/// Why a block transfer failed.
#[derive(Clone, Copy, Debug)]
pub enum BlockError {
    /// One of the failures that any transfer can meet
    Transfer(TransferError),
    /// The server confirmed another object than the one requested
    MismatchedObjectIndex {
        /// The object requested
        expected: (u16, u8),
        /// The object confirmed
        received: (u16, u8),
    },
    /// The server asked to resend part of a block with a block size below what it had received
    BlockSizeChangedTooSmall,
    /// The CRC of an upload did not match its data
    CrcMismatch,
}

/// The failure for a frame on the response COB ID that is not the expected response: a server
/// abort, a response of another kind, or bytes that hold no response.
pub open spec fn unexpected_error(d: Seq<u8>, expecting: ExpectedResponse) -> BlockError {
    match spec_block_response(d) {
        Some(BlockResponse::Abort { index, sub, abort_code }) => BlockError::Transfer(
            TransferError::ServerAbort { index, sub, abort_code: RawAbortCode::spec_from(abort_code) },
        ),
        _ => match SdoResponse::spec_try_from(d) {
            Ok(r) => BlockError::Transfer(TransferError::UnexpectedResponse { expecting, response: r }),
            Err(_) => BlockError::Transfer(TransferError::MalformedResponse),
        },
    }
}

/// Returns the failure for a frame that is not the expected response.
fn unexpected(msg: &CanMessage, expecting: ExpectedResponse) -> (e: BlockError)
    ensures
        e == unexpected_error(msg.data@, expecting),
{
    match block_response(msg) {
        Some(BlockResponse::Abort { index, sub, abort_code }) => BlockError::Transfer(
            TransferError::ServerAbort { index, sub, abort_code: RawAbortCode::from(abort_code) },
        ),
        _ => match SdoResponse::try_from(*msg) {
            Ok(r) => BlockError::Transfer(TransferError::UnexpectedResponse { expecting, response: r }),
            Err(_) => BlockError::Transfer(TransferError::MalformedResponse),
        },
    }
}

/// The client error that stands for a block transfer error.
pub open spec fn block_client_error(e: BlockError, c: SdoClientError) -> bool {
    match e {
        BlockError::Transfer(t) => crate::sdo_client::client_error_of(t, c),
        BlockError::MismatchedObjectIndex { expected, received } => c matches SdoClientError::MismatchedObjectIndex {
            expected: x,
            received: y,
        } && x == expected && y == received,
        BlockError::BlockSizeChangedTooSmall => c is BlockSizeChangedTooSmall,
        BlockError::CrcMismatch => c is CrcMismatch,
    }
}

/// Returns the client error that stands for a block transfer error.
pub fn block_client_error_of(e: BlockError) -> (c: SdoClientError)
    ensures
        block_client_error(e, c),
{
    match e {
        BlockError::Transfer(t) => SdoClientError::from_transfer(t),
        BlockError::MismatchedObjectIndex { expected, received } => SdoClientError::MismatchedObjectIndex {
            expected,
            received,
        },
        BlockError::BlockSizeChangedTooSmall => SdoClientError::BlockSizeChangedTooSmall,
        BlockError::CrcMismatch => SdoClientError::CrcMismatch,
    }
}

/// The stage of a block download.
#[derive(Clone, Copy, Debug, PartialEq, Eq, Structural)]
pub enum BlockDownloadStage {
    /// The initiating request is under way
    Initiate,
    /// The segments are under way
    Segments,
    /// The ending request is under way
    End,
    /// The transfer is over
    Done,
}

/// The block segment that carries segment `k` of a download, with sequence number `seqnum`: its
/// bytes padded to seven, and the last-segment flag set exactly on the last segment.
pub open spec fn download_segment_bytes(data: Seq<u8>, k: int, seqnum: u8) -> Seq<u8> {
    block_segment_bytes(k == segment_count(data.len()) - 1, seqnum, pad7(segment_bytes(data, k))@)
}

/// The number of unused bytes in the last segment of `len` bytes.
pub open spec fn unused_in_last(len: nat) -> u8 {
    ((7 - len % 7) % 7) as u8
}

/// The CRC the end of a download carries: that of the data where the server checks one, else 0.
pub open spec fn download_crc(crc_enabled: bool, data: Seq<u8>) -> u16 {
    if crc_enabled { crc16_xmodem_of(data) } else { 0 }
}

/// The sequence number after `seqnum`; the count wraps after 255.
pub open spec fn next_seqnum(seqnum: u8) -> u8 {
    if seqnum == 255 { 0 } else { (seqnum + 1) as u8 }
}

/// The response a block download waits for in a stage.
pub open spec fn download_expecting(stage: BlockDownloadStage) -> ExpectedResponse {
    match stage {
        BlockDownloadStage::Initiate => ExpectedResponse::ConfirmBlockDownload,
        BlockDownloadStage::Segments => ExpectedResponse::ConfirmBlock,
        _ => ExpectedResponse::ConfirmBlockDownloadEnd,
    }
}

/// A block download of data to one object of an SDO server.
pub struct BlockDownload {
    /// The COB ID of requests
    pub req_cob_id: CanId,
    /// The COB ID of responses
    pub resp_cob_id: CanId,
    /// The object index
    pub index: u16,
    /// The object sub index
    pub sub: u8,
    /// The bytes to download
    pub data: Vec<u8>,
    /// The stage of the transfer
    pub stage: BlockDownloadStage,
    /// Whether the server checks a CRC
    pub crc_enabled: bool,
    /// The number of segments of the current block, as the server set it
    pub blksize: u8,
    /// The segment being sent
    pub segment: usize,
    /// The first segment of the current block
    pub block_start: usize,
    /// The sequence number of the segment being sent
    pub seqnum: u8,
    /// The frame being sent
    pub pending: CanMessage,
    /// The tries left for sending the pending frame
    pub tries_left: u8,
    /// The outcome, once the transfer is over
    pub outcome: Option<Result<(), BlockError>>,
}

impl BlockDownload {
    /// The invariant of a block download: the pending frame is the request of the stage; in the
    /// segments stage the segment lies in the data, at or after the start of the block.
    pub open spec fn wf(&self) -> bool {
        let len = self.data@.len();
        &&& self.tries_left <= 3
        &&& (self.stage == BlockDownloadStage::Done <==> self.outcome is Some)
        &&& (self.stage == BlockDownloadStage::Initiate ==> frame_with(
            self.pending,
            self.req_cob_id,
            initiate_block_download_bytes(self.index, self.sub, len as u32),
        ))
        &&& (self.stage == BlockDownloadStage::Segments ==> {
            &&& self.segment < segment_count(len)
            &&& self.block_start <= self.segment
            &&& frame_with(self.pending, self.req_cob_id, download_segment_bytes(self.data@, self.segment as int, self.seqnum))
        })
        &&& (self.stage == BlockDownloadStage::End ==> frame_with(
            self.pending,
            self.req_cob_id,
            end_block_download_bytes(unused_in_last(len), download_crc(self.crc_enabled, self.data@)),
        ))
    }

    /// After the pending frame is sent a response is awaited: in the initiate and end stages,
    /// and after the last segment of the data or the segment whose sequence number is the block
    /// size.
    pub open spec fn awaits(&self) -> bool {
        ||| self.stage == BlockDownloadStage::Initiate
        ||| self.stage == BlockDownloadStage::End
        ||| (self.stage == BlockDownloadStage::Segments && (self.segment == segment_count(self.data@.len()) - 1
            || self.seqnum == self.blksize))
    }

    /// The parts of a download that never change.
    pub open spec fn same_download(&self, other: &BlockDownload) -> bool {
        &&& self.req_cob_id == other.req_cob_id
        &&& self.resp_cob_id == other.resp_cob_id
        &&& self.index == other.index
        &&& self.sub == other.sub
        &&& self.data@ == other.data@
    }

    /// `self` is `old` finished with `outcome`.
    pub open spec fn finished_from(&self, old: &BlockDownload, outcome: Result<(), BlockError>) -> bool {
        &&& self.same_download(old)
        &&& self.stage == BlockDownloadStage::Done
        &&& self.outcome == Some(outcome)
    }

    /// `self` sends segment `k` as sequence number `seqnum`, in a block that begins at
    /// `block_start`, with new tries.
    pub open spec fn sending_segment(&self, k: int, block_start: int, seqnum: u8) -> bool {
        &&& self.stage == BlockDownloadStage::Segments
        &&& self.segment == k
        &&& self.block_start == block_start
        &&& self.seqnum == seqnum
        &&& self.tries_left == 3
    }

    /// Builds the frame of segment `k` with sequence number `seqnum`.
    fn segment_frame(&self, k: usize, seqnum: u8) -> (m: CanMessage)
        requires
            k < segment_count(self.data@.len()),
        ensures
            frame_with(m, self.req_cob_id, download_segment_bytes(self.data@, k as int, seqnum)),
    {
        proof {
            lemma_segment_bytes_len(self.data@, k as int);
        }
        let len = self.data.len();
        let start = 7 * k;
        let end = if len - start >= 7 { start + 7 } else { len };
        let total = if len % 7 == 0 { len / 7 } else { len / 7 + 1 };
        let c = k + 1 == total;
        let mut buf = [0u8; 8];
        buf[0] = if c && seqnum < 128 { seqnum + 128 } else { seqnum };
        let ghost bytes = segment_bytes(self.data@, k as int);
        assert(bytes =~= self.data@.subrange(start as int, end as int));
        let n = end - start;
        let mut i: usize = 0;
        while i < n
            invariant
                n == end - start,
                n <= 7,
                start + n <= len,
                len == self.data@.len(),
                i <= n,
                buf@.len() == 8,
                buf@[0] == segment_header(c, seqnum),
                forall|j: int| 1 <= j <= i ==> #[trigger] buf@[j] == self.data@[start + j - 1],
                forall|j: int| i < j < 8 ==> #[trigger] buf@[j] == 0,
            decreases n - i,
        {
            buf[i + 1] = self.data[start + i];
            i = i + 1;
        }
        proof {
            lemma_pad7(bytes);
            let p = pad7(bytes)@;
            assert forall|j: int| 1 <= j < 8 implies #[trigger] buf@[j] == p[j - 1] by {
                if j - 1 < n {
                    assert(p[j - 1] == bytes[j - 1]);
                } else {
                    assert(p[j - 1] == 0);
                }
            }
            assert(buf@ =~= download_segment_bytes(self.data@, k as int, seqnum));
        }
        frame8(self.req_cob_id, buf)
    }

    /// Builds the frame that ends the download.
    fn end_frame(&self) -> (m: CanMessage)
        ensures
            frame_with(
                m,
                self.req_cob_id,
                end_block_download_bytes(unused_in_last(self.data@.len()), download_crc(self.crc_enabled, self.data@)),
            ),
    {
        let len = self.data.len();
        let n: u8 = ((7 - len % 7) % 7) as u8;
        let crc: u16 = if self.crc_enabled { crc16_xmodem(self.data.as_slice()) } else { 0 };
        let c = u16_to_le(crc);
        let b = [0xC1u8 + 4 * n, c[0], c[1], 0, 0, 0, 0, 0];
        assert(b@ =~= end_block_download_bytes(n, crc));
        frame8(self.req_cob_id, b)
    }

    /// Begins a block download of `data` to object `index`/`sub`, offering CRC and indicating
    /// the size.
    pub fn new(req_cob_id: CanId, resp_cob_id: CanId, index: u16, sub: u8, data: Vec<u8>) -> (r: (
        BlockDownload,
        SdoAction,
    ))
        ensures
            r.0.wf(),
            r.0.req_cob_id == req_cob_id,
            r.0.resp_cob_id == resp_cob_id,
            r.0.index == index,
            r.0.sub == sub,
            r.0.data@ == data@,
            r.0.stage == BlockDownloadStage::Initiate,
            r.0.tries_left == 3,
            r.1 matches SdoAction::Send(m) && m == r.0.pending,
    {
        #[verifier::truncate]
        let size = data.len() as u32;
        let i = u16_to_le(index);
        let z = u32_to_le(size);
        let b = [0xC6u8, i[0], i[1], sub, z[0], z[1], z[2], z[3]];
        assert(b@ =~= initiate_block_download_bytes(index, sub, size));
        let pending = frame8(req_cob_id, b);
        let t = BlockDownload {
            req_cob_id,
            resp_cob_id,
            index,
            sub,
            data,
            stage: BlockDownloadStage::Initiate,
            crc_enabled: false,
            blksize: 0,
            segment: 0,
            block_start: 0,
            seqnum: 1,
            pending,
            tries_left: SEND_TRIES,
            outcome: None,
        };
        (t, SdoAction::Send(pending))
    }

    fn finish_with(&mut self, outcome: Result<(), BlockError>) -> (a: SdoAction)
        requires
            old(self).wf(),
        ensures
            final(self).wf(),
            final(self).finished_from(old(self), outcome),
            a is Finished,
    {
        self.stage = BlockDownloadStage::Done;
        self.outcome = Some(outcome);
        SdoAction::Finished
    }

    /// Reports that the pending frame was sent: a response is awaited after the initiating and
    /// ending requests, after the last segment of the data and after the segment whose sequence
    /// number equals the block size; otherwise the next segment goes out with the next sequence
    /// number.
    pub fn sent(&mut self) -> (a: SdoAction)
        requires
            old(self).wf(),
            old(self).stage != BlockDownloadStage::Done,
        ensures
            final(self).wf(),
            old(self).awaits() ==> *final(self) == *old(self) && a is Wait,
            !old(self).awaits() ==> final(self).same_download(old(self)) && final(self).sending_segment(
                old(self).segment + 1,
                old(self).block_start as int,
                next_seqnum(old(self).seqnum),
            ) && final(self).crc_enabled == old(self).crc_enabled && final(self).blksize == old(self).blksize
                && final(self).outcome is None && (a matches SdoAction::Send(m) && m == final(self).pending),
    {
        let len = self.data.len();
        let total = if len % 7 == 0 { len / 7 } else { len / 7 + 1 };
        if self.stage != BlockDownloadStage::Segments || self.segment + 1 == total || self.seqnum == self.blksize {
            return SdoAction::Wait;
        }
        let k = self.segment + 1;
        let q: u8 = if self.seqnum == 255 { 0 } else { self.seqnum + 1 };
        self.pending = self.segment_frame(k, q);
        self.segment = k;
        self.seqnum = q;
        self.tries_left = SEND_TRIES;
        SdoAction::Send(self.pending)
    }

    /// Reports that the pending frame could not be sent.
    pub fn send_failed(&mut self) -> (a: SdoAction)
        requires
            old(self).wf(),
            old(self).stage != BlockDownloadStage::Done,
            old(self).tries_left > 0,
        ensures
            final(self).wf(),
            *final(self) == (BlockDownload { tries_left: (old(self).tries_left - 1) as u8, ..*old(self) }),
            a matches SdoAction::Pause(ms) && ms == SEND_RETRY_PAUSE_MS,
    {
        self.tries_left = self.tries_left - 1;
        SdoAction::Pause(SEND_RETRY_PAUSE_MS)
    }

    /// Reports that the pause before the next try is over: the frame goes out again, or the
    /// download fails when no try is left.
    pub fn resume(&mut self) -> (a: SdoAction)
        requires
            old(self).wf(),
            old(self).stage != BlockDownloadStage::Done,
        ensures
            final(self).wf(),
            old(self).tries_left == 0 ==> final(self).finished_from(
                old(self),
                Err(BlockError::Transfer(TransferError::SocketSendFailed)),
            ) && a is Finished,
            old(self).tries_left > 0 ==> *final(self) == *old(self) && (a matches SdoAction::Send(m) && m
                == old(self).pending),
    {
        if self.tries_left == 0 {
            self.finish_with(Err(BlockError::Transfer(TransferError::SocketSendFailed)))
        } else {
            SdoAction::Send(self.pending)
        }
    }

    /// Reports that no response came before the timeout.
    pub fn timed_out(&mut self) -> (a: SdoAction)
        requires
            old(self).wf(),
            old(self).stage != BlockDownloadStage::Done,
        ensures
            final(self).wf(),
            final(self).finished_from(old(self), Err(BlockError::Transfer(TransferError::NoResponse))),
            a is Finished,
    {
        self.finish_with(Err(BlockError::Transfer(TransferError::NoResponse)))
    }

    /// Goes on to the ending request.
    fn go_to_end(&mut self) -> (a: SdoAction)
        requires
            old(self).stage != BlockDownloadStage::Done,
            old(self).tries_left <= 3,
            old(self).outcome is None,
        ensures
            final(self).wf(),
            *final(self) == (BlockDownload {
                stage: BlockDownloadStage::End,
                tries_left: 3,
                pending: final(self).pending,
                ..*old(self)
            }),
            a matches SdoAction::Send(m) && m == final(self).pending,
    {
        self.pending = self.end_frame();
        self.stage = BlockDownloadStage::End;
        self.tries_left = SEND_TRIES;
        SdoAction::Send(self.pending)
    }

    /// Goes on to segment `k`, with sequence number `seqnum`, in a block that begins at
    /// `block_start`.
    fn go_to_segment(&mut self, k: usize, block_start: usize, seqnum: u8) -> (a: SdoAction)
        requires
            block_start <= k < segment_count(old(self).data@.len()),
            old(self).stage != BlockDownloadStage::Done,
            old(self).tries_left <= 3,
            old(self).outcome is None,
        ensures
            final(self).wf(),
            *final(self) == (BlockDownload {
                stage: BlockDownloadStage::Segments,
                segment: k,
                block_start,
                seqnum,
                tries_left: 3,
                pending: final(self).pending,
                ..*old(self)
            }),
            a matches SdoAction::Send(m) && m == final(self).pending,
    {
        self.pending = self.segment_frame(k, seqnum);
        self.stage = BlockDownloadStage::Segments;
        self.segment = k;
        self.block_start = block_start;
        self.seqnum = seqnum;
        self.tries_left = SEND_TRIES;
        SdoAction::Send(self.pending)
    }

    /// Reports a frame received while the download awaits a response. Frames on other COB IDs
    /// are passed over. The confirmation of the start must name the object; it sets whether the
    /// CRC is checked and the block size, and the first block begins with sequence number 1 (or,
    /// with no data, the end). The confirmation of a block whose `ackseq` equals the block size
    /// accepts the block: the next block begins after the segment just sent, with sequence
    /// number 1. Any other `ackseq` fails with `BlockSizeChangedTooSmall` when the new block
    /// size is below it, and otherwise sends again from segment `ackseq` of the current block
    /// (counted from its first segment), with sequence number `ackseq`. Past the last segment
    /// the end request carries the CRC. Any other frame fails the download.
    pub fn received(&mut self, msg: CanMessage) -> (a: SdoAction)
        requires
            old(self).wf(),
            old(self).awaits(),
        ensures
            final(self).wf(),
            final(self).same_download(old(self)),
            msg.id != old(self).resp_cob_id ==> *final(self) == *old(self) && a is Wait,
            a matches SdoAction::Send(m) ==> m == final(self).pending,
            msg.id == old(self).resp_cob_id ==> match (old(self).stage, spec_block_response(msg.data@)) {
                (BlockDownloadStage::Initiate, Some(BlockResponse::ConfirmBlockDownload { sc, index, sub, blksize })) => {
                    if index != old(self).index || sub != old(self).sub {
                        final(self).finished_from(
                            old(self),
                            Err(BlockError::MismatchedObjectIndex {
                                expected: (old(self).index, old(self).sub),
                                received: (index, sub),
                            }),
                        ) && a is Finished
                    } else {
                        &&& final(self).crc_enabled == sc
                        &&& final(self).blksize == blksize
                        &&& final(self).outcome is None
                        &&& a is Send
                        &&& if segment_count(old(self).data@.len()) == 0 {
                            final(self).stage == BlockDownloadStage::End && final(self).tries_left == 3
                        } else {
                            final(self).sending_segment(0, 0, 1)
                        }
                    }
                },
                (BlockDownloadStage::Segments, Some(BlockResponse::ConfirmBlock { ackseq, blksize })) => {
                    let accepted = ackseq == old(self).blksize;
                    let next = if accepted {
                        old(self).segment + 1
                    } else {
                        old(self).block_start + ackseq
                    };
                    let start = if accepted { next } else { old(self).block_start as int };
                    let seqnum = if accepted { 1u8 } else { ackseq };
                    if !accepted && blksize < ackseq {
                        final(self).finished_from(old(self), Err(BlockError::BlockSizeChangedTooSmall))
                            && a is Finished
                    } else {
                        &&& final(self).crc_enabled == old(self).crc_enabled
                        &&& final(self).blksize == blksize
                        &&& final(self).outcome is None
                        &&& a is Send
                        &&& if next >= segment_count(old(self).data@.len()) {
                            final(self).stage == BlockDownloadStage::End && final(self).tries_left == 3
                        } else {
                            final(self).sending_segment(next, start, seqnum)
                        }
                    }
                },
                (BlockDownloadStage::End, Some(BlockResponse::ConfirmBlockDownloadEnd)) => final(self).finished_from(
                    old(self),
                    Ok(()),
                ) && a is Finished,
                _ => final(self).finished_from(
                    old(self),
                    Err(unexpected_error(msg.data@, download_expecting(old(self).stage))),
                ) && a is Finished,
            },
    {
        if msg.id != self.resp_cob_id {
            return SdoAction::Wait;
        }
        let len = self.data.len();
        let total = if len % 7 == 0 { len / 7 } else { len / 7 + 1 };
        let r = block_response(&msg);
        match (self.stage, r) {
            (BlockDownloadStage::Initiate, Some(BlockResponse::ConfirmBlockDownload { sc, index, sub, blksize })) => {
                if index != self.index || sub != self.sub {
                    let e = BlockError::MismatchedObjectIndex { expected: (self.index, self.sub), received: (index, sub) };
                    return self.finish_with(Err(e));
                }
                self.crc_enabled = sc;
                self.blksize = blksize;
                if total == 0 {
                    self.go_to_end()
                } else {
                    self.go_to_segment(0, 0, 1)
                }
            },
            (BlockDownloadStage::Segments, Some(BlockResponse::ConfirmBlock { ackseq, blksize })) => {
                let accepted = ackseq == self.blksize;
                if !accepted && blksize < ackseq {
                    return self.finish_with(Err(BlockError::BlockSizeChangedTooSmall));
                }
                assert(self.segment < total);
                let next: usize = if accepted { self.segment + 1 } else { self.block_start + ackseq as usize };
                let start: usize = if accepted { next } else { self.block_start };
                let seqnum: u8 = if accepted { 1 } else { ackseq };
                self.blksize = blksize;
                if next >= total {
                    self.go_to_end()
                } else {
                    self.go_to_segment(next, start, seqnum)
                }
            },
            (BlockDownloadStage::End, Some(BlockResponse::ConfirmBlockDownloadEnd)) => {
                self.finish_with(Ok(()))
            },
            _ => {
                let expecting = match self.stage {
                    BlockDownloadStage::Initiate => ExpectedResponse::ConfirmBlockDownload,
                    BlockDownloadStage::Segments => ExpectedResponse::ConfirmBlock,
                    _ => ExpectedResponse::ConfirmBlockDownloadEnd,
                };
                let e = unexpected(&msg, expecting);
                self.finish_with(Err(e))
            },
        }
    }

    /// Returns the outcome of a finished download.
    pub fn into_result(self) -> (r: Result<(), SdoClientError>)
        requires
            self.wf(),
            self.stage == BlockDownloadStage::Done,
        ensures
            self.outcome == Some(Ok::<(), BlockError>(())) ==> r is Ok,
            self.outcome matches Some(Err(e)) ==> (r matches Err(c) && block_client_error(e, c)),
    {
        match self.outcome {
            Some(Ok(())) => Ok(()),
            Some(Err(e)) => Err(block_client_error_of(e)),
            None => Err(SdoClientError::NoResponse),
        }
    }
}

/// The stage of a block upload.
#[derive(Clone, Copy, Debug, PartialEq, Eq, Structural)]
pub enum BlockUploadStage {
    /// The initiating request is under way
    Initiate,
    /// The request that starts the segments is under way
    Start,
    /// The segments are coming
    Segments,
    /// The confirmation of a full block is under way
    Confirm,
    /// The confirmation of the last block is under way, then the end is awaited
    LastConfirm,
    /// The ending request is under way
    Finish,
    /// An abort for a CRC mismatch is under way
    CrcAbort,
    /// The transfer is over
    Done,
}

/// The bytes a block segment carries: the seven after the first.
pub open spec fn segment_data(d: Seq<u8>) -> Seq<u8> {
    d.subrange(1, 8)
}

/// The data of an upload without the `n` unused bytes of its last segment.
pub open spec fn trimmed(data: Seq<u8>, n: u8) -> Seq<u8> {
    data.subrange(0, data.len() - n)
}

/// A block upload of one object of an SDO server.
pub struct BlockUpload {
    /// The COB ID of requests
    pub req_cob_id: CanId,
    /// The COB ID of responses
    pub resp_cob_id: CanId,
    /// The object index
    pub index: u16,
    /// The object sub index
    pub sub: u8,
    /// The bytes received so far
    pub data: Vec<u8>,
    /// The stage of the transfer
    pub stage: BlockUploadStage,
    /// Whether the server sends a CRC
    pub crc_enabled: bool,
    /// The sequence number of the last segment
    pub last_seqnum: u8,
    /// The frame being sent
    pub pending: CanMessage,
    /// The tries left for sending the pending frame
    pub tries_left: u8,
    /// The outcome, once the transfer is over; the bytes are in `data`
    pub outcome: Option<Result<(), BlockError>>,
}

impl BlockUpload {
    /// The invariant of a block upload: the pending frame is the request of the stage.
    pub open spec fn wf(&self) -> bool {
        &&& self.tries_left <= 3
        &&& (self.stage == BlockUploadStage::Done <==> self.outcome is Some)
        &&& (self.stage == BlockUploadStage::Initiate ==> frame_with(
            self.pending,
            self.req_cob_id,
            initiate_block_upload_bytes(self.index, self.sub, MAX_BLKSIZE, 0),
        ))
        &&& (self.stage == BlockUploadStage::Start ==> frame_with(self.pending, self.req_cob_id, start_block_upload_bytes()))
        &&& (self.stage == BlockUploadStage::Confirm ==> frame_with(
            self.pending,
            self.req_cob_id,
            confirm_block_bytes(MAX_BLKSIZE, MAX_BLKSIZE),
        ))
        &&& (self.stage == BlockUploadStage::LastConfirm ==> self.data@.len() >= 7 && frame_with(
            self.pending,
            self.req_cob_id,
            confirm_block_bytes(self.last_seqnum, MAX_BLKSIZE),
        ))
        &&& (self.stage == BlockUploadStage::Finish ==> frame_with(self.pending, self.req_cob_id, end_block_upload_bytes()))
        &&& (self.stage == BlockUploadStage::CrcAbort ==> frame_with(
            self.pending,
            self.req_cob_id,
            (SdoRequest::Abort { index: self.index, sub: self.sub, abort_code: AbortCode::CrcError.spec_raw() }).spec_bytes(),
        ))
    }

    /// The upload waits for frames from the server in these stages.
    pub open spec fn awaits(&self) -> bool {
        ||| self.stage == BlockUploadStage::Initiate
        ||| self.stage == BlockUploadStage::Segments
        ||| self.stage == BlockUploadStage::LastConfirm
    }

    /// The parts of an upload that never change.
    pub open spec fn same_upload(&self, other: &BlockUpload) -> bool {
        &&& self.req_cob_id == other.req_cob_id
        &&& self.resp_cob_id == other.resp_cob_id
        &&& self.index == other.index
        &&& self.sub == other.sub
    }

    /// `self` is `old` finished with `outcome`, with the data of `old`.
    pub open spec fn finished_from(&self, old: &BlockUpload, outcome: Result<(), BlockError>) -> bool {
        &&& self.same_upload(old)
        &&& self.data@ == old.data@
        &&& self.stage == BlockUploadStage::Done
        &&& self.outcome == Some(outcome)
    }

    /// `self` sends the request of `stage` with new tries.
    pub open spec fn sending(&self, old: &BlockUpload, stage: BlockUploadStage) -> bool {
        &&& self.same_upload(old)
        &&& self.stage == stage
        &&& self.tries_left == 3
        &&& self.outcome is None
    }

    /// Begins a block upload of object `index`/`sub`, offering CRC, with block size 127 and no
    /// protocol switch.
    pub fn new(req_cob_id: CanId, resp_cob_id: CanId, index: u16, sub: u8) -> (r: (BlockUpload, SdoAction))
        ensures
            r.0.wf(),
            r.0.req_cob_id == req_cob_id,
            r.0.resp_cob_id == resp_cob_id,
            r.0.index == index,
            r.0.sub == sub,
            r.0.data@ == Seq::<u8>::empty(),
            r.0.stage == BlockUploadStage::Initiate,
            r.0.tries_left == 3,
            r.1 matches SdoAction::Send(m) && m == r.0.pending,
    {
        let i = u16_to_le(index);
        let b = [0xA4u8, i[0], i[1], sub, MAX_BLKSIZE, 0, 0, 0];
        assert(b@ =~= initiate_block_upload_bytes(index, sub, MAX_BLKSIZE, 0));
        let pending = frame8(req_cob_id, b);
        let t = BlockUpload {
            req_cob_id,
            resp_cob_id,
            index,
            sub,
            data: Vec::new(),
            stage: BlockUploadStage::Initiate,
            crc_enabled: false,
            last_seqnum: 0,
            pending,
            tries_left: SEND_TRIES,
            outcome: None,
        };
        assert(t.data@ =~= Seq::<u8>::empty());
        (t, SdoAction::Send(pending))
    }

    fn finish_with(&mut self, outcome: Result<(), BlockError>) -> (a: SdoAction)
        requires
            old(self).wf(),
        ensures
            final(self).wf(),
            final(self).finished_from(old(self), outcome),
            a is Finished,
    {
        self.stage = BlockUploadStage::Done;
        self.outcome = Some(outcome);
        SdoAction::Finished
    }

    /// Reports that the pending frame was sent: the segments are awaited after the start and
    /// after the confirmation of a full block, the end after the last confirmation; the upload
    /// is over after the ending request (with the data) and after the CRC abort (with
    /// `CrcMismatch`).
    pub fn sent(&mut self) -> (a: SdoAction)
        requires
            old(self).wf(),
            old(self).stage != BlockUploadStage::Done,
        ensures
            final(self).wf(),
            final(self).same_upload(old(self)),
            final(self).data@ == old(self).data@,
            (old(self).stage == BlockUploadStage::Start || old(self).stage == BlockUploadStage::Confirm) ==> *final(self)
                == (BlockUpload { stage: BlockUploadStage::Segments, ..*old(self) }) && a is Wait,
            (old(self).stage == BlockUploadStage::Initiate || old(self).stage == BlockUploadStage::Segments
                || old(self).stage == BlockUploadStage::LastConfirm) ==> *final(self) == *old(self) && a is Wait,
            old(self).stage == BlockUploadStage::Finish ==> final(self).finished_from(old(self), Ok(())) && a is Finished,
            old(self).stage == BlockUploadStage::CrcAbort ==> final(self).finished_from(
                old(self),
                Err(BlockError::CrcMismatch),
            ) && a is Finished,
    {
        match self.stage {
            BlockUploadStage::Start | BlockUploadStage::Confirm => {
                self.stage = BlockUploadStage::Segments;
                SdoAction::Wait
            },
            BlockUploadStage::Finish => self.finish_with(Ok(())),
            BlockUploadStage::CrcAbort => self.finish_with(Err(BlockError::CrcMismatch)),
            _ => SdoAction::Wait,
        }
    }

    /// Reports that the pending frame could not be sent.
    pub fn send_failed(&mut self) -> (a: SdoAction)
        requires
            old(self).wf(),
            old(self).stage != BlockUploadStage::Done,
            old(self).tries_left > 0,
        ensures
            final(self).wf(),
            *final(self) == (BlockUpload { tries_left: (old(self).tries_left - 1) as u8, ..*old(self) }),
            a matches SdoAction::Pause(ms) && ms == SEND_RETRY_PAUSE_MS,
    {
        self.tries_left = self.tries_left - 1;
        SdoAction::Pause(SEND_RETRY_PAUSE_MS)
    }

    /// Reports that the pause before the next try is over: the frame goes out again, or the
    /// upload fails when no try is left.
    pub fn resume(&mut self) -> (a: SdoAction)
        requires
            old(self).wf(),
            old(self).stage != BlockUploadStage::Done,
        ensures
            final(self).wf(),
            old(self).tries_left == 0 ==> final(self).finished_from(
                old(self),
                Err(BlockError::Transfer(TransferError::SocketSendFailed)),
            ) && a is Finished,
            old(self).tries_left > 0 ==> *final(self) == *old(self) && (a matches SdoAction::Send(m) && m
                == old(self).pending),
    {
        if self.tries_left == 0 {
            self.finish_with(Err(BlockError::Transfer(TransferError::SocketSendFailed)))
        } else {
            SdoAction::Send(self.pending)
        }
    }

    /// Reports that no frame came before the timeout.
    pub fn timed_out(&mut self) -> (a: SdoAction)
        requires
            old(self).wf(),
            old(self).stage != BlockUploadStage::Done,
        ensures
            final(self).wf(),
            final(self).finished_from(old(self), Err(BlockError::Transfer(TransferError::NoResponse))),
            a is Finished,
    {
        self.finish_with(Err(BlockError::Transfer(TransferError::NoResponse)))
    }

    /// Reports a frame received while the upload waits. Frames on other COB IDs are passed over.
    /// The confirmation of the start sets whether the server sends a CRC and asks for the
    /// segments. Every frame in the segments stage is a segment: its seven bytes are added; the
    /// last segment is confirmed with its sequence number, a full block of 127 segments with
    /// 127, and otherwise more segments are awaited. The end drops the unused bytes of the last
    /// segment; where the server sends a CRC that differs from the CRC of the data received,
    /// the upload is aborted with a CRC error, and otherwise it is ended. Any other frame fails
    /// the upload.
    pub fn received(&mut self, msg: CanMessage) -> (a: SdoAction)
        requires
            old(self).wf(),
            old(self).awaits(),
        ensures
            final(self).wf(),
            final(self).same_upload(old(self)),
            msg.id != old(self).resp_cob_id ==> *final(self) == *old(self) && a is Wait,
            a matches SdoAction::Send(m) ==> m == final(self).pending,
            msg.id == old(self).resp_cob_id && old(self).stage == BlockUploadStage::Initiate ==> match spec_block_response(
                msg.data@,
            ) {
                Some(BlockResponse::ConfirmBlockUpload { sc, .. }) => final(self).sending(old(self), BlockUploadStage::Start)
                    && final(self).crc_enabled == sc && final(self).data@ == old(self).data@ && a is Send,
                _ => final(self).finished_from(
                    old(self),
                    Err(unexpected_error(msg.data@, ExpectedResponse::ConfirmBlockUpload)),
                ) && a is Finished,
            },
            msg.id == old(self).resp_cob_id && old(self).stage == BlockUploadStage::Segments ==> {
                let c = msg.data@[0] >= 128;
                let seqnum = (msg.data@[0] % 128) as u8;
                &&& final(self).data@ == old(self).data@ + segment_data(msg.data@)
                &&& final(self).crc_enabled == old(self).crc_enabled
                &&& final(self).outcome is None
                &&& if c {
                    final(self).sending(old(self), BlockUploadStage::LastConfirm) && final(self).last_seqnum == seqnum
                        && a is Send
                } else if seqnum == MAX_BLKSIZE {
                    final(self).sending(old(self), BlockUploadStage::Confirm) && a is Send
                } else {
                    final(self).stage == BlockUploadStage::Segments && a is Wait
                }
            },
            msg.id == old(self).resp_cob_id && old(self).stage == BlockUploadStage::LastConfirm ==> match spec_block_response(
                msg.data@,
            ) {
                Some(BlockResponse::BlockUploadEnd { n, crc }) => {
                    &&& final(self).data@ == trimmed(old(self).data@, n)
                    &&& final(self).crc_enabled == old(self).crc_enabled
                    &&& a is Send
                    &&& if old(self).crc_enabled && crc != crc16_xmodem_of(trimmed(old(self).data@, n)) {
                        final(self).sending(old(self), BlockUploadStage::CrcAbort)
                    } else {
                        final(self).sending(old(self), BlockUploadStage::Finish)
                    }
                },
                _ => final(self).finished_from(
                    old(self),
                    Err(unexpected_error(msg.data@, ExpectedResponse::BlockUploadEnd)),
                ) && a is Finished,
            },
    {
        if msg.id != self.resp_cob_id {
            return SdoAction::Wait;
        }
        match self.stage {
            BlockUploadStage::Initiate => self.on_upload_confirm(&msg),
            BlockUploadStage::Segments => self.on_segment(&msg),
            _ => self.on_upload_end(&msg),
        }
    }

    fn on_upload_confirm(&mut self, msg: &CanMessage) -> (a: SdoAction)
        requires
            old(self).wf(),
            old(self).stage == BlockUploadStage::Initiate,
        ensures
            final(self).wf(),
            final(self).same_upload(old(self)),
            a matches SdoAction::Send(m) ==> m == final(self).pending,
            match spec_block_response(msg.data@) {
                Some(BlockResponse::ConfirmBlockUpload { sc, .. }) => final(self).sending(old(self), BlockUploadStage::Start)
                    && final(self).crc_enabled == sc && final(self).data@ == old(self).data@ && a is Send,
                _ => final(self).finished_from(
                    old(self),
                    Err(unexpected_error(msg.data@, ExpectedResponse::ConfirmBlockUpload)),
                ) && a is Finished,
            },
    {
        match block_response(msg) {
            Some(BlockResponse::ConfirmBlockUpload { sc, .. }) => {
                let b = [0xA3u8, 0, 0, 0, 0, 0, 0, 0];
                assert(b@ =~= start_block_upload_bytes());
                let pending = frame8(self.req_cob_id, b);
                self.crc_enabled = sc;
                self.pending = pending;
                self.stage = BlockUploadStage::Start;
                self.tries_left = SEND_TRIES;
                SdoAction::Send(pending)
            },
            _ => {
                let e = unexpected(msg, ExpectedResponse::ConfirmBlockUpload);
                self.finish_with(Err(e))
            },
        }
    }

    fn on_segment(&mut self, msg: &CanMessage) -> (a: SdoAction)
        requires
            old(self).wf(),
            old(self).stage == BlockUploadStage::Segments,
        ensures
            final(self).wf(),
            final(self).same_upload(old(self)),
            a matches SdoAction::Send(m) ==> m == final(self).pending,
            ({
                let c = msg.data@[0] >= 128;
                let seqnum = (msg.data@[0] % 128) as u8;
                &&& final(self).data@ == old(self).data@ + segment_data(msg.data@)
                &&& final(self).crc_enabled == old(self).crc_enabled
                &&& final(self).outcome is None
                &&& if c {
                    final(self).sending(old(self), BlockUploadStage::LastConfirm) && final(self).last_seqnum == seqnum
                        && a is Send
                } else if seqnum == MAX_BLKSIZE {
                    final(self).sending(old(self), BlockUploadStage::Confirm) && a is Send
                } else {
                    final(self).stage == BlockUploadStage::Segments && a is Wait
                }
            }),
    {
        let d = msg.data;
        let ghost before = self.data@;
        let mut k: usize = 1;
        while k < 8
            invariant
                1 <= k <= 8,
                d@ == msg.data@,
                self.data@ == before + d@.subrange(1, k as int),
                *self == (BlockUpload { data: self.data, ..*old(self) }),
            decreases 8 - k,
        {
            self.data.push(d[k]);
            k = k + 1;
            assert(self.data@ =~= before + d@.subrange(1, k as int));
        }
        let c = d[0] >= 128;
        let seqnum = d[0] % 128;
        if c {
            let b = [0xA2u8, seqnum, MAX_BLKSIZE, 0, 0, 0, 0, 0];
            assert(b@ =~= confirm_block_bytes(seqnum, MAX_BLKSIZE));
            let pending = frame8(self.req_cob_id, b);
            self.last_seqnum = seqnum;
            self.pending = pending;
            self.stage = BlockUploadStage::LastConfirm;
            self.tries_left = SEND_TRIES;
            SdoAction::Send(pending)
        } else if seqnum == MAX_BLKSIZE {
            let b = [0xA2u8, MAX_BLKSIZE, MAX_BLKSIZE, 0, 0, 0, 0, 0];
            assert(b@ =~= confirm_block_bytes(MAX_BLKSIZE, MAX_BLKSIZE));
            let pending = frame8(self.req_cob_id, b);
            self.pending = pending;
            self.stage = BlockUploadStage::Confirm;
            self.tries_left = SEND_TRIES;
            SdoAction::Send(pending)
        } else {
            SdoAction::Wait
        }
    }

    fn on_upload_end(&mut self, msg: &CanMessage) -> (a: SdoAction)
        requires
            old(self).wf(),
            old(self).stage == BlockUploadStage::LastConfirm,
        ensures
            final(self).wf(),
            final(self).same_upload(old(self)),
            a matches SdoAction::Send(m) ==> m == final(self).pending,
            match spec_block_response(msg.data@) {
                Some(BlockResponse::BlockUploadEnd { n, crc }) => {
                    &&& final(self).data@ == trimmed(old(self).data@, n)
                    &&& final(self).crc_enabled == old(self).crc_enabled
                    &&& a is Send
                    &&& if old(self).crc_enabled && crc != crc16_xmodem_of(trimmed(old(self).data@, n)) {
                        final(self).sending(old(self), BlockUploadStage::CrcAbort)
                    } else {
                        final(self).sending(old(self), BlockUploadStage::Finish)
                    }
                },
                _ => final(self).finished_from(
                    old(self),
                    Err(unexpected_error(msg.data@, ExpectedResponse::BlockUploadEnd)),
                ) && a is Finished,
            },
    {
        match block_response(msg) {
            Some(BlockResponse::BlockUploadEnd { n, crc }) => {
                let ghost before = self.data@;
                let keep = self.data.len() - n as usize;
                self.data.truncate(keep);
                assert(self.data@ =~= trimmed(before, n));
                let matches = if self.crc_enabled {
                    crc16_xmodem(self.data.as_slice()) == crc
                } else {
                    true
                };
                let pending = if !matches {
                    self.stage = BlockUploadStage::CrcAbort;
                    SdoRequest::abort(self.index, self.sub, AbortCode::CrcError).to_can_message(self.req_cob_id)
                } else {
                    self.stage = BlockUploadStage::Finish;
                    let b = [0xA1u8, 0, 0, 0, 0, 0, 0, 0];
                    assert(b@ =~= end_block_upload_bytes());
                    frame8(self.req_cob_id, b)
                };
                self.pending = pending;
                self.tries_left = SEND_TRIES;
                SdoAction::Send(pending)
            },
            _ => {
                let e = unexpected(msg, ExpectedResponse::BlockUploadEnd);
                self.finish_with(Err(e))
            },
        }
    }

    /// Returns the outcome of a finished upload: the bytes received, or the error.
    pub fn into_result(self) -> (r: Result<Vec<u8>, SdoClientError>)
        requires
            self.wf(),
            self.stage == BlockUploadStage::Done,
        ensures
            self.outcome == Some(Ok::<(), BlockError>(())) ==> (r matches Ok(d) && d@ == self.data@),
            self.outcome matches Some(Err(e)) ==> (r matches Err(c) && block_client_error(e, c)),
    {
        match self.outcome {
            Some(Ok(())) => Ok(self.data),
            Some(Err(e)) => Err(block_client_error_of(e)),
            None => Err(SdoClientError::NoResponse),
        }
    }
}

/// A server that reads the frame of segment `k` of a block download finds the segment's bytes
/// (followed by zeros), the sequence number, and the last-segment flag exactly on the last
/// segment.
pub proof fn lemma_download_segment_decodes(data: Seq<u8>, k: int, seqnum: u8)
    requires
        0 <= k < segment_count(data.len()),
        seqnum <= MAX_BLKSIZE,
    ensures
        ({
            let b = download_segment_bytes(data, k, seqnum);
            let seg = segment_bytes(data, k);
            &&& b.len() == 8
            &&& (b[0] >= 128) == (k == segment_count(data.len()) - 1)
            &&& b[0] % 128 == seqnum
            &&& segment_data(b).subrange(0, seg.len() as int) == seg
            &&& seg == data.subrange(7 * k, if 7 * k + 7 <= data.len() { 7 * k + 7 } else { data.len() as int })
        }),
{
    lemma_segment_bytes_len(data, k);
    let seg = segment_bytes(data, k);
    lemma_pad7(seg);
    let b = download_segment_bytes(data, k, seqnum);
    assert(segment_data(b).subrange(0, seg.len() as int) =~= seg);
}

/// How a client reads the responses of a block transfer (CiA 301): byte 0 is 0xA0 (0xA4 with
/// CRC) for the start of a download with the index in bytes 1 and 2, the sub index in byte 3
/// and the block size in byte 4; 0xA2 for a block confirmation with the acknowledged sequence
/// number in byte 1 and the next block size in byte 2; 0xA1 for the end of a download; 0xC0 to
/// 0xC7 (even) for the start of an upload with the CRC flag at bit 2, the size flag at bit 1
/// and the size in bytes 4 to 7; 0xC1 plus four times the unused byte count for the end of an
/// upload with the CRC in bytes 1 and 2; 0x80 for an abort.
pub proof fn lemma_block_response_reads(d: Seq<u8>)
    requires
        d.len() == 8,
    ensures
        (d[0] == 0xA0 || d[0] == 0xA4) ==> spec_block_response(d) == Some(
            BlockResponse::ConfirmBlockDownload {
                sc: d[0] == 0xA4,
                index: (d[1] + 256 * d[2]) as u16,
                sub: d[3],
                blksize: d[4],
            },
        ),
        d[0] == 0xA2 ==> spec_block_response(d) == Some(BlockResponse::ConfirmBlock { ackseq: d[1], blksize: d[2] }),
        d[0] == 0xA1 ==> spec_block_response(d) == Some(BlockResponse::ConfirmBlockDownloadEnd),
        (0xC0 <= d[0] <= 0xDF && d[0] % 2 == 0) ==> spec_block_response(d) == Some(
            BlockResponse::ConfirmBlockUpload {
                sc: (d[0] / 4) % 2 == 1,
                s: (d[0] / 2) % 2 == 1,
                index: (d[1] + 256 * d[2]) as u16,
                sub: d[3],
                size: (d[4] + 256 * d[5] + 65536 * d[6] + 16777216 * d[7]) as u32,
            },
        ),
        (d[0] % 2 == 1 && 0xC1 <= d[0] <= 0xDF) ==> spec_block_response(d) == Some(
            BlockResponse::BlockUploadEnd { n: ((d[0] - 0xC1) / 4) as u8, crc: (d[1] + 256 * d[2]) as u16 },
        ),
        (0x80 <= d[0] < 0xA0) ==> spec_block_response(d) matches Some(BlockResponse::Abort { .. }),
{
}

/// The end of a block download carries the unused byte count in bits 2 to 4 of byte 0 (over
/// 0xC1) and the CRC in bytes 1 and 2, lowest first.
pub proof fn lemma_end_block_download_layout(n: u8, crc: u16)
    requires
        n < 8,
    ensures
        ({
            let b = end_block_download_bytes(n, crc);
            &&& b.len() == 8
            &&& b[0] == 0xC1 + 4 * n
            &&& b[1] + 256 * b[2] == crc
            &&& b.subrange(3, 8) == seq![0u8; 5]
        }),
{
    crate::le_bytes::lemma_little_endian_values(crc, 0, 0, 0, 0, 0);
    let b = end_block_download_bytes(n, crc);
    assert(b.subrange(3, 8) =~= seq![0u8; 5]);
}

} // verus!
