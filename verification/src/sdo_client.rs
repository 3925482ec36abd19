//! The SDO client: the decisions of expedited and segmented transfers.
//!
//! A transfer is a state machine. The caller performs the action it asks for (send a frame,
//! pause, wait for a frame) and hands back what happened; the machine decides what comes next,
//! until the transfer is finished with the uploaded bytes or an error.
use vstd::prelude::*;
use crate::can::{CanId, CanMessage};
use crate::protocol::sdo::{AbortCode, SdoRequest, SdoResponse, expedited_payload, segment_payload};
use crate::protocol::lss::LssIdentity;
use crate::le_bytes::{le_u16, le_u32, u16_from_le, u32_from_le};
use crate::object_model::time_types::{duration_from_millis, millis_duration, TimeDifference, TimeOfDay};
use core::time::Duration;

verus! {

/// An abort code as received, which may be one the library does not know.
#[derive(Debug, Clone, Copy, PartialEq, Eq, Structural)]
pub enum RawAbortCode {
    /// A known abort code
    Valid(AbortCode),
    /// An unknown abort code
    Unknown(u32),
}

impl RawAbortCode {
    /// The reading of a 32-bit code.
    pub open spec fn spec_from(value: u32) -> RawAbortCode {
        match AbortCode::spec_from_raw(value) {
            Some(code) => RawAbortCode::Valid(code),
            None => RawAbortCode::Unknown(value),
        }
    }
}

impl From<u32> for RawAbortCode {
    fn from(value: u32) -> (r: RawAbortCode) {
        match AbortCode::from_raw(value) {
            Some(code) => RawAbortCode::Valid(code),
            None => RawAbortCode::Unknown(value),
        }
    }
}

impl vstd::std_specs::convert::FromSpecImpl<u32> for RawAbortCode {
    open spec fn obeys_from_spec() -> bool {
        true
    }

    open spec fn from_spec(value: u32) -> RawAbortCode {
        RawAbortCode::spec_from(value)
    }
}

/// The response that a transfer waited for when it received another one.
#[derive(Debug, Clone, Copy, PartialEq, Eq, Structural)]
pub enum ExpectedResponse {
    /// A confirmation of a download
    ConfirmDownload,
    /// A confirmation of a download segment
    ConfirmDownloadSegment,
    /// A confirmation of an upload
    ConfirmUpload,
    /// An upload segment
    UploadSegment,
    /// A confirmation of a block download
    ConfirmBlockDownload,
    /// A confirmation of a block
    ConfirmBlock,
    /// A confirmation of the end of a block download
    ConfirmBlockDownloadEnd,
    /// A confirmation of a block upload
    ConfirmBlockUpload,
    /// The end of a block upload
    BlockUploadEnd,
}

impl ExpectedResponse {
    /// The name of the response.
    pub open spec fn spec_name(self) -> Seq<char> {
        match self {
            ExpectedResponse::ConfirmDownload => "ConfirmDownload"@,
            ExpectedResponse::ConfirmDownloadSegment => "ConfirmDownloadSegment"@,
            ExpectedResponse::ConfirmUpload => "ConfirmUpload"@,
            ExpectedResponse::UploadSegment => "UploadSegment"@,
            ExpectedResponse::ConfirmBlockDownload => "ConfirmBlockDownload"@,
            ExpectedResponse::ConfirmBlock => "ConfirmBlock"@,
            ExpectedResponse::ConfirmBlockDownloadEnd => "ConfirmBlockDownloadEnd"@,
            ExpectedResponse::ConfirmBlockUpload => "ConfirmBlockUpload"@,
            ExpectedResponse::BlockUploadEnd => "BlockUploadEnd"@,
        }
    }

    /// Returns the name of the response.
    pub fn name(&self) -> (s: &'static str)
        ensures
            s@ == self.spec_name(),
    {
        match self {
            ExpectedResponse::ConfirmDownload => "ConfirmDownload",
            ExpectedResponse::ConfirmDownloadSegment => "ConfirmDownloadSegment",
            ExpectedResponse::ConfirmUpload => "ConfirmUpload",
            ExpectedResponse::UploadSegment => "UploadSegment",
            ExpectedResponse::ConfirmBlockDownload => "ConfirmBlockDownload",
            ExpectedResponse::ConfirmBlock => "ConfirmBlock",
            ExpectedResponse::ConfirmBlockDownloadEnd => "ConfirmBlockDownloadEnd",
            ExpectedResponse::ConfirmBlockUpload => "ConfirmBlockUpload",
            ExpectedResponse::BlockUploadEnd => "BlockUploadEnd",
        }
    }
}

/// The ways in which a transfer can fail.
#[derive(Clone, Copy, Debug)]
pub enum TransferError {
    /// No response came before the timeout
    NoResponse,
    /// A response could not be read
    MalformedResponse,
    /// A response of another kind than the expected one came
    UnexpectedResponse {
        /// The expected kind of response
        expecting: ExpectedResponse,
        /// The response that came
        response: SdoResponse,
    },
    /// The server aborted the transfer
    ServerAbort {
        /// Index of the aborted access
        index: u16,
        /// Sub index of the aborted access
        sub: u8,
        /// The reason
        abort_code: RawAbortCode,
    },
    /// A response carried the wrong toggle bit
    ToggleNotAlternated,
    /// A frame could not be sent after all tries
    SocketSendFailed,
}

/// What the caller of a transfer is asked to do next.
#[derive(Clone, Copy, Debug)]
pub enum SdoAction {
    /// Send this frame, then report `sent` or `send_failed`
    Send(CanMessage),
    /// Wait this many milliseconds, then report `resume`
    Pause(u64),
    /// Wait for a frame, then report `received`, or `timed_out` when none came in time
    Wait,
    /// The transfer is over; its outcome is set
    Finished,
}

/// The direction of a transfer.
#[derive(Clone, Copy, Debug, PartialEq, Eq, Structural)]
pub enum Direction {
    /// Writing to the server
    Download,
    /// Reading from the server
    Upload,
}

/// The stage a transfer is in.
#[derive(Clone, Copy, Debug, PartialEq, Eq, Structural)]
pub enum Stage {
    /// The initiating request is under way
    Initiate,
    /// The segments are under way
    Segments,
    /// An abort for a toggle error is under way
    Aborting,
    /// The transfer is over
    Done,
}

/// The number of tries for sending a frame.
pub const SEND_TRIES: u8 = 3;

/// The pause in milliseconds between tries of sending a frame.
pub const SEND_RETRY_PAUSE_MS: u64 = 5;

/// The largest number of bytes of an expedited transfer.
pub const EXPEDITED_MAX: usize = 4;

/// The number of segments that carry `len` bytes, seven at a time.
pub open spec fn segment_count(len: nat) -> nat {
    if len % 7 == 0 { len / 7 } else { len / 7 + 1 }
}

/// The bytes of segment `k` of a download.
pub open spec fn segment_bytes(data: Seq<u8>, k: int) -> Seq<u8> {
    let start = 7 * k;
    let end = if start + 7 <= data.len() { start + 7 } else { data.len() as int };
    data.subrange(start, end)
}

/// The toggle bit of segment `k`: segments alternate, starting clear.
pub open spec fn segment_toggle(k: int) -> bool {
    k % 2 == 1
}

/// Seven bytes: the bytes of `s` padded with zeros.
pub open spec fn pad7(s: Seq<u8>) -> [u8; 7] {
    let p = s + crate::can::zeros((7 - s.len()) as nat);
    [p[0], p[1], p[2], p[3], p[4], p[5], p[6]]
}

/// Four bytes: the bytes of `s` padded with zeros.
pub open spec fn pad4(s: Seq<u8>) -> [u8; 4] {
    let p = s + crate::can::zeros((4 - s.len()) as nat);
    [p[0], p[1], p[2], p[3]]
}

/// The request that sends segment `k` of a download.
pub open spec fn segment_request(data: Seq<u8>, k: int) -> SdoRequest {
    let bytes = segment_bytes(data, k);
    SdoRequest::DownloadSegment {
        t: segment_toggle(k),
        n: (7 - bytes.len()) as u8,
        c: k == segment_count(data.len()) - 1,
        data: pad7(bytes),
    }
}

/// The request that begins a download: expedited for at most four bytes, else segmented with
/// the size indicated.
pub open spec fn download_initiate_request(index: u16, sub: u8, data: Seq<u8>) -> SdoRequest {
    if data.len() <= 4 {
        SdoRequest::InitiateDownload {
            n: (4 - data.len()) as u8,
            e: true,
            s: true,
            index,
            sub,
            data: pad4(data),
        }
    } else {
        let size = crate::le_bytes::u32_le(data.len() as u32);
        SdoRequest::InitiateDownload { n: 0, e: false, s: true, index, sub, data: [size[0], size[1], size[2], size[3]] }
    }
}

/// `m` is the eight byte frame of request `r` on COB ID `id`.
pub open spec fn frame_of(m: CanMessage, id: CanId, r: SdoRequest) -> bool {
    m.id == id && m.dlc == 8 && !m.rtr && m.data@ == r.spec_bytes()
}

/// The concatenation of the segments before segment `k`.
pub open spec fn segments_upto(data: Seq<u8>, k: int) -> Seq<u8>
    decreases k,
{
    if k <= 0 {
        Seq::empty()
    } else {
        segments_upto(data, k - 1) + segment_bytes(data, k - 1)
    }
}

/// The state of a transfer as the decisions see it.
pub struct TransferView {
    /// The stage of the transfer
    pub stage: Stage,
    /// The current segment of a download
    pub segment: nat,
    /// The toggle bit expected next
    pub toggle: bool,
    /// The bytes to download, or the bytes uploaded so far
    pub data: Seq<u8>,
    /// The tries left for sending the pending frame
    pub tries_left: u8,
    /// The outcome, once the transfer is over
    pub outcome: Option<Result<(), TransferError>>,
}

/// What the decisions ask for, before it is tied to a frame.
pub enum Step {
    /// Send the pending request
    SendPending,
    /// Pause before the next try
    Pause,
    /// Wait for a frame
    Wait,
    /// The transfer is over
    Finished,
}

/// The step that an action stands for.
pub open spec fn step_of(a: SdoAction) -> Step {
    match a {
        SdoAction::Send(_) => Step::SendPending,
        SdoAction::Pause(_) => Step::Pause,
        SdoAction::Wait => Step::Wait,
        SdoAction::Finished => Step::Finished,
    }
}

/// The view of a transfer that is over with the given outcome.
pub open spec fn finish(v: TransferView, outcome: Result<(), TransferError>) -> TransferView {
    TransferView { stage: Stage::Done, outcome: Some(outcome), ..v }
}

/// The decision on a response received while a transfer waits.
pub open spec fn on_response(
    direction: Direction,
    v: TransferView,
    r: SdoResponse,
) -> (TransferView, Step) {
    let expecting = match (direction, v.stage) {
        (Direction::Download, Stage::Initiate) => ExpectedResponse::ConfirmDownload,
        (Direction::Download, _) => ExpectedResponse::ConfirmDownloadSegment,
        (Direction::Upload, Stage::Initiate) => ExpectedResponse::ConfirmUpload,
        (Direction::Upload, _) => ExpectedResponse::UploadSegment,
    };
    match r {
        SdoResponse::Abort { index, sub, abort_code } => (
            finish(v, Err(TransferError::ServerAbort { index, sub, abort_code: RawAbortCode::spec_from(abort_code) })),
            Step::Finished,
        ),
        SdoResponse::ConfirmDownload { .. } if direction == Direction::Download && v.stage == Stage::Initiate => {
            if v.data.len() <= 4 {
                (finish(v, Ok(())), Step::Finished)
            } else {
                (TransferView { stage: Stage::Segments, segment: 0, toggle: false, tries_left: 3, ..v }, Step::SendPending)
            }
        },
        SdoResponse::ConfirmDownloadSegment { t } if direction == Direction::Download && v.stage == Stage::Segments => {
            if t != v.toggle {
                (TransferView { stage: Stage::Aborting, tries_left: 3, ..v }, Step::SendPending)
            } else if v.segment + 1 == segment_count(v.data.len()) {
                (finish(v, Ok(())), Step::Finished)
            } else {
                (TransferView { segment: v.segment + 1, toggle: !v.toggle, tries_left: 3, ..v }, Step::SendPending)
            }
        },
        SdoResponse::ConfirmUpload { n, e, s, data, .. } if direction == Direction::Upload && v.stage == Stage::Initiate => {
            if e {
                let bytes = expedited_payload(n, s, data);
                (finish(TransferView { data: bytes, ..v }, Ok(())), Step::Finished)
            } else {
                (TransferView { stage: Stage::Segments, toggle: false, tries_left: 3, data: Seq::empty(), ..v }, Step::SendPending)
            }
        },
        SdoResponse::UploadSegment { t, n, c, data } if direction == Direction::Upload && v.stage == Stage::Segments => {
            if t != v.toggle {
                (TransferView { stage: Stage::Aborting, tries_left: 3, ..v }, Step::SendPending)
            } else {
                let bytes = v.data + segment_payload(n, data);
                if c {
                    (finish(TransferView { data: bytes, ..v }, Ok(())), Step::Finished)
                } else {
                    (TransferView { toggle: !v.toggle, data: bytes, tries_left: 3, ..v }, Step::SendPending)
                }
            }
        },
        _ => (finish(v, Err(TransferError::UnexpectedResponse { expecting, response: r })), Step::Finished),
    }
}

/// A transfer between an SDO client and one SDO server.
pub struct SdoTransfer {
    /// Whether data is written to or read from the server
    pub direction: Direction,
    /// The COB ID of requests
    pub req_cob_id: CanId,
    /// The COB ID of responses
    pub resp_cob_id: CanId,
    /// The object index
    pub index: u16,
    /// The object sub index
    pub sub: u8,
    /// The bytes to download, or the bytes uploaded so far
    pub data: Vec<u8>,
    /// The stage of the transfer
    pub stage: Stage,
    /// The current segment of a download
    pub segment: usize,
    /// The toggle bit expected next
    pub toggle: bool,
    /// The frame being sent
    pub pending: CanMessage,
    /// The tries left for sending the pending frame
    pub tries_left: u8,
    /// The outcome, once the transfer is over; the bytes of an upload are in `data`
    pub outcome: Option<Result<(), TransferError>>,
}

impl SdoTransfer {
    /// The state of the transfer as the decisions see it.
    pub open spec fn view(&self) -> TransferView {
        TransferView {
            stage: self.stage,
            segment: self.segment as nat,
            toggle: self.toggle,
            data: self.data@,
            tries_left: self.tries_left,
            outcome: self.outcome,
        }
    }

    /// The request that the pending frame carries in the current state.
    pub open spec fn pending_request(&self) -> SdoRequest {
        match (self.direction, self.stage) {
            (Direction::Download, Stage::Initiate) => download_initiate_request(self.index, self.sub, self.data@),
            (Direction::Download, Stage::Segments) => segment_request(self.data@, self.segment as int),
            (Direction::Upload, Stage::Initiate) => SdoRequest::InitiateUpload { index: self.index, sub: self.sub },
            (Direction::Upload, Stage::Segments) => SdoRequest::ReqUploadSegment { t: self.toggle },
            _ => SdoRequest::Abort { index: self.index, sub: self.sub, abort_code: AbortCode::ToggleNotAlternated.spec_raw() },
        }
    }

    /// The invariant of a transfer.
    pub open spec fn wf(&self) -> bool {
        &&& self.tries_left <= 3
        &&& (self.stage == Stage::Done <==> self.outcome is Some)
        &&& (self.stage != Stage::Done ==> frame_of(self.pending, self.req_cob_id, self.pending_request()))
        &&& (self.direction == Direction::Download && self.stage == Stage::Segments ==> {
            &&& self.data@.len() > 4
            &&& self.segment < segment_count(self.data@.len())
            &&& self.toggle == segment_toggle(self.segment as int)
        })
    }

    /// A transfer waits for a response in these stages.
    pub open spec fn waiting(&self) -> bool {
        self.stage == Stage::Initiate || self.stage == Stage::Segments
    }

    /// The parts of a transfer that never change.
    pub open spec fn same_transfer(&self, other: &SdoTransfer) -> bool {
        &&& self.direction == other.direction
        &&& self.req_cob_id == other.req_cob_id
        &&& self.resp_cob_id == other.resp_cob_id
        &&& self.index == other.index
        &&& self.sub == other.sub
    }
}

/// The padded array holds the bytes followed by zeros.
pub proof fn lemma_pad7(s: Seq<u8>)
    requires
        s.len() <= 7,
    ensures
        pad7(s)@ == s + crate::can::zeros((7 - s.len()) as nat),
{
    assert(pad7(s)@ =~= s + crate::can::zeros((7 - s.len()) as nat));
}

/// The padded array holds the bytes followed by zeros.
pub proof fn lemma_pad4(s: Seq<u8>)
    requires
        s.len() <= 4,
    ensures
        pad4(s)@ == s + crate::can::zeros((4 - s.len()) as nat),
{
    assert(pad4(s)@ =~= s + crate::can::zeros((4 - s.len()) as nat));
}

/// A segment holds between one and seven bytes.
pub proof fn lemma_segment_bytes_len(data: Seq<u8>, k: int)
    requires
        0 <= k < segment_count(data.len()),
    ensures
        1 <= segment_bytes(data, k).len() <= 7,
        7 * k < data.len(),
        (k == segment_count(data.len()) - 1) <==> (7 * k + 7 >= data.len()),
{
}

impl SdoTransfer {
    /// Builds the frame of the segment `k` of the download.
    fn segment_frame(&self, k: usize) -> (m: CanMessage)
        requires
            self.direction == Direction::Download,
            k < segment_count(self.data@.len()),
        ensures
            frame_of(m, self.req_cob_id, segment_request(self.data@, k as int)),
    {
        proof {
            lemma_segment_bytes_len(self.data@, k as int);
        }
        let len = self.data.len();
        let start = 7 * k;
        let end = if len - start >= 7 { start + 7 } else { len };
        let total = if len % 7 == 0 { len / 7 } else { len / 7 + 1 };
        let bytes = vstd::slice::slice_subrange(self.data.as_slice(), start, end);
        let r = SdoRequest::download_segment(k % 2 == 1, k + 1 == total, bytes);
        proof {
            let want = segment_request(self.data@, k as int);
            lemma_pad7(bytes@);
            if let SdoRequest::DownloadSegment { data, .. } = r {
                assert(data =~= pad7(bytes@)) by {
                    broadcast use vstd::array::group_array_axioms;
                }
            }
            assert(r == want);
        }
        r.to_can_message(self.req_cob_id)
    }

    /// Builds the frame that begins a download of the data.
    fn initiate_frame(&self) -> (m: CanMessage)
        requires
            self.direction == Direction::Download,
        ensures
            frame_of(m, self.req_cob_id, download_initiate_request(self.index, self.sub, self.data@)),
    {
        let r = if self.data.len() <= EXPEDITED_MAX {
            SdoRequest::expedited_download(self.index, self.sub, self.data.as_slice())
        } else {
            #[verifier::truncate]
            let size = self.data.len() as u32;
            SdoRequest::initiate_download(self.index, self.sub, Some(size))
        };
        proof {
            let want = download_initiate_request(self.index, self.sub, self.data@);
            if self.data@.len() <= 4 {
                lemma_pad4(self.data@);
                if let SdoRequest::InitiateDownload { data, .. } = r {
                    assert(data =~= pad4(self.data@)) by {
                        broadcast use vstd::array::group_array_axioms;
                    }
                }
            } else {
                if let SdoRequest::InitiateDownload { data, .. } = r {
                    let size = crate::le_bytes::u32_le(self.data@.len() as u32);
                    assert(data =~= [size[0], size[1], size[2], size[3]]) by {
                        broadcast use vstd::array::group_array_axioms;
                    }
                }
            }
            assert(r == want);
        }
        r.to_can_message(self.req_cob_id)
    }
}

impl SdoTransfer {
    /// Begins a download of `data` to object `index`/`sub`: expedited for at most four bytes,
    /// segmented otherwise.
    pub fn download(req_cob_id: CanId, resp_cob_id: CanId, index: u16, sub: u8, data: Vec<u8>) -> (r: (
        SdoTransfer,
        SdoAction,
    ))
        ensures
            r.0.wf(),
            r.0.direction == Direction::Download,
            r.0.req_cob_id == req_cob_id,
            r.0.resp_cob_id == resp_cob_id,
            r.0.index == index,
            r.0.sub == sub,
            r.0.view() == (TransferView {
                stage: Stage::Initiate,
                segment: 0,
                toggle: false,
                data: data@,
                tries_left: 3,
                outcome: None,
            }),
            r.1 matches SdoAction::Send(m) && m == r.0.pending,
    {
        let mut t = SdoTransfer {
            direction: Direction::Download,
            req_cob_id,
            resp_cob_id,
            index,
            sub,
            data,
            stage: Stage::Initiate,
            segment: 0,
            toggle: false,
            pending: CanMessage::new_rtr(req_cob_id),
            tries_left: SEND_TRIES,
            outcome: None,
        };
        t.pending = t.initiate_frame();
        let m = t.pending;
        (t, SdoAction::Send(m))
    }

    /// Begins an upload of object `index`/`sub`.
    pub fn upload(req_cob_id: CanId, resp_cob_id: CanId, index: u16, sub: u8) -> (r: (SdoTransfer, SdoAction))
        ensures
            r.0.wf(),
            r.0.direction == Direction::Upload,
            r.0.req_cob_id == req_cob_id,
            r.0.resp_cob_id == resp_cob_id,
            r.0.index == index,
            r.0.sub == sub,
            r.0.view() == (TransferView {
                stage: Stage::Initiate,
                segment: 0,
                toggle: false,
                data: Seq::empty(),
                tries_left: 3,
                outcome: None,
            }),
            r.1 matches SdoAction::Send(m) && m == r.0.pending,
    {
        let pending = SdoRequest::initiate_upload(index, sub).to_can_message(req_cob_id);
        let t = SdoTransfer {
            direction: Direction::Upload,
            req_cob_id,
            resp_cob_id,
            index,
            sub,
            data: Vec::new(),
            stage: Stage::Initiate,
            segment: 0,
            toggle: false,
            pending,
            tries_left: SEND_TRIES,
            outcome: None,
        };
        assert(t.view().data =~= Seq::<u8>::empty());
        (t, SdoAction::Send(pending))
    }

    fn finish_with(&mut self, outcome: Result<(), TransferError>) -> (a: SdoAction)
        requires
            old(self).wf(),
        ensures
            final(self).wf(),
            final(self).same_transfer(old(self)),
            final(self).view() == finish(old(self).view(), outcome),
            a is Finished,
    {
        self.stage = Stage::Done;
        self.outcome = Some(outcome);
        SdoAction::Finished
    }

    /// Reports that the pending frame was sent.
    pub fn sent(&mut self) -> (a: SdoAction)
        requires
            old(self).wf(),
            old(self).stage != Stage::Done,
        ensures
            final(self).wf(),
            final(self).same_transfer(old(self)),
            old(self).stage == Stage::Aborting ==> final(self).view() == finish(
                old(self).view(),
                Err(TransferError::ToggleNotAlternated),
            ) && a is Finished,
            old(self).stage != Stage::Aborting ==> final(self).view() == old(self).view() && a is Wait,
    {
        if self.stage == Stage::Aborting {
            self.finish_with(Err(TransferError::ToggleNotAlternated))
        } else {
            SdoAction::Wait
        }
    }

    /// Reports that the pending frame could not be sent.
    pub fn send_failed(&mut self) -> (a: SdoAction)
        requires
            old(self).wf(),
            old(self).stage != Stage::Done,
            old(self).tries_left > 0,
        ensures
            final(self).wf(),
            final(self).same_transfer(old(self)),
            final(self).pending == old(self).pending,
            final(self).view() == (TransferView { tries_left: (old(self).tries_left - 1) as u8, ..old(self).view() }),
            a matches SdoAction::Pause(ms) && ms == SEND_RETRY_PAUSE_MS,
    {
        self.tries_left = self.tries_left - 1;
        SdoAction::Pause(SEND_RETRY_PAUSE_MS)
    }

    /// Reports that the pause before the next try is over.
    pub fn resume(&mut self) -> (a: SdoAction)
        requires
            old(self).wf(),
            old(self).stage != Stage::Done,
        ensures
            final(self).wf(),
            final(self).same_transfer(old(self)),
            old(self).tries_left == 0 ==> final(self).view() == finish(
                old(self).view(),
                Err(TransferError::SocketSendFailed),
            ) && a is Finished,
            old(self).tries_left > 0 ==> final(self).view() == old(self).view() && (a matches SdoAction::Send(
                m,
            ) && m == old(self).pending),
    {
        if self.tries_left == 0 {
            self.finish_with(Err(TransferError::SocketSendFailed))
        } else {
            SdoAction::Send(self.pending)
        }
    }

    /// Reports that no frame came before the timeout.
    pub fn timed_out(&mut self) -> (a: SdoAction)
        requires
            old(self).wf(),
            old(self).waiting(),
        ensures
            final(self).wf(),
            final(self).same_transfer(old(self)),
            final(self).view() == finish(old(self).view(), Err(TransferError::NoResponse)),
            a is Finished,
    {
        self.finish_with(Err(TransferError::NoResponse))
    }
}

/// Masks bound the fields they cut out.
proof fn lemma_field_bounds(x: u8)
    by (bit_vector)
    ensures
        (x >> 2u8) & 3u8 <= 3,
        (x >> 1u8) & 7u8 <= 7,
{
}

/// Appends the first `len` bytes of `src` to `dst`.
fn append_prefix(dst: &mut Vec<u8>, src: &[u8], len: usize)
    requires
        len <= src@.len(),
    ensures
        final(dst)@ == old(dst)@ + src@.subrange(0, len as int),
{
    let ghost start = dst@;
    let mut i: usize = 0;
    while i < len
        invariant
            len <= src@.len(),
            i <= len,
            dst@ == start + src@.subrange(0, i as int),
        decreases len - i,
    {
        dst.push(src[i]);
        i = i + 1;
        assert(dst@ =~= start + src@.subrange(0, i as int));
    }
}

impl SdoTransfer {
    fn abort_for_toggle(&mut self) -> (a: SdoAction)
        requires
            old(self).wf(),
            old(self).waiting(),
        ensures
            final(self).wf(),
            final(self).same_transfer(old(self)),
            final(self).view() == (TransferView { stage: Stage::Aborting, tries_left: 3, ..old(self).view() }),
            a matches SdoAction::Send(m) && m == final(self).pending,
    {
        self.stage = Stage::Aborting;
        self.tries_left = SEND_TRIES;
        self.pending = SdoRequest::abort(self.index, self.sub, AbortCode::ToggleNotAlternated).to_can_message(
            self.req_cob_id,
        );
        SdoAction::Send(self.pending)
    }

    /// Reports a frame received while the transfer waits for a response.
    ///
    /// Frames on other COB IDs are passed over; a response is decided on as `on_response` says.
    pub fn received(&mut self, msg: CanMessage) -> (a: SdoAction)
        requires
            old(self).wf(),
            old(self).waiting(),
        ensures
            final(self).wf(),
            final(self).same_transfer(old(self)),
            msg.id != old(self).resp_cob_id ==> final(self).view() == old(self).view() && a is Wait
                && final(self).pending == old(self).pending,
            msg.id == old(self).resp_cob_id ==> match SdoResponse::spec_try_from(msg.data@) {
                Err(_) => final(self).view() == finish(old(self).view(), Err(TransferError::MalformedResponse))
                    && a is Finished,
                Ok(r) => (final(self).view(), step_of(a)) == on_response(old(self).direction, old(self).view(), r),
            },
            a matches SdoAction::Send(m) ==> m == final(self).pending,
    {
        if msg.id != self.resp_cob_id {
            return SdoAction::Wait;
        }
        let r = match SdoResponse::try_from(msg) {
            Ok(r) => r,
            Err(_) => {
                return self.finish_with(Err(TransferError::MalformedResponse));
            },
        };
        proof {
            lemma_field_bounds(msg.data[0]);
        }
        let dir = self.direction;
        let stage = self.stage;
        let ghost old_view = self.view();
        match r {
            SdoResponse::Abort { index, sub, abort_code } => {
                let code = RawAbortCode::from(abort_code);
                self.finish_with(Err(TransferError::ServerAbort { index, sub, abort_code: code }))
            },
            SdoResponse::ConfirmDownload { .. } if dir == Direction::Download && stage == Stage::Initiate => {
                if self.data.len() <= EXPEDITED_MAX {
                    self.finish_with(Ok(()))
                } else {
                    self.stage = Stage::Segments;
                    self.segment = 0;
                    self.toggle = false;
                    self.tries_left = SEND_TRIES;
                    self.pending = self.segment_frame(0);
                    SdoAction::Send(self.pending)
                }
            },
            SdoResponse::ConfirmDownloadSegment { t } if dir == Direction::Download && stage == Stage::Segments => {
                let len = self.data.len();
                let total = if len % 7 == 0 { len / 7 } else { len / 7 + 1 };
                if t != self.toggle {
                    self.abort_for_toggle()
                } else if self.segment + 1 == total {
                    self.finish_with(Ok(()))
                } else {
                    self.segment = self.segment + 1;
                    self.toggle = !self.toggle;
                    self.tries_left = SEND_TRIES;
                    self.pending = self.segment_frame(self.segment);
                    SdoAction::Send(self.pending)
                }
            },
            SdoResponse::ConfirmUpload { n, e, s, data, .. } if dir == Direction::Upload && stage == Stage::Initiate => {
                if e {
                    let mut bytes: Vec<u8> = Vec::new();
                    let len: usize = if s { 4 - n as usize } else { 0 };
                    append_prefix(&mut bytes, &data, len);
                    assert(bytes@ =~= expedited_payload(n, s, data));
                    self.data = bytes;
                    self.finish_with(Ok(()))
                } else {
                    self.stage = Stage::Segments;
                    self.toggle = false;
                    self.tries_left = SEND_TRIES;
                    self.data = Vec::new();
                    self.pending = SdoRequest::upload_segment_request(false).to_can_message(self.req_cob_id);
                    assert(self.view().data =~= Seq::<u8>::empty());
                    SdoAction::Send(self.pending)
                }
            },
            SdoResponse::UploadSegment { t, n, c, data } if dir == Direction::Upload && stage == Stage::Segments => {
                if t != self.toggle {
                    self.abort_for_toggle()
                } else {
                    append_prefix(&mut self.data, &data, 7 - n as usize);
                    if c {
                        self.finish_with(Ok(()))
                    } else {
                        self.toggle = !self.toggle;
                        self.tries_left = SEND_TRIES;
                        self.pending = SdoRequest::upload_segment_request(self.toggle).to_can_message(self.req_cob_id);
                        SdoAction::Send(self.pending)
                    }
                }
            },
            _ => {
                let expecting = match (dir, stage) {
                    (Direction::Download, Stage::Initiate) => ExpectedResponse::ConfirmDownload,
                    (Direction::Download, _) => ExpectedResponse::ConfirmDownloadSegment,
                    (Direction::Upload, Stage::Initiate) => ExpectedResponse::ConfirmUpload,
                    (Direction::Upload, _) => ExpectedResponse::UploadSegment,
                };
                self.finish_with(Err(TransferError::UnexpectedResponse { expecting, response: r }))
            },
        }
    }
}

/// The segments before segment `k` are the first `7 * k` bytes of the data.
pub proof fn lemma_segments_prefix(data: Seq<u8>, k: int)
    requires
        0 <= k <= segment_count(data.len()),
    ensures
        segments_upto(data, k) == data.subrange(0, if 7 * k <= data.len() { 7 * k } else { data.len() as int }),
    decreases k,
{
    if k > 0 {
        lemma_segments_prefix(data, k - 1);
        assert(segments_upto(data, k) =~= data.subrange(0, if 7 * k <= data.len() { 7 * k } else { data.len() as int }));
    } else {
        assert(segments_upto(data, k) =~= data.subrange(0, 0));
    }
}

/// The segments of a download, put together in order, are exactly the data.
pub proof fn lemma_segments_cover(data: Seq<u8>)
    ensures
        segments_upto(data, segment_count(data.len()) as int) == data,
{
    lemma_segments_prefix(data, segment_count(data.len()) as int);
    assert(data.subrange(0, data.len() as int) =~= data);
}

/// A server that reads the frame of segment `k` of a download finds that segment's bytes, the
/// toggle bit of segment `k`, and the last-segment flag exactly on the last segment.
pub proof fn lemma_segment_frame_decodes(data: Seq<u8>, k: int)
    requires
        0 <= k < segment_count(data.len()),
    ensures
        SdoRequest::spec_try_from(segment_request(data, k).spec_bytes()) matches Ok(
            SdoRequest::DownloadSegment { t, n, c, data: d },
        ) && t == segment_toggle(k) && c == (k == segment_count(data.len()) - 1) && segment_payload(n, d)
            == segment_bytes(data, k),
{
    lemma_segment_bytes_len(data, k);
    let r = segment_request(data, k);
    crate::protocol::sdo::lemma_request_roundtrip(r);
    let bytes = segment_bytes(data, k);
    lemma_pad7(bytes);
    crate::protocol::sdo::lemma_segment_payload(bytes, (7 - bytes.len()) as u8, pad7(bytes));
}

/// A server that reads the frame beginning an expedited download finds exactly the data.
pub proof fn lemma_expedited_download_decodes(index: u16, sub: u8, data: Seq<u8>)
    requires
        1 <= data.len() <= 4,
    ensures
        SdoRequest::spec_try_from(download_initiate_request(index, sub, data).spec_bytes()) matches Ok(
            SdoRequest::InitiateDownload { n, e, s, index: i, sub: su, data: d },
        ) && e && i == index && su == sub && expedited_payload(n, s, d) == data,
{
    let r = download_initiate_request(index, sub, data);
    crate::protocol::sdo::lemma_request_roundtrip(r);
    lemma_pad4(data);
    assert(pad4(data)@.subrange(0, data.len() as int) =~= data);
}

/// An upload answered with an expedited confirmation ends with exactly the bytes the server put
/// in it.
pub proof fn lemma_expedited_upload_end_to_end(v: TransferView, index: u16, sub: u8, value: Seq<u8>, r: SdoResponse)
    requires
        v.stage == Stage::Initiate,
        value.len() <= 4,
        r matches SdoResponse::ConfirmUpload { n, e, s, index: i, sub: su, data: d } && e && i == index
            && su == sub && d@ == value + crate::can::zeros((4 - value.len()) as nat) && s == (value.len()
            > 0) && n == (if value.len() > 0 { 4 - value.len() } else { 0 }),
    ensures
        SdoResponse::spec_try_from(r.spec_bytes()) == Ok::<SdoResponse, ()>(r),
        on_response(Direction::Upload, v, r).0.data == value,
        on_response(Direction::Upload, v, r).0.outcome == Some(Ok::<(), TransferError>(())),
        on_response(Direction::Upload, v, r).1 is Finished,
{
    crate::protocol::sdo::lemma_response_roundtrip(r);
    crate::protocol::sdo::lemma_expedited_upload_payload(index, sub, value, r);
}

/// In a segmented upload, a segment with the expected toggle bit adds exactly its bytes to what
/// was uploaded; the transfer ends on the last segment and otherwise asks for the next one with
/// the other toggle bit.
pub proof fn lemma_upload_segment_step(v: TransferView, t: bool, c: bool, value: Seq<u8>, r: SdoResponse)
    requires
        v.stage == Stage::Segments,
        v.toggle == t,
        value.len() <= 7,
        r matches SdoResponse::UploadSegment { t: rt, n, c: rc, data: d } && rt == t && rc == c && n == 7
            - value.len() && d@ == value + crate::can::zeros((7 - value.len()) as nat),
    ensures
        SdoResponse::spec_try_from(r.spec_bytes()) == Ok::<SdoResponse, ()>(r),
        on_response(Direction::Upload, v, r).0.data == v.data + value,
        c ==> on_response(Direction::Upload, v, r).0.outcome == Some(Ok::<(), TransferError>(())),
        !c ==> on_response(Direction::Upload, v, r).0.toggle == !t && on_response(Direction::Upload, v, r).1 is SendPending,
{
    crate::protocol::sdo::lemma_response_roundtrip(r);
    if let SdoResponse::UploadSegment { n, data, .. } = r {
        crate::protocol::sdo::lemma_segment_payload(value, n, data);
    }
}


/// An error of an SDO client.
#[derive(Debug)]
pub enum SdoClientError {
    /// Timeout while awaiting an expected response
    NoResponse,
    /// Received a response that could not be interpreted
    MalformedResponse,
    /// Received a valid response, but with an unexpected command specifier
    UnexpectedResponse {
        /// The type of response which was expected
        expecting: String,
        /// The response which was received
        response: SdoResponse,
    },
    /// The server aborted the access
    ServerAbort {
        /// Index of the aborted access
        index: u16,
        /// Sub index of the aborted access
        sub: u8,
        /// Reason for the abort
        abort_code: RawAbortCode,
    },
    /// Received a response with the wrong toggle bit
    ToggleNotAlternated,
    /// Received a response for another object than the one requested
    MismatchedObjectIndex {
        /// The object that was requested
        expected: (u16, u8),
        /// The object in the response
        received: (u16, u8),
    },
    /// An upload had a size other than that of the type read
    UnexpectedSize,
    /// A frame could not be sent
    SocketSendFailed {
        /// What went wrong
        message: String,
    },
    /// The server shrank the block size below what was already delivered
    BlockSizeChangedTooSmall,
    /// The CRC of a block upload did not match
    CrcMismatch,
}

/// The client error that stands for a transfer error.
pub open spec fn client_error_of(e: TransferError, c: SdoClientError) -> bool {
    match e {
        TransferError::NoResponse => c is NoResponse,
        TransferError::MalformedResponse => c is MalformedResponse,
        TransferError::UnexpectedResponse { expecting, response } => c matches SdoClientError::UnexpectedResponse {
            expecting: s,
            response: r,
        } && s@ == expecting.spec_name() && r == response,
        TransferError::ServerAbort { index, sub, abort_code } => c matches SdoClientError::ServerAbort {
            index: i,
            sub: s,
            abort_code: a,
        } && i == index && s == sub && a == abort_code,
        TransferError::ToggleNotAlternated => c is ToggleNotAlternated,
        TransferError::SocketSendFailed => c matches SdoClientError::SocketSendFailed { message } && message@
            == "sender rejected the message"@,
    }
}

impl SdoClientError {
    /// Returns the client error that stands for a transfer error.
    pub fn from_transfer(e: TransferError) -> (r: SdoClientError)
        ensures
            client_error_of(e, r),
    {
        match e {
            TransferError::NoResponse => SdoClientError::NoResponse,
            TransferError::MalformedResponse => SdoClientError::MalformedResponse,
            TransferError::UnexpectedResponse { expecting, response } => SdoClientError::UnexpectedResponse {
                expecting: expecting.name().to_owned(),
                response,
            },
            TransferError::ServerAbort { index, sub, abort_code } => SdoClientError::ServerAbort {
                index,
                sub,
                abort_code,
            },
            TransferError::ToggleNotAlternated => SdoClientError::ToggleNotAlternated,
            TransferError::SocketSendFailed => SdoClientError::SocketSendFailed {
                message: "sender rejected the message".to_owned(),
            },
        }
    }
}

impl SdoTransfer {
    /// Returns the outcome of a finished transfer: the bytes of an upload (none for a download),
    /// or the error.
    pub fn into_result(self) -> (r: Result<Vec<u8>, SdoClientError>)
        requires
            self.wf(),
            self.stage == Stage::Done,
        ensures
            self.outcome == Some(Ok::<(), TransferError>(())) ==> (r matches Ok(d) && d@ == (if self.direction
                == Direction::Upload {
                self.data@
            } else {
                Seq::<u8>::empty()
            })),
            self.outcome matches Some(Err(e)) ==> (r matches Err(c) && client_error_of(e, c)),
    {
        match self.outcome {
            Some(Ok(())) => {
                if self.direction == Direction::Upload {
                    Ok(self.data)
                } else {
                    Ok(Vec::new())
                }
            },
            Some(Err(e)) => Err(SdoClientError::from_transfer(e)),
            None => Err(SdoClientError::NoResponse),
        }
    }
}

/// The default time to wait for a response, in milliseconds.
pub const DEFAULT_RESPONSE_TIMEOUT_MS: u64 = 150;

/// After a client is made, with the default response timeout, and its timeout is set to each of
/// `set` in turn (`clients[i + 1]` being `clients[i]` after `set_timeout(set[i])`), the timeout
/// it has is the last value set, or the default of 150 ms when none was set.
pub proof fn lemma_last_timeout_set<S, R>(clients: Seq<SdoClient<S, R>>, set: Seq<Duration>)
    requires
        clients.len() == set.len() + 1,
        clients[0].spec_timeout() == millis_duration(DEFAULT_RESPONSE_TIMEOUT_MS),
        forall|i: int| 0 <= i < set.len() ==> #[trigger] clients[i + 1].spec_timeout() == set[i],
    ensures
        clients.last().spec_timeout() == (if set.len() == 0 {
            millis_duration(DEFAULT_RESPONSE_TIMEOUT_MS)
        } else {
            set.last()
        }),
{
    if set.len() > 0 {
        let k = set.len() - 1;
        assert(clients[k + 1].spec_timeout() == set[k]);
    }
}

/// A client of one SDO server: its COB IDs, its response timeout, and the sender and receiver
/// that a driver uses to run its transfers.
pub struct SdoClient<S, R> {
    req_cob_id: CanId,
    resp_cob_id: CanId,
    timeout: Duration,
    /// The sender of frames to the bus
    pub sender: S,
    /// The receiver of frames from the bus
    pub receiver: R,
}

impl<S, R> SdoClient<S, R> {
    /// The COB ID of requests.
    pub closed spec fn spec_req_cob_id(&self) -> CanId {
        self.req_cob_id
    }

    /// The COB ID of responses.
    pub closed spec fn spec_resp_cob_id(&self) -> CanId {
        self.resp_cob_id
    }

    /// The response timeout.
    pub closed spec fn spec_timeout(&self) -> Duration {
        self.timeout
    }

    /// The sender.
    pub closed spec fn spec_sender(&self) -> S {
        self.sender
    }

    /// The receiver.
    pub closed spec fn spec_receiver(&self) -> R {
        self.receiver
    }

    /// Creates a client of the default SDO server of a node: requests on 0x600 plus the node ID,
    /// responses on 0x580 plus the node ID.
    pub fn new_std(server_node_id: u8, sender: S, receiver: R) -> (r: Self)
        ensures
            r.spec_req_cob_id() == CanId::Std((0x600 + server_node_id) as u16),
            r.spec_resp_cob_id() == CanId::Std((0x580 + server_node_id) as u16),
            r.spec_timeout() == millis_duration(DEFAULT_RESPONSE_TIMEOUT_MS),
            r.spec_sender() == sender,
            r.spec_receiver() == receiver,
    {
        let req_cob_id = CanId::standard(0x600 + server_node_id as u16);
        let resp_cob_id = CanId::standard(0x580 + server_node_id as u16);
        Self::new(req_cob_id, resp_cob_id, sender, receiver)
    }

    /// Creates a client from request and response COB IDs.
    pub fn new(req_cob_id: CanId, resp_cob_id: CanId, sender: S, receiver: R) -> (r: Self)
        ensures
            r.spec_req_cob_id() == req_cob_id,
            r.spec_resp_cob_id() == resp_cob_id,
            r.spec_timeout() == millis_duration(DEFAULT_RESPONSE_TIMEOUT_MS),
            r.spec_sender() == sender,
            r.spec_receiver() == receiver,
    {
        SdoClient { req_cob_id, resp_cob_id, timeout: duration_from_millis(DEFAULT_RESPONSE_TIMEOUT_MS), sender, receiver }
    }

    /// Sets the time to wait for responses; nothing else changes, and nothing is sent or
    /// received.
    pub fn set_timeout(&mut self, timeout: Duration)
        ensures
            final(self).spec_timeout() == timeout,
            final(self).spec_req_cob_id() == old(self).spec_req_cob_id(),
            final(self).spec_resp_cob_id() == old(self).spec_resp_cob_id(),
            final(self).spec_sender() == old(self).spec_sender(),
            final(self).spec_receiver() == old(self).spec_receiver(),
    {
        self.timeout = timeout;
    }

    /// Returns the time to wait for responses.
    pub fn get_timeout(&self) -> (r: Duration)
        ensures
            r == self.spec_timeout(),
    {
        self.timeout
    }

    /// Returns the COB ID of requests.
    pub fn req_cob_id(&self) -> (r: CanId)
        ensures
            r == self.spec_req_cob_id(),
    {
        self.req_cob_id
    }

    /// Returns the COB ID of responses.
    pub fn resp_cob_id(&self) -> (r: CanId)
        ensures
            r == self.spec_resp_cob_id(),
    {
        self.resp_cob_id
    }

    /// Begins a download of `data` to sub object `index`/`sub` of the server: expedited for at
    /// most four bytes, segmented otherwise. The transfer says what to send and is handed what
    /// comes back.
    pub fn download(&self, index: u16, sub: u8, data: &[u8]) -> (r: (SdoTransfer, SdoAction))
        ensures
            r.0.wf(),
            r.0.direction == Direction::Download,
            r.0.req_cob_id == self.spec_req_cob_id(),
            r.0.resp_cob_id == self.spec_resp_cob_id(),
            r.0.index == index,
            r.0.sub == sub,
            r.0.view() == (TransferView {
                stage: Stage::Initiate,
                segment: 0,
                toggle: false,
                data: data@,
                tries_left: 3,
                outcome: None,
            }),
            r.1 matches SdoAction::Send(m) && m == r.0.pending,
    {
        let bytes = vstd::slice::slice_to_vec(data);
        SdoTransfer::download(self.req_cob_id, self.resp_cob_id, index, sub, bytes)
    }

    /// Begins a block download of `data` to sub object `index`/`sub` of the server, offering
    /// CRC and indicating the size; the transfer says what to send and is handed what comes
    /// back.
    pub fn block_download(&self, index: u16, sub: u8, data: &[u8]) -> (r: (crate::sdo_block::BlockDownload, SdoAction))
        ensures
            r.0.wf(),
            r.0.req_cob_id == self.spec_req_cob_id(),
            r.0.resp_cob_id == self.spec_resp_cob_id(),
            r.0.index == index,
            r.0.sub == sub,
            r.0.data@ == data@,
            r.0.stage == crate::sdo_block::BlockDownloadStage::Initiate,
            r.0.tries_left == 3,
            r.1 matches SdoAction::Send(m) && m == r.0.pending,
    {
        let bytes = vstd::slice::slice_to_vec(data);
        crate::sdo_block::BlockDownload::new(self.req_cob_id, self.resp_cob_id, index, sub, bytes)
    }

    /// Begins a block upload of sub object `index`/`sub` from the server, offering CRC, with
    /// block size 127.
    pub fn block_upload(&self, index: u16, sub: u8) -> (r: (crate::sdo_block::BlockUpload, SdoAction))
        ensures
            r.0.wf(),
            r.0.req_cob_id == self.spec_req_cob_id(),
            r.0.resp_cob_id == self.spec_resp_cob_id(),
            r.0.index == index,
            r.0.sub == sub,
            r.0.data@ == Seq::<u8>::empty(),
            r.0.stage == crate::sdo_block::BlockUploadStage::Initiate,
            r.0.tries_left == 3,
            r.1 matches SdoAction::Send(m) && m == r.0.pending,
    {
        crate::sdo_block::BlockUpload::new(self.req_cob_id, self.resp_cob_id, index, sub)
    }

    /// Begins an upload of sub object `index`/`sub` from the server.
    pub fn upload(&self, index: u16, sub: u8) -> (r: (SdoTransfer, SdoAction))
        ensures
            r.0.wf(),
            r.0.direction == Direction::Upload,
            r.0.req_cob_id == self.spec_req_cob_id(),
            r.0.resp_cob_id == self.spec_resp_cob_id(),
            r.0.index == index,
            r.0.sub == sub,
            r.0.view() == (TransferView {
                stage: Stage::Initiate,
                segment: 0,
                toggle: false,
                data: Seq::empty(),
                tries_left: 3,
                outcome: None,
            }),
            r.1 matches SdoAction::Send(m) && m == r.0.pending,
    {
        SdoTransfer::upload(self.req_cob_id, self.resp_cob_id, index, sub)
    }
}

/// An uploaded value of `size` bytes, or `UnexpectedSize` for any other length.
pub open spec fn sized(data: Seq<u8>, size: nat) -> bool {
    data.len() == size
}

/// Reads an uploaded boolean: one byte, true when it is not zero.
pub fn decode_bool(data: &[u8]) -> (r: Result<bool, SdoClientError>)
    ensures
        data@.len() == 1 ==> r == Ok::<bool, SdoClientError>(data@[0] != 0),
        data@.len() != 1 ==> r matches Err(SdoClientError::UnexpectedSize),
{
    if data.len() != 1 {
        return Err(SdoClientError::UnexpectedSize);
    }
    Ok(data[0] != 0)
}

/// Reads an uploaded u8.
pub fn decode_u8(data: &[u8]) -> (r: Result<u8, SdoClientError>)
    ensures
        data@.len() == 1 ==> r == Ok::<u8, SdoClientError>(data@[0]),
        data@.len() != 1 ==> r matches Err(SdoClientError::UnexpectedSize),
{
    if data.len() != 1 {
        return Err(SdoClientError::UnexpectedSize);
    }
    Ok(data[0])
}

/// Reads an uploaded i8.
pub fn decode_i8(data: &[u8]) -> (r: Result<i8, SdoClientError>)
    ensures
        data@.len() == 1 ==> r == Ok::<i8, SdoClientError>(data@[0] as i8),
        data@.len() != 1 ==> r matches Err(SdoClientError::UnexpectedSize),
{
    if data.len() != 1 {
        return Err(SdoClientError::UnexpectedSize);
    }
    Ok(data[0] as i8)
}

/// Reads an uploaded little-endian u16.
pub fn decode_u16(data: &[u8]) -> (r: Result<u16, SdoClientError>)
    ensures
        data@.len() == 2 ==> r == Ok::<u16, SdoClientError>(le_u16(data@[0], data@[1])),
        data@.len() != 2 ==> r matches Err(SdoClientError::UnexpectedSize),
{
    if data.len() != 2 {
        return Err(SdoClientError::UnexpectedSize);
    }
    Ok(u16_from_le(data[0], data[1]))
}

/// Reads an uploaded little-endian i16.
pub fn decode_i16(data: &[u8]) -> (r: Result<i16, SdoClientError>)
    ensures
        data@.len() == 2 ==> r == Ok::<i16, SdoClientError>(le_u16(data@[0], data@[1]) as i16),
        data@.len() != 2 ==> r matches Err(SdoClientError::UnexpectedSize),
{
    if data.len() != 2 {
        return Err(SdoClientError::UnexpectedSize);
    }
    Ok(u16_from_le(data[0], data[1]) as i16)
}

/// Reads an uploaded little-endian u32.
pub fn decode_u32(data: &[u8]) -> (r: Result<u32, SdoClientError>)
    ensures
        data@.len() == 4 ==> r == Ok::<u32, SdoClientError>(le_u32(data@[0], data@[1], data@[2], data@[3])),
        data@.len() != 4 ==> r matches Err(SdoClientError::UnexpectedSize),
{
    if data.len() != 4 {
        return Err(SdoClientError::UnexpectedSize);
    }
    Ok(u32_from_le(data[0], data[1], data[2], data[3]))
}

/// Reads an uploaded little-endian i32.
pub fn decode_i32(data: &[u8]) -> (r: Result<i32, SdoClientError>)
    ensures
        data@.len() == 4 ==> r == Ok::<i32, SdoClientError>(le_u32(data@[0], data@[1], data@[2], data@[3]) as i32),
        data@.len() != 4 ==> r matches Err(SdoClientError::UnexpectedSize),
{
    if data.len() != 4 {
        return Err(SdoClientError::UnexpectedSize);
    }
    Ok(u32_from_le(data[0], data[1], data[2], data[3]) as i32)
}

/// The value of eight little-endian bytes.
pub open spec fn le_u64(b: Seq<u8>) -> u64 {
    (le_u32(b[0], b[1], b[2], b[3]) as int + 0x1_0000_0000 * le_u32(b[4], b[5], b[6], b[7]) as int) as u64
}

/// Reads an uploaded little-endian u64.
pub fn decode_u64(data: &[u8]) -> (r: Result<u64, SdoClientError>)
    ensures
        data@.len() == 8 ==> r == Ok::<u64, SdoClientError>(le_u64(data@)),
        data@.len() != 8 ==> r matches Err(SdoClientError::UnexpectedSize),
{
    if data.len() != 8 {
        return Err(SdoClientError::UnexpectedSize);
    }
    let lo = u32_from_le(data[0], data[1], data[2], data[3]) as u64;
    let hi = u32_from_le(data[4], data[5], data[6], data[7]) as u64;
    Ok(lo + 0x1_0000_0000 * hi)
}

/// Reads an uploaded little-endian i64.
pub fn decode_i64(data: &[u8]) -> (r: Result<i64, SdoClientError>)
    ensures
        data@.len() == 8 ==> r == Ok::<i64, SdoClientError>(le_u64(data@) as i64),
        data@.len() != 8 ==> r matches Err(SdoClientError::UnexpectedSize),
{
    match decode_u64(data) {
        Ok(v) => Ok(v as i64),
        Err(e) => Err(e),
    }
}

/// Reads an uploaded TimeOfDay: six bytes, milliseconds then days.
pub fn decode_time_of_day(data: &[u8]) -> (r: Result<TimeOfDay, SdoClientError>)
    ensures
        data@.len() == 6 ==> (r matches Ok(t) && t.spec_ms() == le_u32(data@[0], data@[1], data@[2], data@[3])
            && t.spec_days() == le_u16(data@[4], data@[5])),
        data@.len() != 6 ==> r matches Err(SdoClientError::UnexpectedSize),
{
    if data.len() != 6 {
        return Err(SdoClientError::UnexpectedSize);
    }
    Ok(TimeOfDay::from_le_bytes([data[0], data[1], data[2], data[3], data[4], data[5]]))
}

/// Reads an uploaded TimeDifference: six bytes, milliseconds then days.
pub fn decode_time_difference(data: &[u8]) -> (r: Result<TimeDifference, SdoClientError>)
    ensures
        data@.len() == 6 ==> (r matches Ok(t) && t.spec_ms() == le_u32(data@[0], data@[1], data@[2], data@[3])
            && t.spec_days() == le_u16(data@[4], data@[5])),
        data@.len() != 6 ==> r matches Err(SdoClientError::UnexpectedSize),
{
    if data.len() != 6 {
        return Err(SdoClientError::UnexpectedSize);
    }
    Ok(TimeDifference::from_le_bytes([data[0], data[1], data[2], data[3], data[4], data[5]]))
}

/// The bytes written for a boolean: 1 for true, 0 for false.
pub fn bool_bytes(value: bool) -> (r: [u8; 1])
    ensures
        r@ == seq![if value { 1u8 } else { 0u8 }],
{
    let r = if value { [1u8] } else { [0u8] };
    assert(r@ =~= seq![if value { 1u8 } else { 0u8 }]);
    r
}

/// The identity read from the four words of the identity object, subs 1 to 4.
pub fn identity_from(vendor_id: u32, product_code: u32, revision: u32, serial: u32) -> (r: LssIdentity)
    ensures
        r == (LssIdentity { vendor_id, product_code, revision, serial }),
{
    LssIdentity::new(vendor_id, product_code, revision, serial)
}

} // verus!
