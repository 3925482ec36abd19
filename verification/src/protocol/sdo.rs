//! The SDO protocol: requests, responses, abort codes and their encodings.
use vstd::prelude::*;
use crate::can::{CanId, CanMessage, zeros};
use crate::le_bytes::{le_u16, le_u32, u16_le, u32_le, u16_from_le, u32_from_le, u16_to_le, u32_to_le};

verus! {

/// The reasons for which an SDO transfer can be aborted.
#[derive(Clone, Copy, Debug, PartialEq, Eq, Structural)]
pub enum AbortCode {
    /// Toggle bit not alternated
    ToggleNotAlternated,
    /// SDO protocol timed out
    SdoTimeout,
    /// Client/server command specifier not valid or unknown
    InvalidCommandSpecifier,
    /// Invalid block size (block mode only)
    InvalidBlockSize,
    /// Invalid sequence number (block mode only)
    InvalidSequenceNumber,
    /// CRC error (block mode only)
    CrcError,
    /// Out of memory
    OutOfMemory,
    /// Unsupported access to an object
    UnsupportedAccess,
    /// Attempt to read a write only object
    WriteOnly,
    /// Attempt to write a read only object
    ReadOnly,
    /// Object does not exist in the dictionary
    NoSuchObject,
    /// Object cannot be mapped to the PDO
    UnnallowedPdo,
    /// The number and length of objects would exceed PDO length
    PdoTooLong,
    /// General parameter incompatibility
    IncompatibleParameter,
    /// Access failed due to hardware error
    HardwareError,
    /// Data type does not match, length of service parameter does not match
    DataTypeMismatch,
    /// Data type does not match, length of service parameter too high
    DataTypeMismatchLengthHigh,
    /// Data type does not match, length of service parameter too low
    DataTypeMismatchLengthLow,
    /// Sub-index does not exist
    NoSuchSubIndex,
    /// Invalid value for parameter (download only)
    InvalidValue,
    /// Value of parameter too high (download only)
    ValueTooHigh,
    /// Value of parameter too low (download only)
    ValueTooLow,
    /// Resource isn't available
    ResourceNotAvailable,
    /// General error
    GeneralError,
    /// Data cannot be transferred or stored to the application
    CantStore,
    /// Data cannot be transferred or stored to the application because of local control
    CantStoreLocalControl,
    /// Data cannot be transferred or stored to the application because of the device state
    CantStoreDeviceState,
    /// No object dictionary is present
    NoObjectDict,
    /// No data available
    NoData,
}

impl AbortCode {
    /// The 32-bit code of the reason.
    pub open spec fn spec_raw(self) -> u32 {
        match self {
            AbortCode::ToggleNotAlternated => 0x0503_0000,
            AbortCode::SdoTimeout => 0x0504_0000,
            AbortCode::InvalidCommandSpecifier => 0x0504_0001,
            AbortCode::InvalidBlockSize => 0x0504_0002,
            AbortCode::InvalidSequenceNumber => 0x0504_0003,
            AbortCode::CrcError => 0x0504_0004,
            AbortCode::OutOfMemory => 0x0504_0005,
            AbortCode::UnsupportedAccess => 0x0601_0000,
            AbortCode::WriteOnly => 0x0601_0001,
            AbortCode::ReadOnly => 0x0601_0002,
            AbortCode::NoSuchObject => 0x0602_0000,
            AbortCode::UnnallowedPdo => 0x0604_0041,
            AbortCode::PdoTooLong => 0x0604_0042,
            AbortCode::IncompatibleParameter => 0x0604_0043,
            AbortCode::HardwareError => 0x0606_0000,
            AbortCode::DataTypeMismatch => 0x0607_0010,
            AbortCode::DataTypeMismatchLengthHigh => 0x0607_0012,
            AbortCode::DataTypeMismatchLengthLow => 0x0607_0013,
            AbortCode::NoSuchSubIndex => 0x0609_0011,
            AbortCode::InvalidValue => 0x0609_0030,
            AbortCode::ValueTooHigh => 0x0609_0031,
            AbortCode::ValueTooLow => 0x0609_0032,
            AbortCode::ResourceNotAvailable => 0x060A_0023,
            AbortCode::GeneralError => 0x0800_0000,
            AbortCode::CantStore => 0x0800_0020,
            AbortCode::CantStoreLocalControl => 0x0800_0021,
            AbortCode::CantStoreDeviceState => 0x0800_0022,
            AbortCode::NoObjectDict => 0x0800_0023,
            AbortCode::NoData => 0x0800_0024,
        }
    }

    /// The reason with a given 32-bit code, if any.
    pub open spec fn spec_from_raw(value: u32) -> Option<AbortCode> {
        if value == 0x0503_0000 {
            Some(AbortCode::ToggleNotAlternated)
        } else if value == 0x0504_0000 {
            Some(AbortCode::SdoTimeout)
        } else if value == 0x0504_0001 {
            Some(AbortCode::InvalidCommandSpecifier)
        } else if value == 0x0504_0002 {
            Some(AbortCode::InvalidBlockSize)
        } else if value == 0x0504_0003 {
            Some(AbortCode::InvalidSequenceNumber)
        } else if value == 0x0504_0004 {
            Some(AbortCode::CrcError)
        } else if value == 0x0504_0005 {
            Some(AbortCode::OutOfMemory)
        } else if value == 0x0601_0000 {
            Some(AbortCode::UnsupportedAccess)
        } else if value == 0x0601_0001 {
            Some(AbortCode::WriteOnly)
        } else if value == 0x0601_0002 {
            Some(AbortCode::ReadOnly)
        } else if value == 0x0602_0000 {
            Some(AbortCode::NoSuchObject)
        } else if value == 0x0604_0041 {
            Some(AbortCode::UnnallowedPdo)
        } else if value == 0x0604_0042 {
            Some(AbortCode::PdoTooLong)
        } else if value == 0x0604_0043 {
            Some(AbortCode::IncompatibleParameter)
        } else if value == 0x0606_0000 {
            Some(AbortCode::HardwareError)
        } else if value == 0x0607_0010 {
            Some(AbortCode::DataTypeMismatch)
        } else if value == 0x0607_0012 {
            Some(AbortCode::DataTypeMismatchLengthHigh)
        } else if value == 0x0607_0013 {
            Some(AbortCode::DataTypeMismatchLengthLow)
        } else if value == 0x0609_0011 {
            Some(AbortCode::NoSuchSubIndex)
        } else if value == 0x0609_0030 {
            Some(AbortCode::InvalidValue)
        } else if value == 0x0609_0031 {
            Some(AbortCode::ValueTooHigh)
        } else if value == 0x0609_0032 {
            Some(AbortCode::ValueTooLow)
        } else if value == 0x060A_0023 {
            Some(AbortCode::ResourceNotAvailable)
        } else if value == 0x0800_0000 {
            Some(AbortCode::GeneralError)
        } else if value == 0x0800_0020 {
            Some(AbortCode::CantStore)
        } else if value == 0x0800_0021 {
            Some(AbortCode::CantStoreLocalControl)
        } else if value == 0x0800_0022 {
            Some(AbortCode::CantStoreDeviceState)
        } else if value == 0x0800_0023 {
            Some(AbortCode::NoObjectDict)
        } else if value == 0x0800_0024 {
            Some(AbortCode::NoData)
        } else {
            None
        }
    }

    /// Returns the 32-bit code of the reason.
    pub fn raw(&self) -> (r: u32)
        ensures
            r == self.spec_raw(),
    {
        match self {
            AbortCode::ToggleNotAlternated => 0x0503_0000,
            AbortCode::SdoTimeout => 0x0504_0000,
            AbortCode::InvalidCommandSpecifier => 0x0504_0001,
            AbortCode::InvalidBlockSize => 0x0504_0002,
            AbortCode::InvalidSequenceNumber => 0x0504_0003,
            AbortCode::CrcError => 0x0504_0004,
            AbortCode::OutOfMemory => 0x0504_0005,
            AbortCode::UnsupportedAccess => 0x0601_0000,
            AbortCode::WriteOnly => 0x0601_0001,
            AbortCode::ReadOnly => 0x0601_0002,
            AbortCode::NoSuchObject => 0x0602_0000,
            AbortCode::UnnallowedPdo => 0x0604_0041,
            AbortCode::PdoTooLong => 0x0604_0042,
            AbortCode::IncompatibleParameter => 0x0604_0043,
            AbortCode::HardwareError => 0x0606_0000,
            AbortCode::DataTypeMismatch => 0x0607_0010,
            AbortCode::DataTypeMismatchLengthHigh => 0x0607_0012,
            AbortCode::DataTypeMismatchLengthLow => 0x0607_0013,
            AbortCode::NoSuchSubIndex => 0x0609_0011,
            AbortCode::InvalidValue => 0x0609_0030,
            AbortCode::ValueTooHigh => 0x0609_0031,
            AbortCode::ValueTooLow => 0x0609_0032,
            AbortCode::ResourceNotAvailable => 0x060A_0023,
            AbortCode::GeneralError => 0x0800_0000,
            AbortCode::CantStore => 0x0800_0020,
            AbortCode::CantStoreLocalControl => 0x0800_0021,
            AbortCode::CantStoreDeviceState => 0x0800_0022,
            AbortCode::NoObjectDict => 0x0800_0023,
            AbortCode::NoData => 0x0800_0024,
        }
    }

    /// Returns the reason with a given 32-bit code, if any.
    pub fn from_raw(value: u32) -> (r: Option<AbortCode>)
        ensures
            r == Self::spec_from_raw(value),
    {
        match value {
            0x0503_0000 => Some(AbortCode::ToggleNotAlternated),
            0x0504_0000 => Some(AbortCode::SdoTimeout),
            0x0504_0001 => Some(AbortCode::InvalidCommandSpecifier),
            0x0504_0002 => Some(AbortCode::InvalidBlockSize),
            0x0504_0003 => Some(AbortCode::InvalidSequenceNumber),
            0x0504_0004 => Some(AbortCode::CrcError),
            0x0504_0005 => Some(AbortCode::OutOfMemory),
            0x0601_0000 => Some(AbortCode::UnsupportedAccess),
            0x0601_0001 => Some(AbortCode::WriteOnly),
            0x0601_0002 => Some(AbortCode::ReadOnly),
            0x0602_0000 => Some(AbortCode::NoSuchObject),
            0x0604_0041 => Some(AbortCode::UnnallowedPdo),
            0x0604_0042 => Some(AbortCode::PdoTooLong),
            0x0604_0043 => Some(AbortCode::IncompatibleParameter),
            0x0606_0000 => Some(AbortCode::HardwareError),
            0x0607_0010 => Some(AbortCode::DataTypeMismatch),
            0x0607_0012 => Some(AbortCode::DataTypeMismatchLengthHigh),
            0x0607_0013 => Some(AbortCode::DataTypeMismatchLengthLow),
            0x0609_0011 => Some(AbortCode::NoSuchSubIndex),
            0x0609_0030 => Some(AbortCode::InvalidValue),
            0x0609_0031 => Some(AbortCode::ValueTooHigh),
            0x0609_0032 => Some(AbortCode::ValueTooLow),
            0x060A_0023 => Some(AbortCode::ResourceNotAvailable),
            0x0800_0000 => Some(AbortCode::GeneralError),
            0x0800_0020 => Some(AbortCode::CantStore),
            0x0800_0021 => Some(AbortCode::CantStoreLocalControl),
            0x0800_0022 => Some(AbortCode::CantStoreDeviceState),
            0x0800_0023 => Some(AbortCode::NoObjectDict),
            0x0800_0024 => Some(AbortCode::NoData),
            _ => None,
        }
    }
}

/// Every reason is found again from its code.
pub proof fn lemma_abort_code_roundtrip(code: AbortCode)
    ensures
        AbortCode::spec_from_raw(code.spec_raw()) == Some(code),
{
}

/// The value `v` when `b` holds, else zero.
pub open spec fn flag(b: bool, v: u8) -> u8 {
    if b { v } else { 0u8 }
}

fn flag_exec(b: bool, v: u8) -> (r: u8)
    ensures
        r == flag(b, v),
{
    if b { v } else { 0u8 }
}

/// A request sent by an SDO client to an SDO server.
#[derive(Clone, Copy, Debug)]
pub enum SdoRequest {
    /// Begin a download, writing data to an object on the server
    InitiateDownload {
        /// Number of unused bytes in data
        n: u8,
        /// Expedited flag
        e: bool,
        /// Size indicated flag
        s: bool,
        /// Object index
        index: u16,
        /// Object sub-index
        sub: u8,
        /// The value of an expedited transfer, or the size when e=0 and s=1
        data: [u8; 4],
    },
    /// Send a segment of data to the server
    DownloadSegment {
        /// Toggle flag
        t: bool,
        /// Number of unused bytes in data
        n: u8,
        /// Set on the last segment
        c: bool,
        /// Segment data
        data: [u8; 7],
    },
    /// Begin an upload of data from an object on the server
    InitiateUpload {
        /// The requested object index
        index: u16,
        /// The requested sub object
        sub: u8,
    },
    /// Request the next segment of an upload
    ReqUploadSegment {
        /// Toggle flag
        t: bool,
    },
    /// Initiate a block download
    InitiateBlockDownload {
        /// Client CRC supported flag
        cc: bool,
        /// Size flag
        s: bool,
        /// Client sub command
        cs: bool,
        /// Index of the object to download to
        index: u16,
        /// Sub object to download to
        sub: u8,
        /// If s=1, the number of bytes to be downloaded
        size: u32,
    },
    /// Initiate a block upload
    InitiateBlockUpload {},
    /// Sent by the client to abort an ongoing transfer
    Abort {
        /// The object index of the transfer
        index: u16,
        /// The sub object of the transfer
        sub: u8,
        /// The abort reason
        abort_code: u32,
    },
}

impl SdoRequest {
    /// The requests that have an encoding: all but the block transfer requests.
    pub open spec fn encodable(self) -> bool {
        !(self is InitiateBlockDownload) && !(self is InitiateBlockUpload)
    }

    /// The requests whose fields fit their places in the encoding.
    pub open spec fn wf(self) -> bool {
        &&& self.encodable()
        &&& (self matches SdoRequest::InitiateDownload { n, .. } ==> n < 4)
        &&& (self matches SdoRequest::DownloadSegment { n, .. } ==> n < 8)
    }

    /// The eight payload bytes of a request.
    pub open spec fn spec_bytes(self) -> Seq<u8> {
        match self {
            SdoRequest::InitiateDownload { n, e, s, index, sub, data } => seq![
                32u8 | (n << 2u8) | flag(e, 2) | flag(s, 1),
                u16_le(index)[0],
                u16_le(index)[1],
                sub,
                data[0],
                data[1],
                data[2],
                data[3],
            ],
            SdoRequest::DownloadSegment { t, n, c, data } => seq![
                flag(t, 16) | ((n & 7u8) << 1u8) | flag(c, 1),
                data[0],
                data[1],
                data[2],
                data[3],
                data[4],
                data[5],
                data[6],
            ],
            SdoRequest::InitiateUpload { index, sub } => seq![
                64u8,
                u16_le(index)[0],
                u16_le(index)[1],
                sub,
                0u8,
                0u8,
                0u8,
                0u8,
            ],
            SdoRequest::ReqUploadSegment { t } => seq![96u8 | flag(t, 16), 0u8, 0u8, 0u8, 0u8, 0u8, 0u8, 0u8],
            SdoRequest::Abort { index, sub, abort_code } => seq![
                128u8,
                u16_le(index)[0],
                u16_le(index)[1],
                sub,
                u32_le(abort_code)[0],
                u32_le(abort_code)[1],
                u32_le(abort_code)[2],
                u32_le(abort_code)[3],
            ],
            _ => zeros(8),
        }
    }

    /// The inputs on which decoding stops on an unimplemented block command.
    pub open spec fn decodable(v: Seq<u8>) -> bool {
        !(v.len() >= 8 && ((v[0] >> 5u8) == 5 || (v[0] >> 5u8) == 6))
    }

    /// The request encoded in a payload.
    pub open spec fn spec_try_from(v: Seq<u8>) -> Result<SdoRequest, AbortCode> {
        if v.len() < 8 {
            Err(AbortCode::DataTypeMismatchLengthLow)
        } else {
            let ccs = v[0] >> 5u8;
            if ccs == 0 {
                Ok(SdoRequest::DownloadSegment {
                    t: v[0] & 16u8 != 0,
                    n: (v[0] >> 1u8) & 7u8,
                    c: v[0] & 1u8 != 0,
                    data: [v[1], v[2], v[3], v[4], v[5], v[6], v[7]],
                })
            } else if ccs == 1 {
                Ok(SdoRequest::InitiateDownload {
                    n: (v[0] >> 2u8) & 3u8,
                    e: v[0] & 2u8 != 0,
                    s: v[0] & 1u8 != 0,
                    index: le_u16(v[1], v[2]),
                    sub: v[3],
                    data: [v[4], v[5], v[6], v[7]],
                })
            } else if ccs == 2 {
                Ok(SdoRequest::InitiateUpload { index: le_u16(v[1], v[2]), sub: v[3] })
            } else if ccs == 3 {
                Ok(SdoRequest::ReqUploadSegment { t: (v[0] >> 4u8) & 1u8 != 0 })
            } else if ccs == 4 {
                Ok(SdoRequest::Abort {
                    index: le_u16(v[1], v[2]),
                    sub: v[3],
                    abort_code: le_u32(v[4], v[5], v[6], v[7]),
                })
            } else {
                Err(AbortCode::InvalidCommandSpecifier)
            }
        }
    }

    /// Creates an abort request.
    pub fn abort(index: u16, sub: u8, abort_code: AbortCode) -> (r: SdoRequest)
        ensures
            r == (SdoRequest::Abort { index, sub, abort_code: abort_code.spec_raw() }),
    {
        SdoRequest::Abort { index, sub, abort_code: abort_code.raw() }
    }

    /// Creates a request that initiates a segmented download, with the size when it is known.
    pub fn initiate_download(index: u16, sub: u8, size: Option<u32>) -> (r: SdoRequest)
        ensures
            r matches SdoRequest::InitiateDownload { n, e, s, index: i, sub: su, data } && n == 0
                && !e && s == size.is_some() && i == index && su == sub
                && data@ == u32_le(match size { Some(x) => x, None => 0 }),
    {
        let sz = match size {
            Some(x) => x,
            None => 0,
        };
        let data = u32_to_le(sz);
        SdoRequest::InitiateDownload { n: 0, e: false, s: size.is_some(), index, sub, data }
    }

    /// Creates a segment of a download; a segment holds at most seven bytes.
    pub fn download_segment(toggle: bool, last_segment: bool, segment_data: &[u8]) -> (r: SdoRequest)
        requires
            segment_data@.len() <= 7,
        ensures
            r matches SdoRequest::DownloadSegment { t, n, c, data } && t == toggle && c
                == last_segment && n == 7 - segment_data@.len() && data@ == segment_data@ + zeros(
                (7 - segment_data@.len()) as nat),
    {
        let mut data = [0u8; 7];
        let mut i: usize = 0;
        while i < segment_data.len()
            invariant
                segment_data@.len() <= 7,
                i <= segment_data@.len(),
                forall|j: int| 0 <= j < i ==> data@[j] == segment_data@[j],
                forall|j: int| i <= j < 7 ==> data@[j] == 0,
            decreases segment_data@.len() - i,
        {
            data[i] = segment_data[i];
            i = i + 1;
        }
        assert(data@ =~= segment_data@ + zeros((7 - segment_data@.len()) as nat));
        SdoRequest::DownloadSegment { t: toggle, n: 7 - segment_data.len() as u8, c: last_segment, data }
    }

    /// Creates an expedited download of at most four bytes.
    pub fn expedited_download(index: u16, sub: u8, data: &[u8]) -> (r: SdoRequest)
        requires
            data@.len() <= 4,
        ensures
            r matches SdoRequest::InitiateDownload { n, e, s, index: i, sub: su, data: d } && n == 4
                - data@.len() && e && s && i == index && su == sub && d@ == data@ + zeros(
                (4 - data@.len()) as nat),
    {
        let mut msg_data = [0u8; 4];
        let mut i: usize = 0;
        while i < data.len()
            invariant
                data@.len() <= 4,
                i <= data@.len(),
                forall|j: int| 0 <= j < i ==> msg_data@[j] == data@[j],
                forall|j: int| i <= j < 4 ==> msg_data@[j] == 0,
            decreases data@.len() - i,
        {
            msg_data[i] = data[i];
            i = i + 1;
        }
        assert(msg_data@ =~= data@ + zeros((4 - data@.len()) as nat));
        SdoRequest::InitiateDownload { n: (4 - data.len()) as u8, e: true, s: true, index, sub, data: msg_data }
    }

    /// Creates a request that initiates an upload.
    pub fn initiate_upload(index: u16, sub: u8) -> (r: SdoRequest)
        ensures
            r == (SdoRequest::InitiateUpload { index, sub }),
    {
        SdoRequest::InitiateUpload { index, sub }
    }

    /// Creates a request for the next upload segment.
    pub fn upload_segment_request(toggle: bool) -> (r: SdoRequest)
        ensures
            r == (SdoRequest::ReqUploadSegment { t: toggle }),
    {
        SdoRequest::ReqUploadSegment { t: toggle }
    }

    /// Returns the eight payload bytes of the request.
    pub fn to_bytes(&self) -> (r: [u8; 8])
        requires
            self.encodable(),
        ensures
            r@ == self.spec_bytes(),
    {
        let r = match *self {
            SdoRequest::InitiateDownload { n, e, s, index, sub, data } => {
                let idx = u16_to_le(index);
                [32u8 | (n << 2u8) | flag_exec(e, 2) | flag_exec(s, 1), idx[0], idx[1], sub, data[0], data[1], data[2], data[3]]
            },
            SdoRequest::DownloadSegment { t, n, c, data } => {
                [flag_exec(t, 16) | ((n & 7u8) << 1u8) | flag_exec(c, 1), data[0], data[1], data[2], data[3], data[4], data[5], data[6]]
            },
            SdoRequest::InitiateUpload { index, sub } => {
                let idx = u16_to_le(index);
                [64u8, idx[0], idx[1], sub, 0u8, 0u8, 0u8, 0u8]
            },
            SdoRequest::ReqUploadSegment { t } => {
                [96u8 | flag_exec(t, 16), 0u8, 0u8, 0u8, 0u8, 0u8, 0u8, 0u8]
            },
            SdoRequest::Abort { index, sub, abort_code } => {
                let idx = u16_to_le(index);
                let code = u32_to_le(abort_code);
                [128u8, idx[0], idx[1], sub, code[0], code[1], code[2], code[3]]
            },
            _ => [0u8, 0u8, 0u8, 0u8, 0u8, 0u8, 0u8, 0u8],
        };
        assert(r@ =~= self.spec_bytes());
        r
    }

    /// Converts the request into a frame with the given COB ID.
    pub fn to_can_message(self, id: CanId) -> (m: CanMessage)
        requires
            self.encodable(),
        ensures
            m.id == id,
            m.dlc == 8,
            !m.rtr,
            m.data@ == self.spec_bytes(),
    {
        let payload = self.to_bytes();
        CanMessage { data: payload, dlc: 8, rtr: false, id }
    }

    /// Reads a request out of a payload.
    pub fn try_from(value: &[u8]) -> (r: Result<SdoRequest, AbortCode>)
        requires
            Self::decodable(value@),
        ensures
            r == Self::spec_try_from(value@),
    {
        if value.len() < 8 {
            return Err(AbortCode::DataTypeMismatchLengthLow);
        }
        let b0 = value[0];
        let ccs = b0 >> 5u8;
        if ccs == 0 {
            Ok(SdoRequest::DownloadSegment {
                t: b0 & 16u8 != 0,
                n: (b0 >> 1u8) & 7u8,
                c: b0 & 1u8 != 0,
                data: [value[1], value[2], value[3], value[4], value[5], value[6], value[7]],
            })
        } else if ccs == 1 {
            Ok(SdoRequest::InitiateDownload {
                n: (b0 >> 2u8) & 3u8,
                e: b0 & 2u8 != 0,
                s: b0 & 1u8 != 0,
                index: u16_from_le(value[1], value[2]),
                sub: value[3],
                data: [value[4], value[5], value[6], value[7]],
            })
        } else if ccs == 2 {
            Ok(SdoRequest::InitiateUpload { index: u16_from_le(value[1], value[2]), sub: value[3] })
        } else if ccs == 3 {
            Ok(SdoRequest::ReqUploadSegment { t: (b0 >> 4u8) & 1u8 != 0 })
        } else if ccs == 4 {
            Ok(SdoRequest::Abort {
                index: u16_from_le(value[1], value[2]),
                sub: value[3],
                abort_code: u32_from_le(value[4], value[5], value[6], value[7]),
            })
        } else {
            Err(AbortCode::InvalidCommandSpecifier)
        }
    }
}

/// The fields of an initiate header (command in the top three bits, then n, e, s) read back.
pub proof fn lemma_initiate_header(cmd: u8, n: u8, ef: u8, sf: u8)
    by (bit_vector)
    requires
        cmd < 8,
        n < 4,
        ef == 0 || ef == 2,
        sf == 0 || sf == 1,
    ensures
        ((cmd << 5u8) | (n << 2u8) | ef | sf) >> 5u8 == cmd,
        (((cmd << 5u8) | (n << 2u8) | ef | sf) >> 2u8) & 3u8 == n,
        (((cmd << 5u8) | (n << 2u8) | ef | sf) & 2u8 != 0) == (ef == 2),
        (((cmd << 5u8) | (n << 2u8) | ef | sf) & 1u8 != 0) == (sf == 1),
{
}

/// The fields of a segment header (command in the top three bits, then t, n, c) read back.
pub proof fn lemma_segment_header(cmd: u8, tf: u8, n: u8, cf: u8)
    by (bit_vector)
    requires
        cmd < 8,
        n < 8,
        tf == 0 || tf == 16,
        cf == 0 || cf == 1,
    ensures
        ((cmd << 5u8) | tf | (n << 1u8) | cf) >> 5u8 == cmd,
        (((cmd << 5u8) | tf | (n << 1u8) | cf) >> 1u8) & 7u8 == n,
        (((cmd << 5u8) | tf | (n << 1u8) | cf) & 16u8 != 0) == (tf == 16),
        ((((cmd << 5u8) | tf | (n << 1u8) | cf) >> 4u8) & 1u8 != 0) == (tf == 16),
        (((cmd << 5u8) | tf | (n << 1u8) | cf) & 1u8 != 0) == (cf == 1),
{
}

/// Small facts about the constant headers.
pub proof fn lemma_constant_headers(tf: u8)
    by (bit_vector)
    requires
        tf == 0 || tf == 16,
    ensures
        (64u8 >> 5u8) == 2,
        (128u8 >> 5u8) == 4,
        (96u8 >> 5u8) == 3,
        ((96u8 | tf) >> 5u8) == 3,
        (((96u8 | tf) >> 4u8) & 1u8 != 0) == (tf == 16),
        ((32u8 | tf) >> 5u8) == 1,
        (((32u8 | tf) & 16u8) != 0) == (tf == 16),
        (tf | 0u8) == tf,
{
}

/// Decoding the payload of a well-formed request gives the request back.
pub proof fn lemma_request_roundtrip(r: SdoRequest)
    requires
        r.wf(),
    ensures
        SdoRequest::decodable(r.spec_bytes()),
        SdoRequest::spec_try_from(r.spec_bytes()) == Ok::<SdoRequest, AbortCode>(r),
{
    broadcast use vstd::array::group_array_axioms;
    let v = r.spec_bytes();
    match r {
        SdoRequest::InitiateDownload { n, e, s, index, sub, data } => {
            lemma_initiate_header(1, n, flag(e, 2), flag(s, 1));
            assert((1u8 << 5u8) == 32u8) by (bit_vector);
            crate::le_bytes::lemma_u16_le_roundtrip(index);
            assert([v[4], v[5], v[6], v[7]] =~= data);
        },
        SdoRequest::DownloadSegment { t, n, c, data } => {
            lemma_segment_header(0, flag(t, 16), n, flag(c, 1));
            assert((0u8 << 5u8) == 0u8) by (bit_vector);
            assert(n & 7u8 == n) by (bit_vector) requires n < 8;
            assert((0u8 | flag(t, 16) | (n << 1u8) | flag(c, 1)) == (flag(t, 16) | (n << 1u8) | flag(c, 1))) by (bit_vector);
            assert([v[1], v[2], v[3], v[4], v[5], v[6], v[7]] =~= data);
        },
        SdoRequest::InitiateUpload { index, sub } => {
            lemma_constant_headers(0);
            crate::le_bytes::lemma_u16_le_roundtrip(index);
        },
        SdoRequest::ReqUploadSegment { t } => {
            lemma_constant_headers(flag(t, 16));
        },
        SdoRequest::Abort { index, sub, abort_code } => {
            lemma_constant_headers(0);
            crate::le_bytes::lemma_u16_le_roundtrip(index);
            crate::le_bytes::lemma_u32_le_roundtrip(abort_code);
        },
        _ => {},
    }
}

/// A response sent by an SDO server to an SDO client.
#[derive(Copy, Clone, Debug)]
pub enum SdoResponse {
    /// Response to an InitiateUpload request
    ConfirmUpload {
        /// Number of unused bytes in data
        n: u8,
        /// Expedited flag
        e: bool,
        /// Size indicated flag
        s: bool,
        /// The index of the object being uploaded
        index: u16,
        /// The sub object being uploaded
        sub: u8,
        /// The value if e=1, or the size if s=1
        data: [u8; 4],
    },
    /// An upload segment
    UploadSegment {
        /// The toggle bit
        t: bool,
        /// The number of unused bytes in data
        n: u8,
        /// Set on the final segment
        c: bool,
        /// Object data
        data: [u8; 7],
    },
    /// Response to an InitiateDownload request
    ConfirmDownload {
        /// The index of the object written to
        index: u16,
        /// The sub object written to
        sub: u8,
    },
    /// Response to a DownloadSegment request
    ConfirmDownloadSegment {
        /// Toggle flag
        t: bool,
    },
    /// Confirms a block download
    ConfirmBlockDownload {
        /// Set when the server supports CRC generation
        sc: bool,
    },
    /// Sent by the server to abort an ongoing transfer
    Abort {
        /// Object index of the transfer
        index: u16,
        /// Sub object of the transfer
        sub: u8,
        /// Abort reason
        abort_code: u32,
    },
}

impl SdoResponse {
    /// The responses that have an encoding: all but the block download confirmation.
    pub open spec fn encodable(self) -> bool {
        !(self is ConfirmBlockDownload)
    }

    /// The responses whose fields fit their places in the encoding.
    pub open spec fn wf(self) -> bool {
        &&& self.encodable()
        &&& (self matches SdoResponse::ConfirmUpload { n, .. } ==> n < 4)
        &&& (self matches SdoResponse::UploadSegment { n, .. } ==> n < 8)
    }

    /// The eight payload bytes of a response.
    pub open spec fn spec_bytes(self) -> Seq<u8> {
        match self {
            SdoResponse::ConfirmUpload { n, e, s, index, sub, data } => seq![
                64u8 | ((n & 3u8) << 2u8) | flag(e, 2) | flag(s, 1),
                u16_le(index)[0],
                u16_le(index)[1],
                sub,
                data[0],
                data[1],
                data[2],
                data[3],
            ],
            SdoResponse::ConfirmDownload { index, sub } => seq![
                96u8,
                u16_le(index)[0],
                u16_le(index)[1],
                sub,
                0u8,
                0u8,
                0u8,
                0u8,
            ],
            SdoResponse::UploadSegment { t, n, c, data } => seq![
                flag(t, 16) | (n << 1u8) | flag(c, 1),
                data[0],
                data[1],
                data[2],
                data[3],
                data[4],
                data[5],
                data[6],
            ],
            SdoResponse::Abort { index, sub, abort_code } => seq![
                128u8,
                u16_le(index)[0],
                u16_le(index)[1],
                sub,
                u32_le(abort_code)[0],
                u32_le(abort_code)[1],
                u32_le(abort_code)[2],
                u32_le(abort_code)[3],
            ],
            SdoResponse::ConfirmDownloadSegment { t } => seq![32u8 | flag(t, 16), 0u8, 0u8, 0u8, 0u8, 0u8, 0u8, 0u8],
            _ => zeros(8),
        }
    }

    /// The response encoded in the eight data bytes of a frame (the length of the frame is not
    /// looked at).
    pub open spec fn spec_try_from(d: Seq<u8>) -> Result<SdoResponse, ()> {
        let scs = d[0] >> 5u8;
        if scs == 0 {
            Ok(SdoResponse::UploadSegment {
                t: d[0] & 16u8 != 0,
                n: (d[0] >> 1u8) & 7u8,
                c: d[0] & 1u8 != 0,
                data: [d[1], d[2], d[3], d[4], d[5], d[6], d[7]],
            })
        } else if scs == 1 {
            Ok(SdoResponse::ConfirmDownloadSegment { t: d[0] & 16u8 != 0 })
        } else if scs == 2 {
            Ok(SdoResponse::ConfirmUpload {
                n: (d[0] >> 2u8) & 3u8,
                e: d[0] & 2u8 != 0,
                s: d[0] & 1u8 != 0,
                index: le_u16(d[1], d[2]),
                sub: d[3],
                data: [d[4], d[5], d[6], d[7]],
            })
        } else if scs == 3 {
            Ok(SdoResponse::ConfirmDownload { index: le_u16(d[1], d[2]), sub: d[3] })
        } else if scs == 4 {
            Ok(SdoResponse::Abort {
                index: le_u16(d[1], d[2]),
                sub: d[3],
                abort_code: le_u32(d[4], d[5], d[6], d[7]),
            })
        } else {
            Err(())
        }
    }

    /// Reads a response out of the eight data bytes of a frame.
    pub fn try_from(msg: CanMessage) -> (r: Result<SdoResponse, ()>)
        ensures
            r == Self::spec_try_from(msg.data@),
    {
        let d = msg.data;
        let scs = d[0] >> 5u8;
        if scs == 0 {
            Ok(SdoResponse::UploadSegment {
                t: d[0] & 16u8 != 0,
                n: (d[0] >> 1u8) & 7u8,
                c: d[0] & 1u8 != 0,
                data: [d[1], d[2], d[3], d[4], d[5], d[6], d[7]],
            })
        } else if scs == 1 {
            Ok(SdoResponse::ConfirmDownloadSegment { t: d[0] & 16u8 != 0 })
        } else if scs == 2 {
            Ok(SdoResponse::ConfirmUpload {
                n: (d[0] >> 2u8) & 3u8,
                e: d[0] & 2u8 != 0,
                s: d[0] & 1u8 != 0,
                index: u16_from_le(d[1], d[2]),
                sub: d[3],
                data: [d[4], d[5], d[6], d[7]],
            })
        } else if scs == 3 {
            Ok(SdoResponse::ConfirmDownload { index: u16_from_le(d[1], d[2]), sub: d[3] })
        } else if scs == 4 {
            Ok(SdoResponse::Abort {
                index: u16_from_le(d[1], d[2]),
                sub: d[3],
                abort_code: u32_from_le(d[4], d[5], d[6], d[7]),
            })
        } else {
            Err(())
        }
    }

    /// Creates the confirmation of an expedited upload of at most four bytes.
    ///
    /// An empty value is answered with the size flag clear.
    pub fn expedited_upload(index: u16, sub: u8, data: &[u8]) -> (r: SdoResponse)
        requires
            data@.len() <= 4,
        ensures
            r matches SdoResponse::ConfirmUpload { n, e, s, index: i, sub: su, data: d } && e && i
                == index && su == sub && d@ == data@ + zeros((4 - data@.len()) as nat) && s == (
            data@.len() > 0) && n == (if data@.len() > 0 { 4 - data@.len() } else { 0 }),
    {
        let mut msg_data = [0u8; 4];
        let mut i: usize = 0;
        while i < data.len()
            invariant
                data@.len() <= 4,
                i <= data@.len(),
                forall|j: int| 0 <= j < i ==> msg_data@[j] == data@[j],
                forall|j: int| i <= j < 4 ==> msg_data@[j] == 0,
            decreases data@.len() - i,
        {
            msg_data[i] = data[i];
            i = i + 1;
        }
        assert(msg_data@ =~= data@ + zeros((4 - data@.len()) as nat));
        let s;
        let n;
        if data.len() == 0 {
            s = false;
            n = 0;
        } else {
            s = true;
            n = 4 - data.len() as u8;
        }
        SdoResponse::ConfirmUpload { index, sub, e: true, s, n, data: msg_data }
    }

    /// Creates the confirmation of a segmented upload of `size` bytes.
    pub fn upload_acknowledge(index: u16, sub: u8, size: u32) -> (r: SdoResponse)
        ensures
            r matches SdoResponse::ConfirmUpload { n, e, s, index: i, sub: su, data } && n == 0
                && !e && s && i == index && su == sub && data@ == u32_le(size),
    {
        SdoResponse::ConfirmUpload { n: 0, e: false, s: true, index, sub, data: u32_to_le(size) }
    }

    /// Creates an upload segment of at most seven bytes.
    pub fn upload_segment(t: bool, c: bool, data: &[u8]) -> (r: SdoResponse)
        requires
            data@.len() <= 7,
        ensures
            r matches SdoResponse::UploadSegment { t: rt, n, c: rc, data: d } && rt == t && rc == c
                && n == 7 - data@.len() && d@ == data@ + zeros((7 - data@.len()) as nat),
    {
        let mut buf = [0u8; 7];
        let mut i: usize = 0;
        while i < data.len()
            invariant
                data@.len() <= 7,
                i <= data@.len(),
                forall|j: int| 0 <= j < i ==> buf@[j] == data@[j],
                forall|j: int| i <= j < 7 ==> buf@[j] == 0,
            decreases data@.len() - i,
        {
            buf[i] = data[i];
            i = i + 1;
        }
        assert(buf@ =~= data@ + zeros((7 - data@.len()) as nat));
        SdoResponse::UploadSegment { t, n: (7 - data.len()) as u8, c, data: buf }
    }

    /// Creates the confirmation of a download.
    pub fn download_acknowledge(index: u16, sub: u8) -> (r: SdoResponse)
        ensures
            r == (SdoResponse::ConfirmDownload { index, sub }),
    {
        SdoResponse::ConfirmDownload { index, sub }
    }

    /// Creates the confirmation of a download segment.
    pub fn download_segment_acknowledge(t: bool) -> (r: SdoResponse)
        ensures
            r == (SdoResponse::ConfirmDownloadSegment { t }),
    {
        SdoResponse::ConfirmDownloadSegment { t }
    }

    /// Creates an abort response.
    pub fn abort(index: u16, sub: u8, abort_code: AbortCode) -> (r: SdoResponse)
        ensures
            r == (SdoResponse::Abort { index, sub, abort_code: abort_code.spec_raw() }),
    {
        SdoResponse::Abort { index, sub, abort_code: abort_code.raw() }
    }

    /// Returns the eight payload bytes of the response.
    pub fn to_bytes(&self) -> (r: [u8; 8])
        requires
            self.encodable(),
        ensures
            r@ == self.spec_bytes(),
    {
        let r = match *self {
            SdoResponse::ConfirmUpload { n, e, s, index, sub, data } => {
                let idx = u16_to_le(index);
                [64u8 | ((n & 3u8) << 2u8) | flag_exec(e, 2) | flag_exec(s, 1), idx[0], idx[1], sub, data[0], data[1], data[2], data[3]]
            },
            SdoResponse::ConfirmDownload { index, sub } => {
                let idx = u16_to_le(index);
                [96u8, idx[0], idx[1], sub, 0u8, 0u8, 0u8, 0u8]
            },
            SdoResponse::UploadSegment { t, n, c, data } => {
                [flag_exec(t, 16) | (n << 1u8) | flag_exec(c, 1), data[0], data[1], data[2], data[3], data[4], data[5], data[6]]
            },
            SdoResponse::Abort { index, sub, abort_code } => {
                let idx = u16_to_le(index);
                let code = u32_to_le(abort_code);
                [128u8, idx[0], idx[1], sub, code[0], code[1], code[2], code[3]]
            },
            SdoResponse::ConfirmDownloadSegment { t } => {
                [32u8 | flag_exec(t, 16), 0u8, 0u8, 0u8, 0u8, 0u8, 0u8, 0u8]
            },
            _ => [0u8, 0u8, 0u8, 0u8, 0u8, 0u8, 0u8, 0u8],
        };
        assert(r@ =~= self.spec_bytes());
        r
    }

    /// Converts the response into a frame with the given COB ID.
    pub fn to_can_message(self, id: CanId) -> (m: CanMessage)
        requires
            self.encodable(),
        ensures
            m.id == id,
            m.dlc == 8,
            !m.rtr,
            m.data@ == self.spec_bytes(),
    {
        let payload = self.to_bytes();
        CanMessage { data: payload, dlc: 8, rtr: false, id }
    }
}

/// The bytes that a client takes from an expedited upload confirmation: the first 4 - n data
/// bytes when the size is indicated, none otherwise.
pub open spec fn expedited_payload(n: u8, s: bool, data: [u8; 4]) -> Seq<u8> {
    if s {
        data@.subrange(0, 4 - n)
    } else {
        Seq::empty()
    }
}

/// The bytes that a receiver takes from a segment: the first 7 - n data bytes.
pub open spec fn segment_payload(n: u8, data: [u8; 7]) -> Seq<u8> {
    data@.subrange(0, 7 - n)
}

/// A client reading an expedited upload confirmation gets back exactly the bytes it was made
/// from.
pub proof fn lemma_expedited_upload_payload(index: u16, sub: u8, value: Seq<u8>, r: SdoResponse)
    requires
        value.len() <= 4,
        r matches SdoResponse::ConfirmUpload { n, e, s, index: i, sub: su, data: d } && e && i
            == index && su == sub && d@ == value + zeros((4 - value.len()) as nat) && s == (
        value.len() > 0) && n == (if value.len() > 0 { 4 - value.len() } else { 0 }),
    ensures
        r matches SdoResponse::ConfirmUpload { n, s, data, .. } && expedited_payload(n, s, data)
            == value,
{
    if let SdoResponse::ConfirmUpload { n, s, data, .. } = r {
        assert(expedited_payload(n, s, data) =~= value);
    }
}

/// A receiver of a segment gets back exactly the bytes it was made from.
pub proof fn lemma_segment_payload(value: Seq<u8>, n: u8, data: [u8; 7])
    requires
        value.len() <= 7,
        n == 7 - value.len(),
        data@ == value + zeros((7 - value.len()) as nat),
    ensures
        segment_payload(n, data) == value,
{
    assert(segment_payload(n, data) =~= value);
}

/// Decoding the frame of a well-formed response gives the response back.
pub proof fn lemma_response_roundtrip(r: SdoResponse)
    requires
        r.wf(),
    ensures
        SdoResponse::spec_try_from(r.spec_bytes()) == Ok::<SdoResponse, ()>(r),
{
    broadcast use vstd::array::group_array_axioms;
    let v = r.spec_bytes();
    match r {
        SdoResponse::ConfirmUpload { n, e, s, index, sub, data } => {
            lemma_initiate_header(2, n, flag(e, 2), flag(s, 1));
            assert((2u8 << 5u8) == 64u8) by (bit_vector);
            assert(n & 3u8 == n) by (bit_vector) requires n < 4;
            crate::le_bytes::lemma_u16_le_roundtrip(index);
            assert([v[4], v[5], v[6], v[7]] =~= data);
        },
        SdoResponse::UploadSegment { t, n, c, data } => {
            lemma_segment_header(0, flag(t, 16), n, flag(c, 1));
            assert((0u8 << 5u8) == 0u8) by (bit_vector);
            assert((0u8 | flag(t, 16) | (n << 1u8) | flag(c, 1)) == (flag(t, 16) | (n << 1u8) | flag(c, 1))) by (bit_vector);
            assert([v[1], v[2], v[3], v[4], v[5], v[6], v[7]] =~= data);
        },
        SdoResponse::ConfirmDownload { index, sub } => {
            lemma_constant_headers(0);
            crate::le_bytes::lemma_u16_le_roundtrip(index);
        },
        SdoResponse::ConfirmDownloadSegment { t } => {
            lemma_constant_headers(flag(t, 16));
        },
        SdoResponse::Abort { index, sub, abort_code } => {
            lemma_constant_headers(0);
            crate::le_bytes::lemma_u16_le_roundtrip(index);
            crate::le_bytes::lemma_u32_le_roundtrip(abort_code);
        },
        _ => {},
    }
}

/// The value of a flag at a bit: `v` when set, else 0.
pub open spec fn bit_value(b: bool, v: int) -> int {
    if b { v } else { 0 }
}

/// Where each field of an SDO request stands in its eight bytes (CiA 301): the client command
/// specifier in the top three bits of byte 0 with the flags below it; the index in bytes 1 and
/// 2, lowest first; the sub index in byte 3; the data or abort code in bytes 4 to 7, or, for a
/// segment, in bytes 1 to 7.
pub open spec fn sdo_request_layout(r: SdoRequest, b: Seq<u8>) -> bool {
    &&& b.len() == 8
    &&& match r {
        SdoRequest::InitiateDownload { n, e, s, index, sub, data } => b[0] == 32 + 4 * n + bit_value(e, 2)
            + bit_value(s, 1) && b[1] + 256 * b[2] == index && b[3] == sub && b.subrange(4, 8) == data@,
        SdoRequest::DownloadSegment { t, n, c, data } => b[0] == bit_value(t, 16) + 2 * n + bit_value(c, 1)
            && b.subrange(1, 8) == data@,
        SdoRequest::InitiateUpload { index, sub } => b[0] == 64 && b[1] + 256 * b[2] == index && b[3] == sub
            && b.subrange(4, 8) == seq![0u8; 4],
        SdoRequest::ReqUploadSegment { t } => b[0] == 96 + bit_value(t, 16) && b.subrange(1, 8) == seq![0u8; 7],
        SdoRequest::Abort { index, sub, abort_code } => b[0] == 128 && b[1] + 256 * b[2] == index && b[3] == sub
            && b[4] + 256 * b[5] + 65536 * b[6] + 16777216 * b[7] == abort_code,
        _ => true,
    }
}

/// Every request whose fields fit is encoded with them at their places in the frame.
#[verifier::rlimit(30)]
pub proof fn lemma_sdo_request_layout(r: SdoRequest)
    requires
        r.wf(),
    ensures
        sdo_request_layout(r, r.spec_bytes()),
{
    let b = r.spec_bytes();
    match r {
        SdoRequest::InitiateDownload { n, e, s, index, data, .. } => {
            let ev = flag(e, 2);
            let sv = flag(s, 1);
            assert((32u8 | (n << 2u8) | ev | sv) == 32 + 4 * n + ev + sv) by (bit_vector)
                requires
                    n < 4,
                    ev == 0 || ev == 2,
                    sv == 0 || sv == 1,
            ;
            crate::le_bytes::lemma_u16_le_roundtrip(index);
            assert(b.subrange(4, 8) =~= data@);
        },
        SdoRequest::DownloadSegment { t, n, c, data } => {
            let tv = flag(t, 16);
            let cv = flag(c, 1);
            assert((tv | ((n & 7u8) << 1u8) | cv) == tv + 2 * n + cv) by (bit_vector)
                requires
                    n < 8,
                    tv == 0 || tv == 16,
                    cv == 0 || cv == 1,
            ;
            assert(b.subrange(1, 8) =~= data@);
        },
        SdoRequest::InitiateUpload { index, .. } => {
            crate::le_bytes::lemma_u16_le_roundtrip(index);
            assert(b.subrange(4, 8) =~= seq![0u8; 4]);
        },
        SdoRequest::ReqUploadSegment { t } => {
            let tv = flag(t, 16);
            assert((96u8 | tv) == 96 + tv) by (bit_vector)
                requires
                    tv == 0 || tv == 16,
            ;
            assert(b.subrange(1, 8) =~= seq![0u8; 7]);
        },
        SdoRequest::Abort { index, abort_code, .. } => {
            crate::le_bytes::lemma_u16_le_roundtrip(index);
            crate::le_bytes::lemma_u32_le_roundtrip(abort_code);
        },
        _ => {},
    }
}

/// The fields of a command byte, by arithmetic.
proof fn lemma_command_byte_fields(x: u8)
    ensures
        x >> 5u8 == x / 32,
        (x & 16u8 != 0) == ((x / 16) % 2 == 1),
        (x >> 1u8) & 7u8 == (x / 2) % 8,
        (x >> 2u8) & 3u8 == (x / 4) % 4,
        (x & 2u8 != 0) == ((x / 2) % 2 == 1),
        (x & 1u8 != 0) == (x % 2 == 1),
{
    assert(x >> 5u8 == x / 32 && (x & 16u8 != 0) == ((x / 16) % 2 == 1) && (x >> 1u8) & 7u8 == (x / 2) % 8
        && (x >> 2u8) & 3u8 == (x / 4) % 4 && (x & 2u8 != 0) == ((x / 2) % 2 == 1) && (x & 1u8 != 0) == (x % 2
        == 1)) by (bit_vector);
}

/// How a client reads the eight bytes of a response (CiA 301): the server command specifier
/// is the top three bits of byte 0 (0 upload segment, 1 download segment confirmation, 2 upload
/// confirmation, 3 download confirmation, 4 abort, others nothing); the toggle is bit 4, a
/// segment's count of unused bytes bits 1 to 3 and its last flag bit 0, an upload
/// confirmation's count bits 2 and 3, expedited flag bit 1 and size flag bit 0; the index is in
/// bytes 1 and 2 (lowest first), the sub index in byte 3, the abort code in bytes 4 to 7.
pub proof fn lemma_sdo_response_reads(d: Seq<u8>)
    requires
        d.len() == 8,
    ensures
        ({
            let x = d[0];
            let scs = x / 32;
            let index = d[1] + 256 * d[2];
            &&& scs == 0 ==> (SdoResponse::spec_try_from(d) matches Ok(SdoResponse::UploadSegment { t, n, c, data }) && t
                == ((x / 16) % 2 == 1) && n == (x / 2) % 8 && c == (x % 2 == 1) && data@ == d.subrange(1, 8))
            &&& scs == 1 ==> SdoResponse::spec_try_from(d) == Ok::<SdoResponse, ()>(
                SdoResponse::ConfirmDownloadSegment { t: (x / 16) % 2 == 1 },
            )
            &&& scs == 2 ==> (SdoResponse::spec_try_from(d) matches Ok(
                SdoResponse::ConfirmUpload { n, e, s, index: i, sub, data },
            ) && n == (x / 4) % 4 && e == ((x / 2) % 2 == 1) && s == (x % 2 == 1) && i == index && sub == d[3]
                && data@ == d.subrange(4, 8))
            &&& scs == 3 ==> (SdoResponse::spec_try_from(d) matches Ok(SdoResponse::ConfirmDownload { index: i, sub })
                && i == index && sub == d[3])
            &&& scs == 4 ==> (SdoResponse::spec_try_from(d) matches Ok(SdoResponse::Abort { index: i, sub, abort_code })
                && i == index && sub == d[3] && abort_code == d[4] + 256 * d[5] + 65536 * d[6] + 16777216 * d[7])
            &&& scs > 4 ==> SdoResponse::spec_try_from(d) is Err
        }),
{
    lemma_command_byte_fields(d[0]);
    if let Ok(SdoResponse::UploadSegment { data, .. }) = SdoResponse::spec_try_from(d) {
        assert(data@ =~= d.subrange(1, 8));
    }
    if let Ok(SdoResponse::ConfirmUpload { data, .. }) = SdoResponse::spec_try_from(d) {
        assert(data@ =~= d.subrange(4, 8));
    }
}

} // verus!
