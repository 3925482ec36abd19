//! The command line of the bus tool: its subcommands, their arguments, and the parser that reads
//! them from the argument list.
//!
//! The first argument is the program name. The second names a subcommand; the rest are its
//! values, in order. Options (arguments that begin with `-` and are longer than one character)
//! are not taken, except a negative number as the value of `write`.
use vstd::prelude::*;
use vstd::string::StrSliceExecFns;
use crate::protocol::lss::LssIdentity;
use crate::text::{
    maybe_hex_number, parse_signed, parse_unsigned, parse_unsigned_text, parse_signed_text, str_eq,
};

verus! {

/// The message of `clap_num::maybe_hex` for a text it refuses, for a type whose maximum is `max`.
pub uninterp spec fn maybe_hex_message(s: Seq<char>, max: nat) -> Seq<char>;

/// Calls `clap_num::maybe_hex::<u8>`, which reads hexadecimal after a `0x` or `0X` prefix and
/// decimal otherwise, each with an optional `+` (it hands the text to `u8::from_str_radix`), and
/// refuses text outside the range of `u8`.
#[verifier::external_body]
pub(crate) fn maybe_hex_u8(s: &str) -> (r: Result<u8, String>)
    ensures
        match r {
            Ok(v) => maybe_hex_number(s@, 0xff) == Some(v as nat),
            Err(e) => maybe_hex_number(s@, 0xff) is None && e@ == maybe_hex_message(s@, 0xff),
        },
{
    clap_num::maybe_hex::<u8>(s)
}

/// Calls `clap_num::maybe_hex::<u16>`, as `maybe_hex_u8` does for `u8`.
#[verifier::external_body]
pub(crate) fn maybe_hex_u16(s: &str) -> (r: Result<u16, String>)
    ensures
        match r {
            Ok(v) => maybe_hex_number(s@, 0xffff) == Some(v as nat),
            Err(e) => maybe_hex_number(s@, 0xffff) is None && e@ == maybe_hex_message(s@, 0xffff),
        },
{
    clap_num::maybe_hex::<u16>(s)
}

/// Calls `clap_num::maybe_hex::<u32>`, as `maybe_hex_u8` does for `u8`.
#[verifier::external_body]
pub(crate) fn maybe_hex_u32(s: &str) -> (r: Result<u32, String>)
    ensures
        match r {
            Ok(v) => maybe_hex_number(s@, 0xffff_ffff) == Some(v as nat),
            Err(e) => maybe_hex_number(s@, 0xffff_ffff) is None && e@ == maybe_hex_message(
                s@,
                0xffff_ffff,
            ),
        },
{
    clap_num::maybe_hex::<u32>(s)
}

/// Why an argument list was refused; positions count the program name as 0.
#[derive(Clone, Copy, Debug, PartialEq, Eq, Structural)]
pub enum CliError {
    /// No subcommand was given
    MissingSubcommand,
    /// The argument at this position names no subcommand
    UnknownSubcommand(usize),
    /// A required value is missing
    MissingArgument,
    /// The argument at this position is an option or one value too many
    UnexpectedArgument(usize),
    /// The argument at this position is not a valid value
    InvalidValue(usize),
}

/// How to read or write the data of an object.
#[derive(Clone, Copy, Debug, PartialEq, Eq, Structural)]
pub enum SdoDataType {
    /// Unsigned 32-bit
    U32,
    /// Unsigned 16-bit
    U16,
    /// Unsigned 8-bit
    U8,
    /// Signed 32-bit
    I32,
    /// Signed 16-bit
    I16,
    /// Signed 8-bit
    I8,
    /// 32-bit float
    F32,
    /// A UTF-8 string
    Utf8,
}

/// Arguments of `read`.
#[derive(Clone, Copy, Debug, PartialEq, Eq, Structural)]
pub struct ReadArgs {
    /// The ID of the node to read from
    pub node_id: u8,
    /// The object index to read
    pub index: u16,
    /// The sub object to read
    pub sub: u8,
    /// How to interpret the response
    pub data_type: Option<SdoDataType>,
}

/// Arguments of `write`.
#[derive(Clone, Debug)]
pub struct WriteArgs {
    /// The ID of the node to write to
    pub node_id: u8,
    /// The object index to write
    pub index: u16,
    /// The sub object to write
    pub sub: u8,
    /// How to interpret the value
    pub data_type: SdoDataType,
    /// The value to write
    pub value: String,
}

/// Arguments of `scan-pdo-config`.
#[derive(Clone, Copy, Debug, PartialEq, Eq, Structural)]
pub struct ScanPdoConfigArgs {
    /// The node to scan
    pub node_id: u8,
}

/// Arguments of `load-config`.
#[derive(Clone, Debug)]
pub struct LoadConfigArgs {
    /// The ID of the node to load the configuration into
    pub node_id: u8,
    /// Path to a node config TOML file
    pub path: String,
}

/// Arguments of `save-objects`.
#[derive(Clone, Copy, Debug, PartialEq, Eq, Structural)]
pub struct SaveObjectsArgs {
    /// The ID of the node to command
    pub node_id: u8,
}

/// Arguments of `sync`.
#[derive(Clone, Copy, Debug, PartialEq, Eq, Structural)]
pub struct SyncArgs {
    /// The optional count value; without it the SYNC has no data
    pub count: Option<u8>,
}

/// The node an NMT command is for.
#[derive(Clone, Copy, Debug, PartialEq, Eq, Structural)]
pub enum NmtNodeArg {
    /// Broadcast to all nodes
    All,
    /// One node
    Specific(u8),
}

/// Arguments of `nmt`.
#[derive(Clone, Copy, Debug, PartialEq, Eq, Structural)]
pub struct NmtArgs {
    /// The command
    pub action: NmtAction,
    /// The node to command; `0` or `all` broadcasts
    pub node: NmtNodeArg,
}

/// The NMT commands of the command line.
#[derive(Clone, Copy, Debug, PartialEq, Eq, Structural)]
pub enum NmtAction {
    /// Reset the application
    ResetApp,
    /// Reset communications
    ResetComms,
    /// Start operation
    Start,
    /// Stop operation
    Stop,
}

/// An LSS identity given on the command line.
#[derive(Clone, Copy, Debug, PartialEq, Eq, Structural)]
pub struct IdentityArgs {
    /// The vendor ID
    pub vendor_id: u32,
    /// The product to configure
    pub product_code: u32,
    /// The revision to configure
    pub revision: u32,
    /// The serial number
    pub serial: u32,
}

/// The LSS subcommands.
#[derive(Clone, Copy, Debug, PartialEq, Eq, Structural)]
pub enum LssCommands {
    /// Put the device into configuration mode, and all others into waiting mode
    Activate {
        /// The device
        identity: IdentityArgs,
    },
    /// Perform a fastscan to find unconfigured nodes
    Fastscan {
        /// Timeout for waiting for fastscan response in milliseconds
        timeout: u64,
    },
    /// Assign a node ID
    SetNodeId {
        /// The node ID to assign
        node_id: u8,
        /// The device, when it is not the one in configuration mode
        identity: Option<IdentityArgs>,
    },
    /// Store the configuration
    StoreConfig {
        /// The device, when it is not the one in configuration mode
        identity: Option<IdentityArgs>,
    },
    /// Globally enable or disable configuration mode
    Global {
        /// 0 to put in waiting, 1 to put into configuration
        enable: u8,
    },
}

/// The subcommands.
#[derive(Clone, Debug)]
pub enum Commands {
    /// Read an object via SDO
    Read(ReadArgs),
    /// Write an object via SDO
    Write(WriteArgs),
    /// Scan all node IDs to find configured devices
    Scan,
    /// Scan the PDO configuration from a node
    ScanPdoConfig(ScanPdoConfigArgs),
    /// Print info about nodes
    Info,
    /// Load a configuration from a file to a node
    LoadConfig(LoadConfigArgs),
    /// Send command to save persistable objects
    SaveObjects(SaveObjectsArgs),
    /// NMT commands
    Nmt(NmtArgs),
    /// LSS commands
    Lss(LssCommands),
    /// Send a SYNC packet
    Sync(SyncArgs),
}

/// A parsed command line.
#[derive(Clone, Debug)]
pub struct Cli {
    /// The subcommand
    pub command: Commands,
}

/// `WriteArgs` with its value as characters.
pub struct WriteModel {
    /// The node
    pub node_id: u8,
    /// The index
    pub index: u16,
    /// The sub index
    pub sub: u8,
    /// The data type
    pub data_type: SdoDataType,
    /// The value text
    pub value: Seq<char>,
}

/// A subcommand with its text arguments as characters.
pub enum CommandModel {
    /// `read`
    Read(ReadArgs),
    /// `write`
    Write(WriteModel),
    /// `scan`
    Scan,
    /// `scan-pdo-config`
    ScanPdoConfig(ScanPdoConfigArgs),
    /// `info`
    Info,
    /// `load-config`, with the node and the path
    LoadConfig(u8, Seq<char>),
    /// `save-objects`
    SaveObjects(SaveObjectsArgs),
    /// `nmt`
    Nmt(NmtArgs),
    /// `lss`
    Lss(LssCommands),
    /// `sync`
    Sync(SyncArgs),
}

impl Commands {
    /// The subcommand with its text arguments as characters.
    pub open spec fn model(self) -> CommandModel {
        match self {
            Commands::Read(a) => CommandModel::Read(a),
            Commands::Write(a) => CommandModel::Write(
                WriteModel {
                    node_id: a.node_id,
                    index: a.index,
                    sub: a.sub,
                    data_type: a.data_type,
                    value: a.value@,
                },
            ),
            Commands::Scan => CommandModel::Scan,
            Commands::ScanPdoConfig(a) => CommandModel::ScanPdoConfig(a),
            Commands::Info => CommandModel::Info,
            Commands::LoadConfig(a) => CommandModel::LoadConfig(a.node_id, a.path@),
            Commands::SaveObjects(a) => CommandModel::SaveObjects(a),
            Commands::Nmt(a) => CommandModel::Nmt(a),
            Commands::Lss(a) => CommandModel::Lss(a),
            Commands::Sync(a) => CommandModel::Sync(a),
        }
    }
}

/// The characters of each argument.
pub open spec fn views(args: Seq<&str>) -> Seq<Seq<char>> {
    Seq::new(args.len(), |i: int| args[i]@)
}

/// An argument that is an option: `-` followed by at least one character.
pub open spec fn is_option(t: Seq<char>) -> bool {
    t.len() >= 2 && t[0] == '-'
}

/// An argument that reads as a negative number: `-` followed by a digit.
pub open spec fn is_negative_number(t: Seq<char>) -> bool {
    t.len() >= 2 && t[0] == '-' && '0' <= t[1] && t[1] <= '9'
}

/// An option at position `i`, where a negative number is allowed at `negative_ok`.
pub open spec fn forbidden(a: Seq<Seq<char>>, i: int, negative_ok: Option<usize>) -> bool {
    is_option(a[i]) && !(negative_ok == Some(i as usize) && is_negative_number(a[i]))
}

/// The first option at or after position `i`.
pub open spec fn first_forbidden(a: Seq<Seq<char>>, i: int, negative_ok: Option<usize>) -> Option<int>
    decreases a.len() - i,
{
    if i < 0 || i >= a.len() {
        None
    } else if forbidden(a, i, negative_ok) {
        Some(i)
    } else {
        first_forbidden(a, i + 1, negative_ok)
    }
}

/// The values from position `from` on are no options and number from `min` to `max`.
pub open spec fn spec_values(a: Seq<Seq<char>>, from: int, min: int, max: int, negative_ok: Option<usize>) -> Result<
    (),
    CliError,
> {
    match first_forbidden(a, from, negative_ok) {
        Some(i) => Err(CliError::UnexpectedArgument(i as usize)),
        None => if a.len() - from < min {
            Err(CliError::MissingArgument)
        } else if a.len() - from > max {
            Err(CliError::UnexpectedArgument((from + max) as usize))
        } else {
            Ok(())
        },
    }
}

/// Checks that the values from position `from` on are no options and number from `min` to
/// `max`.
fn check_values(args: &[&str], from: usize, min: usize, max: usize, negative_ok: Option<usize>) -> (r: Result<(), CliError>)
    requires
        from <= args@.len(),
        max < 8,
    ensures
        r == spec_values(views(args@), from as int, min as int, max as int, negative_ok),
{
    let ghost a = views(args@);
    let n = args.len();
    let mut i = from;
    while i < n
        invariant
            from <= i <= n,
            n == args@.len(),
            a == views(args@),
            first_forbidden(a, from as int, negative_ok) == first_forbidden(a, i as int, negative_ok),
        decreases n - i,
    {
        let t = args[i];
        assert(t@ == a[i as int]);
        let len = t.unicode_len();
        let option = len >= 2 && t.get_char(0) == '-';
        let negative = len >= 2 && t.get_char(0) == '-' && '0' <= t.get_char(1) && t.get_char(1) <= '9';
        let allowed = match negative_ok {
            Some(p) => p == i && negative,
            None => false,
        };
        if option && !allowed {
            assert(forbidden(a, i as int, negative_ok));
            return Err(CliError::UnexpectedArgument(i));
        }
        assert(!forbidden(a, i as int, negative_ok));
        i = i + 1;
    }
    assert(first_forbidden(a, n as int, negative_ok) is None);
    if n - from < min {
        Err(CliError::MissingArgument)
    } else if n - from > max {
        Err(CliError::UnexpectedArgument(from + max))
    } else {
        Ok(())
    }
}


/// The data type a name stands for.
pub open spec fn spec_data_type(t: Seq<char>) -> Option<SdoDataType> {
    if t == "u32"@ {
        Some(SdoDataType::U32)
    } else if t == "u16"@ {
        Some(SdoDataType::U16)
    } else if t == "u8"@ {
        Some(SdoDataType::U8)
    } else if t == "i32"@ {
        Some(SdoDataType::I32)
    } else if t == "i16"@ {
        Some(SdoDataType::I16)
    } else if t == "i8"@ {
        Some(SdoDataType::I8)
    } else if t == "f32"@ {
        Some(SdoDataType::F32)
    } else if t == "utf8"@ {
        Some(SdoDataType::Utf8)
    } else {
        None
    }
}

/// Reads the name of a data type.
fn data_type_arg(t: &str) -> (r: Option<SdoDataType>)
    ensures
        r == spec_data_type(t@),
{
    if str_eq(t, "u32") {
        Some(SdoDataType::U32)
    } else if str_eq(t, "u16") {
        Some(SdoDataType::U16)
    } else if str_eq(t, "u8") {
        Some(SdoDataType::U8)
    } else if str_eq(t, "i32") {
        Some(SdoDataType::I32)
    } else if str_eq(t, "i16") {
        Some(SdoDataType::I16)
    } else if str_eq(t, "i8") {
        Some(SdoDataType::I8)
    } else if str_eq(t, "f32") {
        Some(SdoDataType::F32)
    } else if str_eq(t, "utf8") {
        Some(SdoDataType::Utf8)
    } else {
        None
    }
}

/// The NMT command a name stands for.
pub open spec fn spec_nmt_action(t: Seq<char>) -> Option<NmtAction> {
    if t == "reset-app"@ {
        Some(NmtAction::ResetApp)
    } else if t == "reset-comms"@ {
        Some(NmtAction::ResetComms)
    } else if t == "start"@ {
        Some(NmtAction::Start)
    } else if t == "stop"@ {
        Some(NmtAction::Stop)
    } else {
        None
    }
}

/// Reads the name of an NMT command.
fn nmt_action_arg(t: &str) -> (r: Option<NmtAction>)
    ensures
        r == spec_nmt_action(t@),
{
    if str_eq(t, "reset-app") {
        Some(NmtAction::ResetApp)
    } else if str_eq(t, "reset-comms") {
        Some(NmtAction::ResetComms)
    } else if str_eq(t, "start") {
        Some(NmtAction::Start)
    } else if str_eq(t, "stop") {
        Some(NmtAction::Stop)
    } else {
        None
    }
}

/// The name of each NMT command on the command line, in kebab case.
pub open spec fn nmt_action_name(a: NmtAction) -> Seq<char> {
    match a {
        NmtAction::ResetApp => "reset-app"@,
        NmtAction::ResetComms => "reset-comms"@,
        NmtAction::Start => "start"@,
        NmtAction::Stop => "stop"@,
    }
}

/// The name of each data type on the command line.
pub open spec fn data_type_name(t: SdoDataType) -> Seq<char> {
    match t {
        SdoDataType::U32 => "u32"@,
        SdoDataType::U16 => "u16"@,
        SdoDataType::U8 => "u8"@,
        SdoDataType::I32 => "i32"@,
        SdoDataType::I16 => "i16"@,
        SdoDataType::I8 => "i8"@,
        SdoDataType::F32 => "f32"@,
        SdoDataType::Utf8 => "utf8"@,
    }
}

/// Each NMT command is read back from its own name: `start` starts, `stop` stops, and so on.
pub proof fn lemma_nmt_action_names(a: NmtAction)
    ensures
        spec_nmt_action(nmt_action_name(a)) == Some(a),
{
    reveal_strlit("reset-app");
    reveal_strlit("reset-comms");
    reveal_strlit("start");
    reveal_strlit("stop");
    let n = nmt_action_name(a);
    assert("reset-app"@.len() == 9 && "reset-comms"@.len() == 11 && "start"@.len() == 5 && "stop"@.len() == 4);
    if a == NmtAction::ResetComms {
        assert(n[6] != "reset-app"@[6]);
    }
}

/// Each data type is read back from its own name.
pub proof fn lemma_data_type_names(t: SdoDataType)
    ensures
        spec_data_type(data_type_name(t)) == Some(t),
{
    reveal_strlit("u32");
    reveal_strlit("u16");
    reveal_strlit("u8");
    reveal_strlit("i32");
    reveal_strlit("i16");
    reveal_strlit("i8");
    reveal_strlit("f32");
    reveal_strlit("utf8");
    match t {
        SdoDataType::U32 => {  },
        SdoDataType::U16 => { assert("u16"@[1] != "u32"@[1]); },
        SdoDataType::U8 => { assert("u8"@.len() != "u32"@.len()); assert("u8"@.len() != "u16"@.len()); },
        SdoDataType::I32 => { assert("i32"@[0] != "u32"@[0]); assert("i32"@[0] != "u16"@[0]); assert("i32"@.len() != "u8"@.len()); },
        SdoDataType::I16 => { assert("i16"@[0] != "u32"@[0]); assert("i16"@[0] != "u16"@[0]); assert("i16"@.len() != "u8"@.len()); assert("i16"@[1] != "i32"@[1]); },
        SdoDataType::I8 => { assert("i8"@.len() != "u32"@.len()); assert("i8"@.len() != "u16"@.len()); assert("i8"@[0] != "u8"@[0]); assert("i8"@.len() != "i32"@.len()); assert("i8"@.len() != "i16"@.len()); },
        SdoDataType::F32 => { assert("f32"@[0] != "u32"@[0]); assert("f32"@[0] != "u16"@[0]); assert("f32"@.len() != "u8"@.len()); assert("f32"@[0] != "i32"@[0]); assert("f32"@[0] != "i16"@[0]); assert("f32"@.len() != "i8"@.len()); },
        SdoDataType::Utf8 => { assert("utf8"@.len() != "u32"@.len()); assert("utf8"@.len() != "u16"@.len()); assert("utf8"@.len() != "u8"@.len()); assert("utf8"@.len() != "i32"@.len()); assert("utf8"@.len() != "i16"@.len()); assert("utf8"@.len() != "i8"@.len()); assert("utf8"@.len() != "f32"@.len()); },
    }
}

impl NmtNodeArg {
    /// The node number: 0 for all nodes.
    pub open spec fn spec_raw(self) -> u8 {
        match self {
            NmtNodeArg::All => 0,
            NmtNodeArg::Specific(id) => id,
        }
    }

    /// Returns the node number, 0 for all nodes.
    pub fn raw(&self) -> (r: u8)
        ensures
            r == self.spec_raw(),
    {
        match self {
            NmtNodeArg::All => 0,
            NmtNodeArg::Specific(id) => *id,
        }
    }

    /// A node argument: a node number in decimal or after `0x` in hexadecimal, 0 for all nodes,
    /// or the word `all`.
    pub open spec fn spec_parse(s: Seq<char>) -> Result<NmtNodeArg, Seq<char>> {
        let id = if s.len() >= 2 && s[0] == '0' && s[1] == 'x' {
            parse_unsigned(s.skip(2), 16, 0xff)
        } else {
            parse_unsigned(s, 10, 0xff)
        };
        match id {
            Some(n) => if n == 0 {
                Ok(NmtNodeArg::All)
            } else if n < 128 {
                Ok(NmtNodeArg::Specific(n as u8))
            } else {
                Err("Node ID must be between 0 and 127"@)
            },
            None => if s == "all"@ {
                Ok(NmtNodeArg::All)
            } else {
                Err("Must specify a node ID between 0 and 127, or 'all' to broadcast"@)
            },
        }
    }

    /// Reads a node argument.
    pub fn parse(s: &str) -> (r: Result<NmtNodeArg, &'static str>)
        ensures
            match r {
                Ok(v) => Self::spec_parse(s@) == Ok::<NmtNodeArg, Seq<char>>(v),
                Err(m) => Self::spec_parse(s@) == Err::<NmtNodeArg, Seq<char>>(m@),
            },
    {
        let n = s.unicode_len();
        let id = if n >= 2 && s.get_char(0) == '0' && s.get_char(1) == 'x' {
            let digits = s.substring_char(2, n);
            assert(digits@ =~= s@.skip(2));
            parse_unsigned_text(digits, 16, 0xff)
        } else {
            parse_unsigned_text(s, 10, 0xff)
        };
        match id {
            Some(num) => {
                if num == 0 {
                    Ok(NmtNodeArg::All)
                } else if num < 128 {
                    Ok(NmtNodeArg::Specific(num as u8))
                } else {
                    Err("Node ID must be between 0 and 127")
                }
            },
            None => {
                if str_eq(s, "all") {
                    Ok(NmtNodeArg::All)
                } else {
                    Err("Must specify a node ID between 0 and 127, or 'all' to broadcast")
                }
            },
        }
    }
}

impl core::str::FromStr for NmtNodeArg {
    type Err = &'static str;

    /// Reads a node argument, as `NmtNodeArg::parse` does.
    fn from_str(s: &str) -> (r: Result<Self, Self::Err>)
        ensures
            match r {
                Ok(v) => NmtNodeArg::spec_parse(s@) == Ok::<NmtNodeArg, Seq<char>>(v),
                Err(m) => NmtNodeArg::spec_parse(s@) == Err::<NmtNodeArg, Seq<char>>(m@),
            },
    {
        NmtNodeArg::parse(s)
    }
}

impl From<IdentityArgs> for LssIdentity {
    fn from(value: IdentityArgs) -> (r: LssIdentity) {
        LssIdentity {
            vendor_id: value.vendor_id,
            product_code: value.product_code,
            revision: value.revision,
            serial: value.serial,
        }
    }
}

impl vstd::std_specs::convert::FromSpecImpl<IdentityArgs> for LssIdentity {
    open spec fn obeys_from_spec() -> bool {
        true
    }

    open spec fn from_spec(value: IdentityArgs) -> LssIdentity {
        LssIdentity {
            vendor_id: value.vendor_id,
            product_code: value.product_code,
            revision: value.revision,
            serial: value.serial,
        }
    }
}

/// A parse result agrees with the model result.
pub open spec fn agrees(r: Result<Commands, CliError>, m: Result<CommandModel, CliError>) -> bool {
    match r {
        Ok(c) => m == Ok::<CommandModel, CliError>(c.model()),
        Err(e) => m == Err::<CommandModel, CliError>(e),
    }
}

/// The identity written by the four values from position `k`.
pub open spec fn spec_identity(a: Seq<Seq<char>>, k: int) -> Result<IdentityArgs, CliError> {
    if maybe_hex_number(a[k], 0xffff_ffff) is None {
        Err(CliError::InvalidValue(k as usize))
    } else if maybe_hex_number(a[k + 1], 0xffff_ffff) is None {
        Err(CliError::InvalidValue((k + 1) as usize))
    } else if maybe_hex_number(a[k + 2], 0xffff_ffff) is None {
        Err(CliError::InvalidValue((k + 2) as usize))
    } else if maybe_hex_number(a[k + 3], 0xffff_ffff) is None {
        Err(CliError::InvalidValue((k + 3) as usize))
    } else {
        Ok(
            IdentityArgs {
                vendor_id: maybe_hex_number(a[k], 0xffff_ffff).unwrap() as u32,
                product_code: maybe_hex_number(a[k + 1], 0xffff_ffff).unwrap() as u32,
                revision: maybe_hex_number(a[k + 2], 0xffff_ffff).unwrap() as u32,
                serial: maybe_hex_number(a[k + 3], 0xffff_ffff).unwrap() as u32,
            },
        )
    }
}

/// Reads the identity written by the four values from position `k`.
fn identity_args(args: &[&str], k: usize) -> (r: Result<IdentityArgs, CliError>)
    requires
        k + 4 <= args@.len(),
    ensures
        r == spec_identity(views(args@), k as int),
{
    let vendor_id = match maybe_hex_u32(args[k]) {
        Ok(v) => v,
        Err(_) => return Err(CliError::InvalidValue(k)),
    };
    let product_code = match maybe_hex_u32(args[k + 1]) {
        Ok(v) => v,
        Err(_) => return Err(CliError::InvalidValue(k + 1)),
    };
    let revision = match maybe_hex_u32(args[k + 2]) {
        Ok(v) => v,
        Err(_) => return Err(CliError::InvalidValue(k + 2)),
    };
    let serial = match maybe_hex_u32(args[k + 3]) {
        Ok(v) => v,
        Err(_) => return Err(CliError::InvalidValue(k + 3)),
    };
    Ok(IdentityArgs { vendor_id, product_code, revision, serial })
}


/// `read`: node, index and sub index, then an optional data type.
pub open spec fn spec_read(a: Seq<Seq<char>>, k: int) -> Result<CommandModel, CliError> {
    match spec_values(a, k, 3, 4, None) {
        Err(e) => Err(e),
        Ok(_) => if maybe_hex_number(a[k], 0xff) is None {
            Err(CliError::InvalidValue(k as usize))
        } else if maybe_hex_number(a[k + 1], 0xffff) is None {
            Err(CliError::InvalidValue((k + 1) as usize))
        } else if maybe_hex_number(a[k + 2], 0xff) is None {
            Err(CliError::InvalidValue((k + 2) as usize))
        } else if a.len() > k + 3 && spec_data_type(a[k + 3]) is None {
            Err(CliError::InvalidValue((k + 3) as usize))
        } else {
            Ok(
                CommandModel::Read(
                    ReadArgs {
                        node_id: maybe_hex_number(a[k], 0xff).unwrap() as u8,
                        index: maybe_hex_number(a[k + 1], 0xffff).unwrap() as u16,
                        sub: maybe_hex_number(a[k + 2], 0xff).unwrap() as u8,
                        data_type: if a.len() > k + 3 {
                            spec_data_type(a[k + 3])
                        } else {
                            None
                        },
                    },
                ),
            )
        },
    }
}

fn parse_read(args: &[&str], k: usize) -> (r: Result<Commands, CliError>)
    requires
        k <= args@.len(),
    ensures
        agrees(r, spec_read(views(args@), k as int)),
{
    if let Err(e) = check_values(args, k, 3, 4, None) {
        return Err(e);
    }
    let node_id = match maybe_hex_u8(args[k]) {
        Ok(v) => v,
        Err(_) => return Err(CliError::InvalidValue(k)),
    };
    let index = match maybe_hex_u16(args[k + 1]) {
        Ok(v) => v,
        Err(_) => return Err(CliError::InvalidValue(k + 1)),
    };
    let sub = match maybe_hex_u8(args[k + 2]) {
        Ok(v) => v,
        Err(_) => return Err(CliError::InvalidValue(k + 2)),
    };
    let data_type = if args.len() > k + 3 {
        match data_type_arg(args[k + 3]) {
            Some(t) => Some(t),
            None => return Err(CliError::InvalidValue(k + 3)),
        }
    } else {
        None
    };
    Ok(Commands::Read(ReadArgs { node_id, index, sub, data_type }))
}

/// `write`: node, index, sub index, data type and the value, which may be a negative number.
pub open spec fn spec_write(a: Seq<Seq<char>>, k: int) -> Result<CommandModel, CliError> {
    match spec_values(a, k, 5, 5, Some((k + 4) as usize)) {
        Err(e) => Err(e),
        Ok(_) => if maybe_hex_number(a[k], 0xff) is None {
            Err(CliError::InvalidValue(k as usize))
        } else if maybe_hex_number(a[k + 1], 0xffff) is None {
            Err(CliError::InvalidValue((k + 1) as usize))
        } else if maybe_hex_number(a[k + 2], 0xff) is None {
            Err(CliError::InvalidValue((k + 2) as usize))
        } else if spec_data_type(a[k + 3]) is None {
            Err(CliError::InvalidValue((k + 3) as usize))
        } else {
            Ok(
                CommandModel::Write(
                    WriteModel {
                        node_id: maybe_hex_number(a[k], 0xff).unwrap() as u8,
                        index: maybe_hex_number(a[k + 1], 0xffff).unwrap() as u16,
                        sub: maybe_hex_number(a[k + 2], 0xff).unwrap() as u8,
                        data_type: spec_data_type(a[k + 3]).unwrap(),
                        value: a[k + 4],
                    },
                ),
            )
        },
    }
}

fn parse_write(args: &[&str], k: usize) -> (r: Result<Commands, CliError>)
    requires
        k <= args@.len(),
        args@.len() + 8 <= usize::MAX,
    ensures
        agrees(r, spec_write(views(args@), k as int)),
{
    if let Err(e) = check_values(args, k, 5, 5, Some(k + 4)) {
        return Err(e);
    }
    let node_id = match maybe_hex_u8(args[k]) {
        Ok(v) => v,
        Err(_) => return Err(CliError::InvalidValue(k)),
    };
    let index = match maybe_hex_u16(args[k + 1]) {
        Ok(v) => v,
        Err(_) => return Err(CliError::InvalidValue(k + 1)),
    };
    let sub = match maybe_hex_u8(args[k + 2]) {
        Ok(v) => v,
        Err(_) => return Err(CliError::InvalidValue(k + 2)),
    };
    let data_type = match data_type_arg(args[k + 3]) {
        Some(t) => t,
        None => return Err(CliError::InvalidValue(k + 3)),
    };
    let value = args[k + 4].to_owned();
    Ok(Commands::Write(WriteArgs { node_id, index, sub, data_type, value }))
}

/// A subcommand whose one value is a node ID.
pub open spec fn spec_node_only(a: Seq<Seq<char>>, k: int) -> Result<u8, CliError> {
    match spec_values(a, k, 1, 1, None) {
        Err(e) => Err(e),
        Ok(_) => match maybe_hex_number(a[k], 0xff) {
            None => Err(CliError::InvalidValue(k as usize)),
            Some(v) => Ok(v as u8),
        },
    }
}

fn parse_node_only(args: &[&str], k: usize) -> (r: Result<u8, CliError>)
    requires
        k <= args@.len(),
    ensures
        r == spec_node_only(views(args@), k as int),
{
    if let Err(e) = check_values(args, k, 1, 1, None) {
        return Err(e);
    }
    match maybe_hex_u8(args[k]) {
        Ok(v) => Ok(v),
        Err(_) => Err(CliError::InvalidValue(k)),
    }
}

/// `load-config`: node and path.
pub open spec fn spec_load_config(a: Seq<Seq<char>>, k: int) -> Result<CommandModel, CliError> {
    match spec_values(a, k, 2, 2, None) {
        Err(e) => Err(e),
        Ok(_) => match maybe_hex_number(a[k], 0xff) {
            None => Err(CliError::InvalidValue(k as usize)),
            Some(v) => Ok(CommandModel::LoadConfig(v as u8, a[k + 1])),
        },
    }
}

fn parse_load_config(args: &[&str], k: usize) -> (r: Result<Commands, CliError>)
    requires
        k <= args@.len(),
    ensures
        agrees(r, spec_load_config(views(args@), k as int)),
{
    if let Err(e) = check_values(args, k, 2, 2, None) {
        return Err(e);
    }
    let node_id = match maybe_hex_u8(args[k]) {
        Ok(v) => v,
        Err(_) => return Err(CliError::InvalidValue(k)),
    };
    let path = args[k + 1].to_owned();
    Ok(Commands::LoadConfig(LoadConfigArgs { node_id, path }))
}

/// `nmt`: the command and the node.
pub open spec fn spec_nmt(a: Seq<Seq<char>>, k: int) -> Result<CommandModel, CliError> {
    match spec_values(a, k, 2, 2, None) {
        Err(e) => Err(e),
        Ok(_) => match spec_nmt_action(a[k]) {
            None => Err(CliError::InvalidValue(k as usize)),
            Some(action) => match NmtNodeArg::spec_parse(a[k + 1]) {
                Err(_) => Err(CliError::InvalidValue((k + 1) as usize)),
                Ok(node) => Ok(CommandModel::Nmt(NmtArgs { action, node })),
            },
        },
    }
}

fn parse_nmt(args: &[&str], k: usize) -> (r: Result<Commands, CliError>)
    requires
        k <= args@.len(),
    ensures
        agrees(r, spec_nmt(views(args@), k as int)),
{
    if let Err(e) = check_values(args, k, 2, 2, None) {
        return Err(e);
    }
    let action = match nmt_action_arg(args[k]) {
        Some(v) => v,
        None => return Err(CliError::InvalidValue(k)),
    };
    let node = match NmtNodeArg::parse(args[k + 1]) {
        Ok(v) => v,
        Err(_) => return Err(CliError::InvalidValue(k + 1)),
    };
    Ok(Commands::Nmt(NmtArgs { action, node }))
}

/// `sync`: an optional count from 0 to 255.
pub open spec fn spec_sync(a: Seq<Seq<char>>, k: int) -> Result<CommandModel, CliError> {
    match spec_values(a, k, 0, 1, None) {
        Err(e) => Err(e),
        Ok(_) => if a.len() > k {
            match parse_signed(a[k], 0, 0xff) {
                None => Err(CliError::InvalidValue(k as usize)),
                Some(v) => Ok(CommandModel::Sync(SyncArgs { count: Some(v as u8) })),
            }
        } else {
            Ok(CommandModel::Sync(SyncArgs { count: None }))
        },
    }
}

fn parse_sync(args: &[&str], k: usize) -> (r: Result<Commands, CliError>)
    requires
        k <= args@.len(),
    ensures
        agrees(r, spec_sync(views(args@), k as int)),
{
    if let Err(e) = check_values(args, k, 0, 1, None) {
        return Err(e);
    }
    if args.len() > k {
        match parse_signed_text(args[k], 0, 0xff) {
            None => Err(CliError::InvalidValue(k)),
            Some(v) => Ok(Commands::Sync(SyncArgs { count: Some(v as u8) })),
        }
    } else {
        Ok(Commands::Sync(SyncArgs { count: None }))
    }
}


/// `lss activate`: the four identity values.
pub open spec fn spec_activate(a: Seq<Seq<char>>, k: int) -> Result<LssCommands, CliError> {
    match spec_values(a, k, 4, 4, None) {
        Err(e) => Err(e),
        Ok(_) => match spec_identity(a, k) {
            Err(e) => Err(e),
            Ok(identity) => Ok(LssCommands::Activate { identity }),
        },
    }
}

/// `lss fastscan`: an optional timeout in milliseconds, 5 when it is left out.
pub open spec fn spec_fastscan(a: Seq<Seq<char>>, k: int) -> Result<LssCommands, CliError> {
    match spec_values(a, k, 0, 1, None) {
        Err(e) => Err(e),
        Ok(_) => if a.len() > k {
            match parse_unsigned(a[k], 10, 0xffff_ffff_ffff_ffff) {
                None => Err(CliError::InvalidValue(k as usize)),
                Some(v) => Ok(LssCommands::Fastscan { timeout: v as u64 }),
            }
        } else {
            Ok(LssCommands::Fastscan { timeout: 5 })
        },
    }
}

/// `lss set-node-id`: the node ID, then optionally the four identity values.
pub open spec fn spec_set_node_id(a: Seq<Seq<char>>, k: int) -> Result<LssCommands, CliError> {
    match spec_values(a, k, 1, 5, None) {
        Err(e) => Err(e),
        Ok(_) => if a.len() - k != 1 && a.len() - k != 5 {
            Err(CliError::MissingArgument)
        } else {
            match maybe_hex_number(a[k], 0xff) {
                None => Err(CliError::InvalidValue(k as usize)),
                Some(node_id) => if a.len() - k == 5 {
                    match spec_identity(a, k + 1) {
                        Err(e) => Err(e),
                        Ok(identity) => Ok(
                            LssCommands::SetNodeId { node_id: node_id as u8, identity: Some(identity) },
                        ),
                    }
                } else {
                    Ok(LssCommands::SetNodeId { node_id: node_id as u8, identity: None })
                },
            }
        },
    }
}

/// `lss store-config`: optionally the four identity values.
pub open spec fn spec_store_config(a: Seq<Seq<char>>, k: int) -> Result<LssCommands, CliError> {
    match spec_values(a, k, 0, 4, None) {
        Err(e) => Err(e),
        Ok(_) => if a.len() - k == 4 {
            match spec_identity(a, k) {
                Err(e) => Err(e),
                Ok(identity) => Ok(LssCommands::StoreConfig { identity: Some(identity) }),
            }
        } else if a.len() - k == 0 {
            Ok(LssCommands::StoreConfig { identity: None })
        } else {
            Err(CliError::MissingArgument)
        },
    }
}

/// `lss global`: 0 or 1 (any value from 0 to 255 is taken).
pub open spec fn spec_global(a: Seq<Seq<char>>, k: int) -> Result<LssCommands, CliError> {
    match spec_values(a, k, 1, 1, None) {
        Err(e) => Err(e),
        Ok(_) => match parse_signed(a[k], 0, 0xff) {
            None => Err(CliError::InvalidValue(k as usize)),
            Some(v) => Ok(LssCommands::Global { enable: v as u8 }),
        },
    }
}

/// `lss`: one of its subcommands, named at position `p`.
pub open spec fn spec_lss(a: Seq<Seq<char>>, p: int) -> Result<LssCommands, CliError> {
    if p >= a.len() {
        Err(CliError::MissingSubcommand)
    } else if a[p] == "activate"@ {
        spec_activate(a, p + 1)
    } else if a[p] == "fastscan"@ {
        spec_fastscan(a, p + 1)
    } else if a[p] == "set-node-id"@ {
        spec_set_node_id(a, p + 1)
    } else if a[p] == "store-config"@ {
        spec_store_config(a, p + 1)
    } else if a[p] == "global"@ {
        spec_global(a, p + 1)
    } else {
        Err(CliError::UnknownSubcommand(p as usize))
    }
}

fn parse_lss(args: &[&str], p: usize) -> (r: Result<LssCommands, CliError>)
    requires
        p <= args@.len(),
        args@.len() + 8 <= usize::MAX,
    ensures
        r == spec_lss(views(args@), p as int),
{
    let ghost a = views(args@);
    if p >= args.len() {
        return Err(CliError::MissingSubcommand);
    }
    let t = args[p];
    assert(t@ == a[p as int]);
    let k = p + 1;
    if str_eq(t, "activate") {
        if let Err(e) = check_values(args, k, 4, 4, None) {
            return Err(e);
        }
        match identity_args(args, k) {
            Err(e) => Err(e),
            Ok(identity) => Ok(LssCommands::Activate { identity }),
        }
    } else if str_eq(t, "fastscan") {
        if let Err(e) = check_values(args, k, 0, 1, None) {
            return Err(e);
        }
        if args.len() > k {
            match parse_unsigned_text(args[k], 10, 0xffff_ffff_ffff_ffff) {
                None => Err(CliError::InvalidValue(k)),
                Some(v) => Ok(LssCommands::Fastscan { timeout: v }),
            }
        } else {
            Ok(LssCommands::Fastscan { timeout: 5 })
        }
    } else if str_eq(t, "set-node-id") {
        if let Err(e) = check_values(args, k, 1, 5, None) {
            return Err(e);
        }
        let count = args.len() - k;
        if count != 1 && count != 5 {
            return Err(CliError::MissingArgument);
        }
        let node_id = match maybe_hex_u8(args[k]) {
            Ok(v) => v,
            Err(_) => return Err(CliError::InvalidValue(k)),
        };
        if count == 5 {
            match identity_args(args, k + 1) {
                Err(e) => Err(e),
                Ok(identity) => Ok(LssCommands::SetNodeId { node_id, identity: Some(identity) }),
            }
        } else {
            Ok(LssCommands::SetNodeId { node_id, identity: None })
        }
    } else if str_eq(t, "store-config") {
        if let Err(e) = check_values(args, k, 0, 4, None) {
            return Err(e);
        }
        let count = args.len() - k;
        if count == 4 {
            match identity_args(args, k) {
                Err(e) => Err(e),
                Ok(identity) => Ok(LssCommands::StoreConfig { identity: Some(identity) }),
            }
        } else if count == 0 {
            Ok(LssCommands::StoreConfig { identity: None })
        } else {
            Err(CliError::MissingArgument)
        }
    } else if str_eq(t, "global") {
        if let Err(e) = check_values(args, k, 1, 1, None) {
            return Err(e);
        }
        match parse_signed_text(args[k], 0, 0xff) {
            None => Err(CliError::InvalidValue(k)),
            Some(v) => Ok(LssCommands::Global { enable: v as u8 }),
        }
    } else {
        Err(CliError::UnknownSubcommand(p))
    }
}

/// The subcommand of an argument list whose first element is the program name.
pub open spec fn spec_command(a: Seq<Seq<char>>) -> Result<CommandModel, CliError> {
    if a.len() < 2 {
        Err(CliError::MissingSubcommand)
    } else if a[1] == "read"@ {
        spec_read(a, 2)
    } else if a[1] == "write"@ {
        spec_write(a, 2)
    } else if a[1] == "scan"@ {
        match spec_values(a, 2, 0, 0, None) {
            Err(e) => Err(e),
            Ok(_) => Ok(CommandModel::Scan),
        }
    } else if a[1] == "scan-pdo-config"@ {
        match spec_node_only(a, 2) {
            Err(e) => Err(e),
            Ok(node_id) => Ok(CommandModel::ScanPdoConfig(ScanPdoConfigArgs { node_id })),
        }
    } else if a[1] == "info"@ {
        match spec_values(a, 2, 0, 0, None) {
            Err(e) => Err(e),
            Ok(_) => Ok(CommandModel::Info),
        }
    } else if a[1] == "load-config"@ {
        spec_load_config(a, 2)
    } else if a[1] == "save-objects"@ {
        match spec_node_only(a, 2) {
            Err(e) => Err(e),
            Ok(node_id) => Ok(CommandModel::SaveObjects(SaveObjectsArgs { node_id })),
        }
    } else if a[1] == "nmt"@ {
        spec_nmt(a, 2)
    } else if a[1] == "lss"@ {
        match spec_lss(a, 2) {
            Err(e) => Err(e),
            Ok(c) => Ok(CommandModel::Lss(c)),
        }
    } else if a[1] == "sync"@ {
        spec_sync(a, 2)
    } else {
        Err(CliError::UnknownSubcommand(1))
    }
}

impl Cli {
    /// Parses an argument list whose first element is the program name.
    pub fn parse_args(args: &[&str]) -> (r: Result<Cli, CliError>)
        requires
            args@.len() + 8 <= usize::MAX,
        ensures
            match r {
                Ok(cli) => spec_command(views(args@)) == Ok::<CommandModel, CliError>(cli.command.model()),
                Err(e) => spec_command(views(args@)) == Err::<CommandModel, CliError>(e),
            },
    {
        let ghost a = views(args@);
        if args.len() < 2 {
            return Err(CliError::MissingSubcommand);
        }
        let t = args[1];
        assert(t@ == a[1]);
        let command = if str_eq(t, "read") {
            parse_read(args, 2)
        } else if str_eq(t, "write") {
            parse_write(args, 2)
        } else if str_eq(t, "scan") {
            match check_values(args, 2, 0, 0, None) {
                Err(e) => Err(e),
                Ok(_) => Ok(Commands::Scan),
            }
        } else if str_eq(t, "scan-pdo-config") {
            match parse_node_only(args, 2) {
                Err(e) => Err(e),
                Ok(node_id) => Ok(Commands::ScanPdoConfig(ScanPdoConfigArgs { node_id })),
            }
        } else if str_eq(t, "info") {
            match check_values(args, 2, 0, 0, None) {
                Err(e) => Err(e),
                Ok(_) => Ok(Commands::Info),
            }
        } else if str_eq(t, "load-config") {
            parse_load_config(args, 2)
        } else if str_eq(t, "save-objects") {
            match parse_node_only(args, 2) {
                Err(e) => Err(e),
                Ok(node_id) => Ok(Commands::SaveObjects(SaveObjectsArgs { node_id })),
            }
        } else if str_eq(t, "nmt") {
            parse_nmt(args, 2)
        } else if str_eq(t, "lss") {
            match parse_lss(args, 2) {
                Err(e) => Err(e),
                Ok(c) => Ok(Commands::Lss(c)),
            }
        } else if str_eq(t, "sync") {
            parse_sync(args, 2)
        } else {
            Err(CliError::UnknownSubcommand(1))
        };
        match command {
            Ok(command) => Ok(Cli { command }),
            Err(e) => Err(e),
        }
    }

    /// Parses an argument list whose first element is the program name.
    pub fn try_parse_from<const N: usize>(args: [&str; N]) -> (r: Result<Cli, CliError>)
        requires
            N + 8 <= usize::MAX,
        ensures
            match r {
                Ok(cli) => spec_command(views(args@)) == Ok::<CommandModel, CliError>(cli.command.model()),
                Err(e) => spec_command(views(args@)) == Err::<CommandModel, CliError>(e),
            },
    {
        Self::parse_args(args.as_slice())
    }
}

} // verus!
