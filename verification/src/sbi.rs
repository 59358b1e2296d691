//! The call gate: encoding of hypervisor calls into the register-passing
//! convention and decoding of the three-word reply into a typed result.
//!
//! A call places an extension id and a function id in two dedicated
//! argument registers and up to two parameters in two more; the reply is
//! three machine words: a signed error code and two result values.  The
//! transfer itself is a single trap instruction that only the bare-metal
//! glue around this library can issue; the library builds the request
//! words and interprets the reply words.

use vstd::prelude::*;

verus! {

/* base extension */
pub const SBI_EXT_BASE: usize = 0x10;
pub const SBI_EXT_BASE_GET_IMPL_ID: usize = 1;

/* the host implementation id this runtime expects */
pub const SBI_DIOSIX_IMPL_ID: usize = 5;

/* host-specific extension and its function ids */
pub const SBI_EXT_DIOSIX: usize = 0x0A000000 + SBI_DIOSIX_IMPL_ID;
pub const SBI_EXT_DIOSIX_YIELD: usize = 0;
pub const SBI_EXT_DIOSIX_REGISTER_SERVICE: usize = 1;
pub const SBI_EXT_DIOSIX_CONSOLE_PUTC: usize = 2;
pub const SBI_EXT_DIOSIX_CONSOLE_GETC: usize = 3;
pub const SBI_EXT_DIOSIX_HV_GETC: usize = 4;

/* legacy console calls */
pub const SBI_EXT_PUTCHAR: usize = 0x1;
pub const SBI_EXT_GETCHAR: usize = 0x2;
pub const SBI_FUNC_LEGACY: usize = 0x0;

/* system reset extension */
pub const SBI_EXT_SYS_RESET: usize = 0x53525354;
pub const SBI_EXT_SYS_RESET_FUNC: usize = 0;
pub const SBI_EXT_SYS_RESET_SHUTDOWN: usize = 0;
pub const SBI_EXT_SYS_RESET_COLD_REBOOT: usize = 1;

/* reply error codes */
pub const SBI_SUCCESS: isize = 0;
pub const SBI_ERR_FAILED: isize = -1;
pub const SBI_ERR_NOT_SUPPORTED: isize = -2;
pub const SBI_ERR_INVALID_PARAM: isize = -3;
pub const SBI_ERR_DENIED: isize = -4;
pub const SBI_ERR_INVALID_ADDRESS: isize = -5;
pub const SBI_ERR_ALREADY_AVAILABLE: isize = -6;

/// A fully encoded call, ready for the transfer: the extension id and
/// function id for the two dedicated registers and the two parameter
/// registers (zero where a call takes fewer parameters).
#[derive(Clone, Copy, PartialEq, Eq, Structural, Debug)]
pub struct SbiCall {
    pub extension: usize,
    pub function: usize,
    pub param0: usize,
    pub param1: usize,
}

/// The three words a call hands back: a signed error code and two values.
#[derive(Clone, Copy, PartialEq, Eq, Structural, Debug)]
pub struct SyscallResult {
    error: isize,
    value1: usize,
    value2: usize,
}

/// Typed decoding of a reply's error code.  The set is closed: every code
/// outside the defined table is carried verbatim in `Other`.
#[derive(Clone, Copy, PartialEq, Eq, Structural, Debug)]
pub enum Error {
    Failed,
    NotSupported,
    InvalidParams,
    AccessDenied,
    InvalidAddress,
    AlreadyAvailable,
    Other(isize),
}

/// The error a nonzero reply code decodes to.
pub open spec fn spec_decode_error(code: isize) -> Error {
    if code == SBI_ERR_FAILED {
        Error::Failed
    } else if code == SBI_ERR_NOT_SUPPORTED {
        Error::NotSupported
    } else if code == SBI_ERR_INVALID_PARAM {
        Error::InvalidParams
    } else if code == SBI_ERR_DENIED {
        Error::AccessDenied
    } else if code == SBI_ERR_INVALID_ADDRESS {
        Error::InvalidAddress
    } else if code == SBI_ERR_ALREADY_AVAILABLE {
        Error::AlreadyAvailable
    } else {
        Error::Other(code)
    }
}

impl SyscallResult {
    pub closed spec fn spec_error(self) -> isize {
        self.error
    }

    pub closed spec fn spec_value1(self) -> usize {
        self.value1
    }

    pub closed spec fn spec_value2(self) -> usize {
        self.value2
    }

    /// Package the three reply words.  Only the transfer glue builds one
    /// of these; the library consumes them.
    pub fn new(error: isize, value1: usize, value2: usize) -> (r: SyscallResult)
        ensures
            r.spec_error() == error,
            r.spec_value1() == value1,
            r.spec_value2() == value2,
    {
        SyscallResult { error, value1, value2 }
    }

    /// Decode the reply: a zero error code yields both values, any other
    /// code yields the typed error of the closed table.
    pub fn get(&self) -> (r: Result<[usize; 2], Error>)
        ensures
            r is Ok <==> self.spec_error() == 0,
            self.spec_error() == 0 ==> r == Ok::<[usize; 2], Error>(
                [self.spec_value1(), self.spec_value2()],
            ),
            self.spec_error() != 0 ==> r == Err::<[usize; 2], Error>(
                spec_decode_error(self.spec_error()),
            ),
    {
        match self.error {
            SBI_SUCCESS => Ok([self.value1, self.value2]),
            SBI_ERR_FAILED => Err(Error::Failed),
            SBI_ERR_NOT_SUPPORTED => Err(Error::NotSupported),
            SBI_ERR_INVALID_PARAM => Err(Error::InvalidParams),
            SBI_ERR_DENIED => Err(Error::AccessDenied),
            SBI_ERR_INVALID_ADDRESS => Err(Error::InvalidAddress),
            SBI_ERR_ALREADY_AVAILABLE => Err(Error::AlreadyAvailable),
            v => Err(Error::Other(v)),
        }
    }

    /// The raw signed error word, undecoded.
    pub fn get_error_value(&self) -> (r: isize)
        ensures
            r == self.spec_error(),
    {
        self.error
    }
}

/// A service role a guest may register for with the host.
#[derive(Clone, Copy, PartialEq, Eq, Structural, Debug)]
pub enum DiosixServiceType {
    /// Act as the console interface manager.
    ConsoleInterface,
}

impl DiosixServiceType {
    /// The word that names this service in the register convention.
    pub open spec fn spec_code(self) -> usize {
        match self {
            DiosixServiceType::ConsoleInterface => 0,
        }
    }

    pub fn code(self) -> (r: usize)
        ensures
            r == self.spec_code(),
    {
        match self {
            DiosixServiceType::ConsoleInterface => 0,
        }
    }
}

/// Reason words accepted by the system-reset call.
#[allow(non_camel_case_types)]
#[derive(Clone, Copy, PartialEq, Eq, Structural, Debug)]
pub enum SBI_EXT_SYS_RESET_REASON {
    NoReason,
    SystemFailure,
}

impl SBI_EXT_SYS_RESET_REASON {
    /// The word that names this reason in the register convention.
    pub open spec fn spec_code(self) -> usize {
        match self {
            SBI_EXT_SYS_RESET_REASON::NoReason => 0,
            SBI_EXT_SYS_RESET_REASON::SystemFailure => 1,
        }
    }

    pub fn code(self) -> (r: usize)
        ensures
            r == self.spec_code(),
    {
        match self {
            SBI_EXT_SYS_RESET_REASON::NoReason => 0,
            SBI_EXT_SYS_RESET_REASON::SystemFailure => 1,
        }
    }
}

/// The request words of the "get host implementation id" call.
pub open spec fn probe_call_spec() -> SbiCall {
    SbiCall {
        extension: SBI_EXT_BASE,
        function: SBI_EXT_BASE_GET_IMPL_ID,
        param0: 0,
        param1: 0,
    }
}

/// The encoded "get host implementation id" request.
pub fn probe_request() -> (q: SbiCall)
    ensures
        q == probe_call_spec(),
{
    SbiCall { extension: SBI_EXT_BASE, function: SBI_EXT_BASE_GET_IMPL_ID, param0: 0, param1: 0 }
}

/// Decide from the probe reply whether the host is the expected one:
/// true exactly when the call succeeded and the returned implementation
/// id matches this runtime's registered identifier.
pub fn is_diosix(reply: &SyscallResult) -> (r: bool)
    ensures
        r <==> (reply.spec_error() == 0 && reply.spec_value1() == SBI_DIOSIX_IMPL_ID),
{
    if let Ok(values) = reply.get() {
        if values[0] == SBI_DIOSIX_IMPL_ID {
            return true;
        }
    }
    false
}

/// The request words `putc` encodes for a character.
pub open spec fn putc_call_spec(c: char) -> SbiCall {
    SbiCall {
        extension: SBI_EXT_PUTCHAR,
        function: SBI_FUNC_LEGACY,
        param0: c as usize,
        param1: 0,
    }
}

/// Encode the legacy put-char request for character `c`.
pub fn putc(c: char) -> (q: SbiCall)
    ensures
        q == putc_call_spec(c),
{
    SbiCall {
        extension: SBI_EXT_PUTCHAR,
        function: SBI_FUNC_LEGACY,
        param0: c as usize,
        param1: 0,
    }
}

/// Decode the reply of a call whose success carries no values: `Ok` on a
/// zero error code, else the typed error of the closed table.
pub fn unit_result(reply: &SyscallResult) -> (r: Result<(), Error>)
    ensures
        r is Ok <==> reply.spec_error() == 0,
        reply.spec_error() != 0 ==> r == Err::<(), Error>(spec_decode_error(reply.spec_error())),
{
    match reply.get() {
        Ok(_) => Ok(()),
        Err(e) => Err(e),
    }
}

/// The encoded legacy get-char request.
pub fn getc_request() -> (q: SbiCall)
    ensures
        q == (SbiCall {
            extension: SBI_EXT_GETCHAR,
            function: SBI_FUNC_LEGACY,
            param0: 0,
            param1: 0,
        }),
{
    SbiCall { extension: SBI_EXT_GETCHAR, function: SBI_FUNC_LEGACY, param0: 0, param1: 0 }
}

/// Decode the legacy get-char reply.  The error field doubles as data in
/// this one call: -1 means no character is available, any other value is
/// the character itself, taken from the low eight bits.
pub fn getc(reply: &SyscallResult) -> (r: Result<char, Error>)
    ensures
        reply.spec_error() == -1 ==> r == Err::<char, Error>(Error::Failed),
        reply.spec_error() != -1 ==> r == Ok::<char, Error>(
            ((reply.spec_error() as usize & 0xff) as u8) as char,
        ),
{
    match reply.get_error_value() {
        -1 => Err(Error::Failed),
        c => Ok(((c as usize & 0xff) as u8) as char),
    }
}

/// Encode the system-reset request that shuts the environment down with
/// the given reason.  The transfer never returns; if the host hands
/// control back anyway, the glue around the library must spin forever.
pub fn shutdown(reason: SBI_EXT_SYS_RESET_REASON) -> (q: SbiCall)
    ensures
        q == (SbiCall {
            extension: SBI_EXT_SYS_RESET,
            function: SBI_EXT_SYS_RESET_FUNC,
            param0: SBI_EXT_SYS_RESET_SHUTDOWN,
            param1: reason.spec_code(),
        }),
{
    SbiCall {
        extension: SBI_EXT_SYS_RESET,
        function: SBI_EXT_SYS_RESET_FUNC,
        param0: SBI_EXT_SYS_RESET_SHUTDOWN,
        param1: reason.code(),
    }
}

/// Shorthand for `shutdown`: a zero code means a clean exit with no
/// reason, any nonzero code reports a system failure.
pub fn exit(code: usize) -> (q: SbiCall)
    ensures
        code == 0 ==> q == shutdown_call_spec(SBI_EXT_SYS_RESET_REASON::NoReason),
        code != 0 ==> q == shutdown_call_spec(SBI_EXT_SYS_RESET_REASON::SystemFailure),
{
    shutdown(
        match code {
            0 => SBI_EXT_SYS_RESET_REASON::NoReason,
            _ => SBI_EXT_SYS_RESET_REASON::SystemFailure,
        },
    )
}

/// The request words `shutdown` encodes for a reason.
pub open spec fn shutdown_call_spec(reason: SBI_EXT_SYS_RESET_REASON) -> SbiCall {
    SbiCall {
        extension: SBI_EXT_SYS_RESET,
        function: SBI_EXT_SYS_RESET_FUNC,
        param0: SBI_EXT_SYS_RESET_SHUTDOWN,
        param1: reason.spec_code(),
    }
}

/// Encode the system-reset request that restarts the environment from
/// scratch with the given reason.  The transfer never returns.
pub fn restart(reason: SBI_EXT_SYS_RESET_REASON) -> (q: SbiCall)
    ensures
        q == (SbiCall {
            extension: SBI_EXT_SYS_RESET,
            function: SBI_EXT_SYS_RESET_FUNC,
            param0: SBI_EXT_SYS_RESET_COLD_REBOOT,
            param1: reason.spec_code(),
        }),
{
    SbiCall {
        extension: SBI_EXT_SYS_RESET,
        function: SBI_EXT_SYS_RESET_FUNC,
        param0: SBI_EXT_SYS_RESET_COLD_REBOOT,
        param1: reason.code(),
    }
}

/// Encode the host-specific request that yields this physical core to
/// another virtual core.  The reply carries nothing of interest.
pub fn yield_core() -> (q: SbiCall)
    ensures
        q == (SbiCall {
            extension: SBI_EXT_DIOSIX,
            function: SBI_EXT_DIOSIX_YIELD,
            param0: 0,
            param1: 0,
        }),
{
    SbiCall { extension: SBI_EXT_DIOSIX, function: SBI_EXT_DIOSIX_YIELD, param0: 0, param1: 0 }
}

/// Encode the host-specific request that registers this capsule for the
/// given service role.  Decode the reply with `unit_result`.
pub fn register_service(stype: DiosixServiceType) -> (q: SbiCall)
    ensures
        q == (SbiCall {
            extension: SBI_EXT_DIOSIX,
            function: SBI_EXT_DIOSIX_REGISTER_SERVICE,
            param0: stype.spec_code(),
            param1: 0,
        }),
{
    SbiCall {
        extension: SBI_EXT_DIOSIX,
        function: SBI_EXT_DIOSIX_REGISTER_SERVICE,
        param0: stype.code(),
        param1: 0,
    }
}

/// Encode the host-specific request that writes character `c` into the
/// input buffer of the capsule with the given id.  Decode the reply with
/// `unit_result`.
pub fn capsule_putc(c: char, capsule_id: usize) -> (q: SbiCall)
    ensures
        q == (SbiCall {
            extension: SBI_EXT_DIOSIX,
            function: SBI_EXT_DIOSIX_CONSOLE_PUTC,
            param0: c as usize,
            param1: capsule_id,
        }),
{
    SbiCall {
        extension: SBI_EXT_DIOSIX,
        function: SBI_EXT_DIOSIX_CONSOLE_PUTC,
        param0: c as usize,
        param1: capsule_id,
    }
}

/// A character read from another capsule's output buffer, together with
/// the id of the capsule it came from.
#[derive(Clone, Copy, PartialEq, Eq, Structural, Debug)]
pub struct CapsuleCharacter {
    character: char,
    capsule_id: usize,
}

impl CapsuleCharacter {
    pub closed spec fn spec_char(self) -> char {
        self.character
    }

    pub closed spec fn spec_capsule_id(self) -> usize {
        self.capsule_id
    }

    pub fn get_char(&self) -> (r: char)
        ensures
            r == self.spec_char(),
    {
        self.character
    }

    pub fn get_capsule_id(&self) -> (r: usize)
        ensures
            r == self.spec_capsule_id(),
    {
        self.capsule_id
    }
}

/// The encoded host-specific request that reads a character from other
/// capsules' output buffers.
pub fn capsule_getc_request() -> (q: SbiCall)
    ensures
        q == (SbiCall {
            extension: SBI_EXT_DIOSIX,
            function: SBI_EXT_DIOSIX_CONSOLE_GETC,
            param0: 0,
            param1: 0,
        }),
{
    SbiCall { extension: SBI_EXT_DIOSIX, function: SBI_EXT_DIOSIX_CONSOLE_GETC, param0: 0, param1: 0 }
}

/// Decode the capsule-console read reply: on success the first value's
/// low eight bits are the character and the second value is the id of the
/// capsule it came from.
pub fn capsule_getc(reply: &SyscallResult) -> (r: Result<CapsuleCharacter, Error>)
    ensures
        r is Ok <==> reply.spec_error() == 0,
        reply.spec_error() == 0 ==> (r matches Ok(cc) && cc.spec_char() == ((
        reply.spec_value1() & 0xff) as u8) as char && cc.spec_capsule_id() == reply.spec_value2()),
        reply.spec_error() != 0 ==> r == Err::<CapsuleCharacter, Error>(
            spec_decode_error(reply.spec_error()),
        ),
{
    match reply.get() {
        Ok(values) => Ok(
            CapsuleCharacter {
                character: ((values[0] & 0xff) as u8) as char,
                capsule_id: values[1],
            },
        ),
        Err(e) => Err(e),
    }
}

/// The encoded host-specific request that reads a character from the
/// hypervisor's own output buffer.
pub fn hypervisor_getc_request() -> (q: SbiCall)
    ensures
        q == (SbiCall {
            extension: SBI_EXT_DIOSIX,
            function: SBI_EXT_DIOSIX_HV_GETC,
            param0: 0,
            param1: 0,
        }),
{
    SbiCall { extension: SBI_EXT_DIOSIX, function: SBI_EXT_DIOSIX_HV_GETC, param0: 0, param1: 0 }
}

/// Decode the hypervisor-console read reply: on success the first
/// value's low eight bits are the character.
pub fn hypervisor_getc(reply: &SyscallResult) -> (r: Result<char, Error>)
    ensures
        r is Ok <==> reply.spec_error() == 0,
        reply.spec_error() == 0 ==> r == Ok::<char, Error>(((reply.spec_value1() & 0xff) as u8) as char),
        reply.spec_error() != 0 ==> r == Err::<char, Error>(spec_decode_error(reply.spec_error())),
{
    match reply.get() {
        Ok(values) => Ok(((values[0] & 0xff) as u8) as char),
        Err(e) => Err(e),
    }
}

} // verus!
