use vstd::prelude::*;
use vstd::string::StringSliceAdditionalSpecFns;

verus! {

/// The severity of a log message.
#[derive(Clone, Copy, PartialEq, Eq, Hash, Debug, Structural)]
pub enum LogSeverity {
    Debug,
    Info,
    Warning,
    Error,
    Fatal,
    /// The host broke the protocol.
    HostMisbehaving,
    /// The plugin broke the protocol.
    PluginMisbehaving,
}

/// The raw code of each severity.
pub open spec fn severity_code(s: LogSeverity) -> i32 {
    match s {
        LogSeverity::Debug => 0,
        LogSeverity::Info => 1,
        LogSeverity::Warning => 2,
        LogSeverity::Error => 3,
        LogSeverity::Fatal => 4,
        LogSeverity::HostMisbehaving => 5,
        LogSeverity::PluginMisbehaving => 6,
    }
}

/// The severity a raw code names, if any.
pub open spec fn severity_of_code(raw: i32) -> Option<LogSeverity> {
    if raw == 0 {
        Some(LogSeverity::Debug)
    } else if raw == 1 {
        Some(LogSeverity::Info)
    } else if raw == 2 {
        Some(LogSeverity::Warning)
    } else if raw == 3 {
        Some(LogSeverity::Error)
    } else if raw == 4 {
        Some(LogSeverity::Fatal)
    } else if raw == 5 {
        Some(LogSeverity::HostMisbehaving)
    } else if raw == 6 {
        Some(LogSeverity::PluginMisbehaving)
    } else {
        None
    }
}

impl LogSeverity {
    /// The severity a raw code names; `None` for a code outside `0..=6`.
    pub fn from_raw(raw: i32) -> (r: Option<LogSeverity>)
        ensures
            r == severity_of_code(raw),
            r is Some <==> 0 <= raw <= 6,
    {
        match raw {
            0 => Some(LogSeverity::Debug),
            1 => Some(LogSeverity::Info),
            2 => Some(LogSeverity::Warning),
            3 => Some(LogSeverity::Error),
            4 => Some(LogSeverity::Fatal),
            5 => Some(LogSeverity::HostMisbehaving),
            6 => Some(LogSeverity::PluginMisbehaving),
            _ => None,
        }
    }

    /// The raw code of this severity.
    pub fn to_raw(self) -> (r: i32)
        ensures
            r == severity_code(self),
    {
        match self {
            LogSeverity::Debug => 0,
            LogSeverity::Info => 1,
            LogSeverity::Warning => 2,
            LogSeverity::Error => 3,
            LogSeverity::Fatal => 4,
            LogSeverity::HostMisbehaving => 5,
            LogSeverity::PluginMisbehaving => 6,
        }
    }
}

/// Every severity survives the trip through its raw code.
pub proof fn lemma_severity_round_trip(s: LogSeverity)
    ensures
        severity_of_code(severity_code(s)) == Some(s),
{
}

/// The error of a log message that cannot be passed on.
#[derive(Clone, Copy, PartialEq, Eq, Hash, Debug, Structural)]
pub enum LogError {
    /// The message holds a nul byte, at this byte index, so it has no nul-terminated
    /// form.
    NulByte(usize),
    /// Writing the message as text failed.
    Format,
}

/// Whether the first nul byte of `bytes` is at index `i`.
pub open spec fn first_nul_at(bytes: Seq<u8>, i: int) -> bool {
    &&& 0 <= i < bytes.len()
    &&& bytes[i] == 0
    &&& forall|j: int| 0 <= j < i ==> bytes[j] != 0
}

/// The nul-terminated form of a message: its bytes followed by one nul byte.
/// Fails with [`LogError::NulByte`] at the first nul byte the message holds, rather
/// than cutting the message short.
pub fn nul_terminated(message: &str) -> (r: Result<Vec<u8>, LogError>)
    ensures
        r is Ok <==> forall|j: int| 0 <= j < message.spec_bytes().len() ==> message.spec_bytes()[j] != 0,
        r matches Ok(v) ==> v@ == message.spec_bytes().push(0),
        r matches Err(e) ==> e matches LogError::NulByte(_),
        r matches Err(LogError::NulByte(i)) ==> first_nul_at(message.spec_bytes(), i as int),
{
    let bytes = message.as_bytes();
    let mut out: Vec<u8> = Vec::new();
    let mut i: usize = 0;
    while i < bytes.len()
        invariant
            bytes@ == message.spec_bytes(),
            i <= bytes@.len(),
            out@ == bytes@.take(i as int),
            forall|j: int| 0 <= j < i ==> bytes@[j] != 0,
        decreases bytes@.len() - i,
    {
        if bytes[i] == 0 {
            return Err(LogError::NulByte(i));
        }
        out.push(bytes[i]);
        i = i + 1;
        assert(out@ == bytes@.take(i as int));
    }
    assert(bytes@.take(i as int) == bytes@);
    out.push(0);
    Ok(out)
}

} // verus!
