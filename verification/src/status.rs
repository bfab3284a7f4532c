//! The status numbers of the native client library, under their names.
//!
//! The numbering is the native library's own: a code is taken as it comes and
//! given its name, and a name gives back the same code.

use vstd::prelude::*;

verus! {

/// The state of a connection, as the native library reports it.
#[derive(Clone, Copy, Debug, PartialEq, Eq, Structural)]
pub enum ConnStatus {
    ConnectionOk,
    ConnectionBad,
    Started,
    Made,
    AwaitingResponse,
    AuthOk,
    Setenv,
    SslStartup,
    Needed,
    CheckWritable,
    Consume,
    GssStartup,
    CheckTarget,
    CheckStandby,
    Allocated,
    Authenticating,
}

impl ConnStatus {
    /// The native number of this status.
    pub open spec fn spec_code(self) -> u32 {
        match self {
            ConnStatus::ConnectionOk => 0,
            ConnStatus::ConnectionBad => 1,
            ConnStatus::Started => 2,
            ConnStatus::Made => 3,
            ConnStatus::AwaitingResponse => 4,
            ConnStatus::AuthOk => 5,
            ConnStatus::Setenv => 6,
            ConnStatus::SslStartup => 7,
            ConnStatus::Needed => 8,
            ConnStatus::CheckWritable => 9,
            ConnStatus::Consume => 10,
            ConnStatus::GssStartup => 11,
            ConnStatus::CheckTarget => 12,
            ConnStatus::CheckStandby => 13,
            ConnStatus::Allocated => 14,
            ConnStatus::Authenticating => 15,
        }
    }

    /// The status that a native number stands for, if it stands for one.
    pub open spec fn of_code(code: u32) -> Option<ConnStatus> {
        if code == 0 {
            Some(ConnStatus::ConnectionOk)
        } else if code == 1 {
            Some(ConnStatus::ConnectionBad)
        } else if code == 2 {
            Some(ConnStatus::Started)
        } else if code == 3 {
            Some(ConnStatus::Made)
        } else if code == 4 {
            Some(ConnStatus::AwaitingResponse)
        } else if code == 5 {
            Some(ConnStatus::AuthOk)
        } else if code == 6 {
            Some(ConnStatus::Setenv)
        } else if code == 7 {
            Some(ConnStatus::SslStartup)
        } else if code == 8 {
            Some(ConnStatus::Needed)
        } else if code == 9 {
            Some(ConnStatus::CheckWritable)
        } else if code == 10 {
            Some(ConnStatus::Consume)
        } else if code == 11 {
            Some(ConnStatus::GssStartup)
        } else if code == 12 {
            Some(ConnStatus::CheckTarget)
        } else if code == 13 {
            Some(ConnStatus::CheckStandby)
        } else if code == 14 {
            Some(ConnStatus::Allocated)
        } else if code == 15 {
            Some(ConnStatus::Authenticating)
        } else {
            None
        }
    }

    /// The native number of this status.
    pub fn code(self) -> (code: u32)
        ensures
            code == self.spec_code(),
            Self::of_code(code) == Some(self),
    {
        match self {
            ConnStatus::ConnectionOk => 0,
            ConnStatus::ConnectionBad => 1,
            ConnStatus::Started => 2,
            ConnStatus::Made => 3,
            ConnStatus::AwaitingResponse => 4,
            ConnStatus::AuthOk => 5,
            ConnStatus::Setenv => 6,
            ConnStatus::SslStartup => 7,
            ConnStatus::Needed => 8,
            ConnStatus::CheckWritable => 9,
            ConnStatus::Consume => 10,
            ConnStatus::GssStartup => 11,
            ConnStatus::CheckTarget => 12,
            ConnStatus::CheckStandby => 13,
            ConnStatus::Allocated => 14,
            ConnStatus::Authenticating => 15,
        }
    }

    /// Names a native number; `None` exactly for a number above the last
    /// status.
    pub fn from_code(code: u32) -> (status: Option<ConnStatus>)
        ensures
            status == Self::of_code(code),
            status is Some <==> code <= 15,
            status matches Some(s) ==> s.spec_code() == code,
    {
        match code {
            0 => Some(ConnStatus::ConnectionOk),
            1 => Some(ConnStatus::ConnectionBad),
            2 => Some(ConnStatus::Started),
            3 => Some(ConnStatus::Made),
            4 => Some(ConnStatus::AwaitingResponse),
            5 => Some(ConnStatus::AuthOk),
            6 => Some(ConnStatus::Setenv),
            7 => Some(ConnStatus::SslStartup),
            8 => Some(ConnStatus::Needed),
            9 => Some(ConnStatus::CheckWritable),
            10 => Some(ConnStatus::Consume),
            11 => Some(ConnStatus::GssStartup),
            12 => Some(ConnStatus::CheckTarget),
            13 => Some(ConnStatus::CheckStandby),
            14 => Some(ConnStatus::Allocated),
            15 => Some(ConnStatus::Authenticating),
            _ => None,
        }
    }

    /// Naming a status's number gives the status back, and a number that has
    /// a name is the number of that name.
    pub proof fn lemma_code_names_agree(status: ConnStatus, code: u32)
        ensures
            Self::of_code(status.spec_code()) == Some(status),
            Self::of_code(code) == Some(status) ==> status.spec_code() == code,
            Self::of_code(code) is Some <==> code <= 15,
    {
    }
}

/// The outcome of a command, as the native library reports it.
#[derive(Clone, Copy, Debug, PartialEq, Eq, Structural)]
pub enum ExecStatus {
    EmptyQuery,
    CommandOk,
    TuplesOk,
    CopyOut,
    CopyIn,
    BadResponse,
    NonfatalError,
    FatalError,
    CopyBoth,
    SingleTuple,
    PipelineSync,
    PipelineAborted,
    TuplesChunk,
}

impl ExecStatus {
    /// The native number of this status.
    pub open spec fn spec_code(self) -> u32 {
        match self {
            ExecStatus::EmptyQuery => 0,
            ExecStatus::CommandOk => 1,
            ExecStatus::TuplesOk => 2,
            ExecStatus::CopyOut => 3,
            ExecStatus::CopyIn => 4,
            ExecStatus::BadResponse => 5,
            ExecStatus::NonfatalError => 6,
            ExecStatus::FatalError => 7,
            ExecStatus::CopyBoth => 8,
            ExecStatus::SingleTuple => 9,
            ExecStatus::PipelineSync => 10,
            ExecStatus::PipelineAborted => 11,
            ExecStatus::TuplesChunk => 12,
        }
    }

    /// The status that a native number stands for, if it stands for one.
    pub open spec fn of_code(code: u32) -> Option<ExecStatus> {
        if code == 0 {
            Some(ExecStatus::EmptyQuery)
        } else if code == 1 {
            Some(ExecStatus::CommandOk)
        } else if code == 2 {
            Some(ExecStatus::TuplesOk)
        } else if code == 3 {
            Some(ExecStatus::CopyOut)
        } else if code == 4 {
            Some(ExecStatus::CopyIn)
        } else if code == 5 {
            Some(ExecStatus::BadResponse)
        } else if code == 6 {
            Some(ExecStatus::NonfatalError)
        } else if code == 7 {
            Some(ExecStatus::FatalError)
        } else if code == 8 {
            Some(ExecStatus::CopyBoth)
        } else if code == 9 {
            Some(ExecStatus::SingleTuple)
        } else if code == 10 {
            Some(ExecStatus::PipelineSync)
        } else if code == 11 {
            Some(ExecStatus::PipelineAborted)
        } else if code == 12 {
            Some(ExecStatus::TuplesChunk)
        } else {
            None
        }
    }

    /// The native number of this status.
    pub fn code(self) -> (code: u32)
        ensures
            code == self.spec_code(),
            Self::of_code(code) == Some(self),
    {
        match self {
            ExecStatus::EmptyQuery => 0,
            ExecStatus::CommandOk => 1,
            ExecStatus::TuplesOk => 2,
            ExecStatus::CopyOut => 3,
            ExecStatus::CopyIn => 4,
            ExecStatus::BadResponse => 5,
            ExecStatus::NonfatalError => 6,
            ExecStatus::FatalError => 7,
            ExecStatus::CopyBoth => 8,
            ExecStatus::SingleTuple => 9,
            ExecStatus::PipelineSync => 10,
            ExecStatus::PipelineAborted => 11,
            ExecStatus::TuplesChunk => 12,
        }
    }

    /// Names a native number; `None` exactly for a number above the last
    /// status.
    pub fn from_code(code: u32) -> (status: Option<ExecStatus>)
        ensures
            status == Self::of_code(code),
            status is Some <==> code <= 12,
            status matches Some(s) ==> s.spec_code() == code,
    {
        match code {
            0 => Some(ExecStatus::EmptyQuery),
            1 => Some(ExecStatus::CommandOk),
            2 => Some(ExecStatus::TuplesOk),
            3 => Some(ExecStatus::CopyOut),
            4 => Some(ExecStatus::CopyIn),
            5 => Some(ExecStatus::BadResponse),
            6 => Some(ExecStatus::NonfatalError),
            7 => Some(ExecStatus::FatalError),
            8 => Some(ExecStatus::CopyBoth),
            9 => Some(ExecStatus::SingleTuple),
            10 => Some(ExecStatus::PipelineSync),
            11 => Some(ExecStatus::PipelineAborted),
            12 => Some(ExecStatus::TuplesChunk),
            _ => None,
        }
    }

    /// Naming a status's number gives the status back, and a number that has
    /// a name is the number of that name.
    pub proof fn lemma_code_names_agree(status: ExecStatus, code: u32)
        ensures
            Self::of_code(status.spec_code()) == Some(status),
            Self::of_code(code) == Some(status) ==> status.spec_code() == code,
            Self::of_code(code) is Some <==> code <= 12,
    {
    }
}

/// Diagnostic field: severity, possibly localized.
pub const PG_DIAG_SEVERITY: u8 = 83u8;

/// Diagnostic field: severity, never localized.
pub const PG_DIAG_SEVERITY_NONLOCALIZED: u8 = 86u8;

/// Diagnostic field: the SQLSTATE code.
pub const PG_DIAG_SQLSTATE: u8 = 67u8;

/// Diagnostic field: the primary message.
pub const PG_DIAG_MESSAGE_PRIMARY: u8 = 77u8;

/// Diagnostic field: the detail message.
pub const PG_DIAG_MESSAGE_DETAIL: u8 = 68u8;

/// Diagnostic field: the hint.
pub const PG_DIAG_MESSAGE_HINT: u8 = 72u8;

/// Diagnostic field: the error position in the statement.
pub const PG_DIAG_STATEMENT_POSITION: u8 = 80u8;

/// Diagnostic field: the error position in an internal command.
pub const PG_DIAG_INTERNAL_POSITION: u8 = 112u8;

/// Diagnostic field: the text of the failed internal command.
pub const PG_DIAG_INTERNAL_QUERY: u8 = 113u8;

/// Diagnostic field: the context in which the error occurred.
pub const PG_DIAG_CONTEXT: u8 = 87u8;

/// Diagnostic field: the schema name.
pub const PG_DIAG_SCHEMA_NAME: u8 = 115u8;

/// Diagnostic field: the table name.
pub const PG_DIAG_TABLE_NAME: u8 = 116u8;

/// Diagnostic field: the column name.
pub const PG_DIAG_COLUMN_NAME: u8 = 99u8;

/// Diagnostic field: the data type name.
pub const PG_DIAG_DATATYPE_NAME: u8 = 100u8;

/// Diagnostic field: the constraint name.
pub const PG_DIAG_CONSTRAINT_NAME: u8 = 110u8;

/// Diagnostic field: the source file that reported the error.
pub const PG_DIAG_SOURCE_FILE: u8 = 70u8;

/// Diagnostic field: the source line that reported the error.
pub const PG_DIAG_SOURCE_LINE: u8 = 76u8;

/// Diagnostic field: the source function that reported the error.
pub const PG_DIAG_SOURCE_FUNCTION: u8 = 82u8;

} // verus!
