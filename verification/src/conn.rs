//! The host side of one connection: what goes to the native client library
//! before each call, and what is made of the value that comes back.

use crate::listen::{initial, ListenLoop};
use crate::marshal::{has_nul, has_nul_char, inbound_message, marshals, raw_bytes};
use crate::marshal::{lemma_nul_byte_is_nul_char, lemma_nul_char_in_parts};
use crate::marshal::{text_or_empty, CText, FileTarget, MarshalError};
use vstd::prelude::*;
use vstd::string::StringSliceAdditionalSpecFns;
use vstd::utf8::encode_utf8;

verus! {

/// The text of the command that subscribes to a channel.
pub open spec fn listen_text(channel: Seq<char>) -> Seq<char> {
    "LISTEN "@ + channel + ";"@
}

/// The text of the command that notifies a channel, with or without a
/// payload.
pub open spec fn notify_text(channel: Seq<char>, payload: Option<Seq<char>>) -> Seq<char> {
    match payload {
        Some(p) => "NOTIFY "@ + channel + ", '"@ + p + "';"@,
        None => "NOTIFY "@ + channel + ";"@,
    }
}

/// The characters of an optional text.
pub open spec fn payload_text(payload: Option<&str>) -> Option<Seq<char>> {
    match payload {
        Some(p) => Some(p@),
        None => None,
    }
}

/// What consuming input came to: any return value but zero is success; zero
/// is failure, reported with the connection's message.
pub open spec fn consumed(rc: i32, message: Option<Seq<u8>>, r: Result<(), String>) -> bool {
    match r {
        Ok(_) => rc != 0,
        Err(text) => rc == 0 && text@ == inbound_message(message),
    }
}

/// The command that subscribes to a channel has a zero byte exactly when
/// the channel's name holds U+0000.
pub proof fn lemma_listen_is_refused_for_nul(channel: Seq<char>)
    ensures
        has_nul(encode_utf8(listen_text(channel))) <==> has_nul_char(channel),
{
    reveal_strlit("LISTEN ");
    reveal_strlit(";");
    lemma_nul_byte_is_nul_char(listen_text(channel));
    lemma_nul_char_in_parts("LISTEN "@ + channel, ";"@);
    lemma_nul_char_in_parts("LISTEN "@, channel);
    assert(!has_nul_char("LISTEN "@));
    assert(!has_nul_char(";"@));
}

/// The command that notifies a channel has a zero byte exactly when the
/// channel's name or the payload holds U+0000.
pub proof fn lemma_notify_is_refused_for_nul(channel: Seq<char>, payload: Option<Seq<char>>)
    ensures
        has_nul(encode_utf8(notify_text(channel, payload))) <==> has_nul_char(channel) || (
        payload matches Some(p) && has_nul_char(p)),
{
    reveal_strlit("NOTIFY ");
    reveal_strlit(";");
    reveal_strlit(", '");
    reveal_strlit("';");
    lemma_nul_byte_is_nul_char(notify_text(channel, payload));
    assert(!has_nul_char("NOTIFY "@));
    assert(!has_nul_char(";"@));
    assert(!has_nul_char(", '"@));
    assert(!has_nul_char("';"@));
    lemma_nul_char_in_parts("NOTIFY "@, channel);
    match payload {
        Some(p) => {
            lemma_nul_char_in_parts("NOTIFY "@ + channel + ", '"@ + p, "';"@);
            lemma_nul_char_in_parts("NOTIFY "@ + channel + ", '"@, p);
            lemma_nul_char_in_parts("NOTIFY "@ + channel, ", '"@);
        },
        None => {
            lemma_nul_char_in_parts("NOTIFY "@ + channel, ";"@);
        },
    }
}

/// The host side of one connection. It holds the connection string in the
/// form the native library takes; the native handle itself stays with the
/// caller that opened it.
#[derive(Debug)]
pub struct PgConn {
    conninfo: CText,
}

impl PgConn {
    /// The bytes of the connection string that this connection was made
    /// with.
    pub closed spec fn spec_conninfo(&self) -> Seq<u8> {
        self.conninfo@
    }

    /// Makes a connection from the parameters in the environment: that is
    /// what the empty connection string stands for. This never fails.
    pub fn connect_db_env_vars() -> (r: Result<PgConn, MarshalError>)
        ensures
            r matches Ok(conn) && conn.spec_conninfo() == Seq::<u8>::empty(),
    {
        proof {
            reveal_strlit("");
            assert("".spec_bytes() =~= Seq::<u8>::empty());
        }
        PgConn::connect_db("")
    }

    /// Makes a connection from a connection string. Any string without a
    /// zero byte gives a connection, whatever the server will say of it; a
    /// zero byte, and nothing else, is the error.
    pub fn connect_db(s: &str) -> (r: Result<PgConn, MarshalError>)
        ensures
            r is Ok <==> !has_nul(s.spec_bytes()),
            r is Ok <==> !has_nul_char(s@),
            match r {
                Ok(conn) => conn.spec_conninfo() == s.spec_bytes(),
                Err(e) => marshals(s.spec_bytes(), Err(e)),
            },
    {
        match CText::new(s) {
            Ok(conninfo) => Ok(PgConn { conninfo }),
            Err(e) => Err(e),
        }
    }

    /// The connection string, as it goes to the native library.
    pub fn conninfo(&self) -> (text: &CText)
        ensures
            text@ == self.spec_conninfo(),
    {
        &self.conninfo
    }

    /// Prepares a command for execution: the query text as it goes to the
    /// native library. The only error of a call is a zero byte in the text;
    /// what the server makes of the command is in the result.
    pub fn exec(&self, query: &str) -> (r: Result<CText, MarshalError>)
        ensures
            marshals(query.spec_bytes(), r),
            r is Ok <==> !has_nul_char(query@),
    {
        CText::new(query)
    }

    /// Prepares the tracing of the traffic to a file.
    pub fn trace(&mut self, file: &str) -> (r: Result<FileTarget, MarshalError>)
        ensures
            *final(self) == *old(self),
            r is Ok <==> !has_nul_char(file@),
            match r {
                Ok(target) => {
                    &&& !has_nul(file.spec_bytes())
                    &&& target.path@ == file.spec_bytes()
                    &&& target.mode@ == seq![119u8]
                },
                Err(e) => marshals(file.spec_bytes(), Err(e)),
            },
    {
        FileTarget::for_writing(file)
    }

    /// Reads the return value of the native call that consumes input.
    /// `message` is the connection's error message as it came in, none for
    /// a null pointer; it is used only where the call failed.
    pub fn consume_input(&mut self, rc: i32, message: Option<&[u8]>) -> (r: Result<(), String>)
        ensures
            *final(self) == *old(self),
            consumed(rc, raw_bytes(message), r),
    {
        if rc == 0 {
            Err(text_or_empty(message))
        } else {
            Ok(())
        }
    }

    /// Prepares the command that notifies `channel`, with the payload in
    /// single quotes where there is one.
    pub fn notify(&mut self, channel: &str, payload: Option<&str>) -> (r: Result<
        CText,
        MarshalError,
    >)
        ensures
            *final(self) == *old(self),
            marshals(encode_utf8(notify_text(channel@, payload_text(payload))), r),
            r is Ok <==> !has_nul_char(channel@) && !(payload matches Some(p) && has_nul_char(
                p@,
            )),
    {
        proof {
            lemma_notify_is_refused_for_nul(channel@, payload_text(payload));
        }
        let mut query = String::from_str("NOTIFY ");
        query.append(channel);
        match payload {
            Some(p) => {
                query.append(", '");
                query.append(p);
                query.append("';");
            },
            None => {
                query.append(";");
            },
        }
        self.exec(query.as_str())
    }

    /// Prepares the command that subscribes to `channel`.
    pub fn listen(&mut self, channel: &str) -> (r: Result<CText, MarshalError>)
        ensures
            *final(self) == *old(self),
            marshals(encode_utf8(listen_text(channel@)), r),
            r is Ok <==> !has_nul_char(channel@),
    {
        proof {
            lemma_listen_is_refused_for_nul(channel@);
        }
        let mut query = String::from_str("LISTEN ");
        query.append(channel);
        query.append(";");
        self.exec(query.as_str())
    }

    /// Starts a notification loop on this connection. The timeout, in
    /// microseconds, is applied afresh to every wait; none waits without
    /// end.
    pub fn listen_loop<T>(&mut self, timeout_usec: Option<i64>) -> (machine: ListenLoop<T>)
        ensures
            *final(self) == *old(self),
            machine@ == initial::<T>(timeout_usec),
    {
        ListenLoop::new(timeout_usec)
    }
}

} // verus!
