//! The echo service: the smallest service there is, for trying a server out.

use crate::buffer::bytes_seq;
use crate::codec::{MethodCodec, TextCodec};
use crate::controller::Controller;
use crate::dispatcher::{spec_names, Registrant};
use crate::service::MethodError;
use crate::stub::{decode_call, encode_reply, spec_undecodable_text};
use crate::text::string_push;
use bytes::Bytes;
use vstd::prelude::*;
use vstd::string::StringExecFns;
use vstd::utf8::{decode_utf8, encode_utf8, valid_utf8};

verus! {

/// A service that answers with what it was sent.
#[derive(Clone, Copy, Debug)]
pub struct Echo;

/// The methods of the echo service.
#[derive(Clone, Copy, Debug, PartialEq, Eq, Structural)]
pub enum EchoMethod {
    /// Registered as `echo`.
    Echo,
    /// Registered as `rev_echo`.
    RevEcho,
}

impl EchoMethod {
    /// What the method makes of a text.
    pub open spec fn spec_apply(self, text: Seq<char>) -> Seq<char> {
        match self {
            EchoMethod::Echo => text,
            EchoMethod::RevEcho => text.reverse(),
        }
    }
}

impl Registrant<EchoMethod> for Echo {
    open spec fn spec_methods(&self) -> Seq<(Seq<char>, EchoMethod)> {
        seq![("echo"@, EchoMethod::Echo), ("rev_echo"@, EchoMethod::RevEcho)]
    }

    fn methods(&self) -> (entries: Vec<(String, EchoMethod)>) {
        let mut entries: Vec<(String, EchoMethod)> = Vec::new();
        entries.push((String::from_str("echo"), EchoMethod::Echo));
        entries.push((String::from_str("rev_echo"), EchoMethod::RevEcho));
        assert(spec_names(entries@) =~= self.spec_methods());
        entries
    }
}

impl Echo {
    /// Answers with the message itself.
    pub fn echo(&self, msg: (String, Controller)) -> (response: (String, Controller))
        ensures
            response == msg,
    {
        let (text, controller) = msg;
        (text, controller)
    }

    /// Answers with the message's characters in reverse order.
    pub fn rev_echo(&self, msg: (String, Controller)) -> (response: (String, Controller))
        ensures
            response.0@ == msg.0@.reverse(),
            response.1 == msg.1,
    {
        let (text, controller) = msg;
        let mut forward: Vec<char> = Vec::new();
        for c in iter: text.as_str().chars()
            invariant
                iter.seq() == text@,
                forward@ == text@.take(iter.index() as int),
        {
            forward.push(c);
            assert(forward@ == text@.take(iter.index() + 1));
        }
        assert(forward@ == text@);
        let mut reversed = String::new();
        let mut left: usize = forward.len();
        while left > 0
            invariant
                left <= forward@.len(),
                reversed@.len() == forward@.len() - left,
                forall|k: int|
                    0 <= k < reversed@.len() ==> reversed@[k] == forward@[forward@.len() - 1 - k],
            decreases left,
        {
            left -= 1;
            string_push(&mut reversed, forward[left]);
        }
        assert(reversed@ =~= text@.reverse());
        (reversed, controller)
    }

    /// Handles a call of `method` on payload bytes: the payload is read as
    /// UTF-8 text, and the answer is written as UTF-8 text. A payload that is
    /// not text fails the call.
    pub fn handle(&self, method: EchoMethod, body: &Bytes, controller: Controller) -> (r: Result<
        (Bytes, Controller),
        MethodError,
    >)
        ensures
            r is Ok <==> valid_utf8(bytes_seq(*body)),
            r is Ok ==> bytes_seq(r->Ok_0.0) == encode_utf8(
                method.spec_apply(decode_utf8(bytes_seq(*body))),
            ) && r->Ok_0.1 == controller,
            r is Err ==> (r->Err_0 matches MethodError::HandlerFailed(text) && text@
                == spec_undecodable_text()),
    {
        let text = match decode_call(&TextCodec, body) {
            Ok(text) => text,
            Err(e) => {
                return Err(e);
            },
        };
        let reply = match method {
            EchoMethod::Echo => self.echo((text, controller)),
            EchoMethod::RevEcho => self.rev_echo((text, controller)),
        };
        encode_reply(&TextCodec, Ok(reply))
    }
}

} // verus!
