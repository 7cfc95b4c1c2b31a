//! What to do with an inbound command: which local address to fetch, and
//! which envelope answers the relay once the local service has replied.

use vstd::prelude::*;
use crate::json::{copy_text, text_of, ClientEnvelope, HOSClientReq, HOSServerReq, ServerEnvelope};

verus! {

/// The view of a [`PairingContext`].
pub struct Context {
    pub target: Seq<char>,
    pub code: Option<Seq<char>>,
}

/// `s` without the slashes at its end.
pub open spec fn strip_trailing_slashes(s: Seq<char>) -> Seq<char>
    decreases s.len(),
{
    if s.len() > 0 && s.last() == '/' {
        strip_trailing_slashes(s.drop_last())
    } else {
        s
    }
}

/// Whether `s` ends in a slash.
pub open spec fn ends_in_slash(s: Seq<char>) -> bool {
    s.len() > 0 && s.last() == '/'
}

/// The local forwarding target and the pairing token: set once, then only
/// read. The target never ends in a slash.
#[derive(Debug)]
pub struct PairingContext {
    local_target: String,
    pairing_code: Option<String>,
}

impl View for PairingContext {
    type V = Context;

    closed spec fn view(&self) -> Context {
        Context { target: self.local_target@, code: text_of(self.pairing_code) }
    }
}

impl Clone for PairingContext {
    fn clone(&self) -> (r: Self)
        ensures
            r@ == self@,
    {
        proof {
            use_type_invariant(self);
        }
        PairingContext {
            local_target: self.local_target.clone(),
            pairing_code: copy_text(&self.pairing_code),
        }
    }
}

impl PairingContext {
    /// The target was stripped of its trailing slashes.
    #[verifier::type_invariant]
    spec fn well_formed(&self) -> bool {
        !ends_in_slash(self.local_target@)
    }

    /// The context for the local address `local_addr`, whose trailing
    /// slashes are dropped, and the pairing token.
    pub fn new(local_addr: &str, pairing_code: Option<String>) -> (r: Self)
        ensures
            r@.target == strip_trailing_slashes(local_addr@),
            r@.code == text_of(pairing_code),
            !ends_in_slash(r@.target),
    {
        let mut n: usize = local_addr.unicode_len();
        proof {
            assert(local_addr@.take(n as int) == local_addr@);
        }
        while n > 0 && local_addr.get_char(n - 1) == '/'
            invariant
                n <= local_addr@.len(),
                strip_trailing_slashes(local_addr@) == strip_trailing_slashes(
                    local_addr@.take(n as int),
                ),
            decreases n,
        {
            proof {
                assert(local_addr@.take(n as int).drop_last() == local_addr@.take(n - 1));
            }
            n -= 1;
        }
        proof {
            assert(local_addr@.subrange(0, n as int) == local_addr@.take(n as int));
        }
        let kept = local_addr.substring_char(0, n);
        PairingContext { local_target: String::from_str(kept), pairing_code }
    }

    /// The local forwarding target.
    pub fn local_target(&self) -> (r: &str)
        ensures
            r@ == self@.target,
            !ends_in_slash(r@),
    {
        proof {
            use_type_invariant(self);
        }
        self.local_target.as_str()
    }

    /// The pairing token, if there is one.
    pub fn pairing_code(&self) -> (r: &Option<String>)
        ensures
            text_of(*r) == self@.code,
    {
        &self.pairing_code
    }
}

/// The standard base64 text of `bytes`, with padding.
pub uninterp spec fn base64_standard(bytes: Seq<u8>) -> Seq<char>;

/// Calls `encode` of base64's `STANDARD` engine. The result is the base64
/// text of the bytes, which depends on the bytes alone. `encode` gives up
/// only where the length of the text does not fit the machine's word, which
/// no slice in memory is long enough for.
#[verifier::external_body]
fn base64_text(bytes: &[u8]) -> (r: String)
    ensures
        r@ == base64_standard(bytes@),
{
    base64::Engine::encode(&base64::engine::general_purpose::STANDARD, bytes)
}

/// The local address that a command asks for: the target, a slash, and the
/// command's path.
pub open spec fn local_url(c: Context, url: Seq<char>) -> Seq<char> {
    c.target + "/"@ + url
}

/// The address to fetch for a command, or nothing for a command that is
/// passed over: any that is no request with the method GET.
pub open spec fn planned(c: Context, e: ServerEnvelope) -> Option<Seq<char>> {
    if e.is_get_request() {
        Some(local_url(c, e.url))
    } else {
        None
    }
}

/// The envelope that answers a command: its correlation id, the pairing
/// token, the local service's status, and the body in base64.
pub open spec fn answer(c: Context, id: Option<Seq<char>>, status: u16, body: Seq<u8>) -> ClientEnvelope {
    ClientEnvelope {
        kind: "response"@,
        id,
        code: c.code,
        status: Some(status),
        content: Some(base64_standard(body)),
    }
}

/// Decides what a command asks of the local service: the address to fetch
/// with GET, or nothing.
pub fn plan(context: &PairingContext, request: &HOSServerReq) -> (r: Option<String>)
    ensures
        text_of(r) == planned(context@, request@),
{
    if request.is_get_request() {
        let mut address = String::from_str(context.local_target());
        address.append("/");
        address.append(request.url.as_str());
        Some(address)
    } else {
        None
    }
}

/// Builds the envelope that answers the command with the correlation id
/// `id`, from the status and the body that the local service returned.
pub fn reply(context: &PairingContext, id: Option<String>, status: u16, body: &[u8]) -> (r:
    HOSClientReq)
    ensures
        r@ == answer(context@, text_of(id), status, body@),
        r@.is_response(),
{
    let code = copy_text(context.pairing_code());
    HOSClientReq::response(id, code, status, base64_text(body))
}

} // verus!
