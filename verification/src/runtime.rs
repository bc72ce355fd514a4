use vstd::prelude::*;
use vstd::utf8::{decode_utf8, valid_utf8};

verus! {

/// The entry point through which every Objective-C message is sent, bound once at
/// start-up from the runtime's `objc_msgSend`; its address is never 0.
pub struct MessageSend {
    addr: usize,
}

impl MessageSend {
    #[verifier::type_invariant]
    spec fn bound(self) -> bool {
        self.addr != 0
    }

    /// The address this entry point is bound to.
    pub closed spec fn address(self) -> usize {
        self.addr
    }

    /// Binds the entry point at `addr`; `None` for the null address.
    pub fn bind(addr: usize) -> (r: Option<MessageSend>)
        ensures
            r is Some <==> addr != 0,
            r matches Some(m) ==> m.address() == addr,
    {
        if addr == 0 {
            None
        } else {
            Some(MessageSend { addr })
        }
    }
}

/// The address of the message-send entry point, which each call site reinterprets as a
/// function of the exact signature it needs.
pub fn msg_addr(send: &MessageSend) -> (a: usize)
    ensures
        a == send.address(),
        a != 0,
{
    proof {
        use_type_invariant(send);
    }
    send.addr
}

/// The text that `String::from_utf8_lossy` makes of `bytes`: the bytes decoded as UTF-8,
/// each invalid sequence replaced by U+FFFD.
pub uninterp spec fn utf8_lossy(bytes: Seq<u8>) -> Seq<char>;

/// Calls `String::from_utf8_lossy`. Trusted: the result is `utf8_lossy` of the bytes, and
/// for valid UTF-8 it is exactly their decoding, as std documents (only invalid sequences
/// are replaced). What it makes of invalid sequences is left unsaid beyond the name.
#[verifier::external_body]
fn decode_utf8_lossy(bytes: &[u8]) -> (s: String)
    ensures
        s@ == utf8_lossy(bytes@),
        valid_utf8(bytes@) ==> s@ == decode_utf8(bytes@),
{
    String::from_utf8_lossy(bytes).into_owned()
}

/// The text of an NSString from the UTF-8 bytes it hands out: empty when it hands out no
/// buffer (a null pointer), else the bytes decoded with invalid sequences replaced.
pub fn nsstring_to_string(utf8: Option<&[u8]>) -> (s: String)
    ensures
        match utf8 {
            None => s@ == Seq::<char>::empty(),
            Some(b) => s@ == utf8_lossy(b@) && (valid_utf8(b@) ==> s@ == decode_utf8(b@)),
        },
{
    match utf8 {
        None => String::new(),
        Some(b) => decode_utf8_lossy(b),
    }
}

} // verus!
