use vstd::prelude::*;
use vstd::utf8::encode_utf8;

verus! {

/// The canned replies, in order.
pub open spec fn canned_reply(i: int) -> Seq<char> {
    if i == 0 {
        "That's a great question! Let me think through this with you."@
    } else if i == 1 {
        "Interesting. Here's what I'd consider in this situation."@
    } else if i == 2 {
        "Based on what you've shared, here are a few things to keep in mind."@
    } else if i == 3 {
        "Good point. In Rust this often comes down to ownership and lifetimes."@
    } else {
        "Let me break that down step by step."@
    }
}

/// The placeholder reply to a message: the canned reply chosen by the
/// message's length in UTF-8 bytes, modulo the number of replies.
pub fn get_reply(message: String) -> (reply: String)
    requires
        encode_utf8(message@).len() <= usize::MAX,
    ensures
        reply@ == canned_reply(encode_utf8(message@).len() as int % 5),
{
    let len = message.as_str().len();
    let idx = len % 5;
    let text = if idx == 0 {
        "That's a great question! Let me think through this with you."
    } else if idx == 1 {
        "Interesting. Here's what I'd consider in this situation."
    } else if idx == 2 {
        "Based on what you've shared, here are a few things to keep in mind."
    } else if idx == 3 {
        "Good point. In Rust this often comes down to ownership and lifetimes."
    } else {
        "Let me break that down step by step."
    };
    String::from_str(text)
}

} // verus!
