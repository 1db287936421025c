//! The message that the services pass to each other over their queues, and
//! lists of messages addressed to queues.
use vstd::prelude::*;

verus! {

/// A message: the bytes of an image, a card identifier or a log line.
#[derive(Debug, Clone)]
pub struct Message {
    pub content: Vec<u8>,
}

/// A list of messages, each addressed to a queue, as queue names and contents.
pub open spec fn routed(messages: Seq<(String, Message)>) -> Seq<(Seq<char>, Seq<u8>)> {
    messages.map_values(|m: (String, Message)| (m.0@, m.1.content@))
}

/// A copy of a byte buffer, equal to it.
pub fn copy_bytes(bytes: &Vec<u8>) -> (res: Vec<u8>)
    ensures
        res@ == bytes@,
{
    let mut out: Vec<u8> = Vec::new();
    let n: usize = bytes.len();
    let mut i: usize = 0;
    while i < n
        invariant
            n == bytes@.len(),
            i <= n,
            out@ == bytes@.subrange(0, i as int),
        decreases n - i,
    {
        out.push(bytes[i]);
        i = i + 1;
        assert(out@ =~= bytes@.subrange(0, i as int));
    }
    assert(bytes@.subrange(0, n as int) =~= bytes@);
    out
}

} // verus!
