//! The broadcast service's state and decisions: which queues it listens to,
//! the latest content of each queue, the answer to a request for a queue and
//! which broadcast messages go to a subscriber of a queue.
use vstd::prelude::*;
use crate::ipc::{copy_bytes, Message};
use crate::table::KeyedTable;

verus! {

/// The latest content received from each queue, by queue name.
pub type LatestContent = KeyedTable<Vec<u8>>;

/// The latest contents as a map from queue names to contents.
pub open spec fn latest_view(state: &LatestContent) -> Map<Seq<char>, Seq<u8>> {
    contents_view(state@)
}

/// A map of byte buffers as a map of byte sequences.
pub open spec fn contents_view(m: Map<Seq<char>, Vec<u8>>) -> Map<Seq<char>, Seq<u8>> {
    m.map_values(|c: Vec<u8>| c@)
}

/// The queues that the broadcast service listens to.
#[derive(Debug, Clone)]
pub struct BroadcastQueues {
    pub game_room_feed_queue: String,
    pub short_log_queue: String,
    pub detected_ol_cards_queue: String,
}

impl BroadcastQueues {
    /// The names of the queues to listen to: the game room feed, the detected
    /// overlord cards and the log, in that order.
    pub fn queues(&self) -> (res: Vec<String>)
        ensures
            res@.map_values(|q: String| q@) == seq![
                self.game_room_feed_queue@,
                self.detected_ol_cards_queue@,
                self.short_log_queue@,
            ],
    {
        let mut queues: Vec<String> = Vec::new();
        queues.push(self.game_room_feed_queue.clone());
        queues.push(self.detected_ol_cards_queue.clone());
        queues.push(self.short_log_queue.clone());
        assert(queues@.map_values(|q: String| q@) =~= seq![
            self.game_room_feed_queue@,
            self.detected_ol_cards_queue@,
            self.short_log_queue@,
        ]);
        queues
    }
}

/// The kind of content that an answer carries.
#[derive(Debug, Clone, Copy, PartialEq, Eq, Structural)]
pub enum ContentType {
    ImagePng,
    ApplicationText,
}

/// An answer to a request for a queue's latest content.
#[derive(Debug, Clone)]
pub struct Reply {
    pub content_type: ContentType,
    pub body: Vec<u8>,
}

/// `name` is one of the queue names.
pub open spec fn names_queue(queues: Seq<String>, name: Seq<char>) -> bool {
    exists|i: int| 0 <= i < queues.len() && #[trigger] queues[i]@ == name
}

/// The names of a list of queues, in order.
pub open spec fn queue_names(queues: Seq<String>) -> Seq<Seq<char>> {
    queues.map_values(|q: String| q@)
}

/// A queue is known exactly when its name stands in the list of queue names,
/// at whatever position.
pub proof fn queue_names_are_membership(queues: Seq<String>, name: Seq<char>)
    ensures
        names_queue(queues, name) <==> queue_names(queues).contains(name),
        forall|i: int| 0 <= i < queues.len() && queues[i]@ == name ==> names_queue(queues, name),
{
    let names = queue_names(queues);
    if names.contains(name) {
        let i: int = choose|i: int| 0 <= i < names.len() && names[i] == name;
        assert(queues[i]@ == name);
    }
    if names_queue(queues, name) {
        let i: int = choose|i: int| 0 <= i < queues.len() && #[trigger] queues[i]@ == name;
        assert(names[i] == name);
    }
    assert forall|i: int| 0 <= i < queues.len() && queues[i]@ == name implies names_queue(
        queues,
        name,
    ) by {
        assert(queues[i]@ == name);
    }
}

/// Whether the service listens to the queue called `queue_name`.
pub fn is_known_queue(queues: &Vec<String>, queue_name: &String) -> (res: bool)
    ensures
        res == names_queue(queues@, queue_name@),
        res == queue_names(queues@).contains(queue_name@),
{
    proof {
        queue_names_are_membership(queues@, queue_name@);
    }
    let n: usize = queues.len();
    let mut i: usize = 0;
    while i < n
        invariant
            n == queues@.len(),
            i <= n,
            forall|j: int| 0 <= j < i ==> queues@[j]@ != queue_name@,
        decreases n - i,
    {
        if queues[i] == *queue_name {
            assert(queue_names(queues@)[i as int] == queue_name@);
            return true;
        }
        i = i + 1;
    }
    false
}

/// The answer to a request for a queue: nothing for a queue that the service
/// does not listen to; else the queue's latest content (empty before any),
/// as a PNG image for the game room feed and as text for the other queues.
pub open spec fn reply_for(
    latest: Map<Seq<char>, Seq<u8>>,
    queues: Seq<String>,
    game_room_feed_queue: Seq<char>,
    queue_name: Seq<char>,
) -> Option<(ContentType, Seq<u8>)> {
    if !names_queue(queues, queue_name) {
        None
    } else {
        let body = if latest.contains_key(queue_name) {
            latest[queue_name]
        } else {
            Seq::empty()
        };
        if queue_name == game_room_feed_queue {
            Some((ContentType::ImagePng, body))
        } else {
            Some((ContentType::ApplicationText, body))
        }
    }
}

/// The answer to a request for the queue called `queue_name`.
pub fn queue_reply(
    state: &LatestContent,
    queues: &Vec<String>,
    game_room_feed_queue: &String,
    queue_name: &String,
) -> (res: Option<Reply>)
    ensures
        match res {
            Some(r) => reply_for(
                latest_view(state),
                queues@,
                game_room_feed_queue@,
                queue_name@,
            ) == Some((r.content_type, r.body@)),
            None => reply_for(
                latest_view(state),
                queues@,
                game_room_feed_queue@,
                queue_name@,
            ) is None,
        },
{
    if !is_known_queue(queues, queue_name) {
        return None;
    }
    let body = match state.get(queue_name.as_str()) {
        Some(content) => copy_bytes(content),
        None => Vec::new(),
    };
    assert(latest_view(state).contains_key(queue_name@) == state@.contains_key(
        queue_name@,
    ));
    if *queue_name == *game_room_feed_queue {
        Some(Reply { content_type: ContentType::ImagePng, body })
    } else {
        Some(Reply { content_type: ContentType::ApplicationText, body })
    }
}

/// The latest message received from the queue `queue_name`, if one arrived: what
/// a new subscriber of that queue is sent first.
pub fn latest_message(state: &LatestContent, queue_name: &String) -> (res: Option<Message>)
    ensures
        match res {
            Some(m) => latest_view(state).contains_key(queue_name@) && m.content@
                == latest_view(state)[queue_name@],
            None => !latest_view(state).contains_key(queue_name@),
        },
{
    match state.get(queue_name.as_str()) {
        Some(content) => Some(Message { content: copy_bytes(content) }),
        None => None,
    }
}

/// Keeps a message that arrived on the queue `queue_name` as that queue's latest
/// content, and gives the queue name and message to broadcast to subscribers.
pub fn record_queue_message(state: &mut LatestContent, queue_name: &String, message: &Message) -> (res: (
    String,
    Message,
))
    ensures
        latest_view(final(state)) == latest_view(old(state)).insert(
            queue_name@,
            message.content@,
        ),
        res.0@ == queue_name@,
        res.1.content@ == message.content@,
{
    let ghost before = state@;
    state.insert(queue_name.clone(), copy_bytes(&message.content));
    assert(latest_view(state) =~= contents_view(before).insert(queue_name@, message.content@));
    (queue_name.clone(), Message { content: copy_bytes(&message.content) })
}

/// The message that a subscriber of `subscribed_queue` gets for a broadcast
/// item: the item's message when it came from that queue, else nothing.
pub fn message_for_subscriber(subscribed_queue: &String, item: &(String, Message)) -> (res: Option<
    Message,
>)
    ensures
        match res {
            Some(m) => item.0@ == subscribed_queue@ && m.content@ == item.1.content@,
            None => item.0@ != subscribed_queue@,
        },
{
    if item.0 == *subscribed_queue {
        Some(Message { content: copy_bytes(&item.1.content) })
    } else {
        None
    }
}

/// What a request gives back of what a queue received: after a message arrives
/// on a queue that the service listens to, a request for that queue answers
/// with exactly that message's content, and requests for other queues answer as
/// before.
pub proof fn reply_after_record(
    latest: Map<Seq<char>, Seq<u8>>,
    queues: Seq<String>,
    game_room_feed_queue: Seq<char>,
    queue_name: Seq<char>,
    content: Seq<u8>,
    other: Seq<char>,
)
    requires
        names_queue(queues, queue_name),
    ensures
        reply_for(latest.insert(queue_name, content), queues, game_room_feed_queue, queue_name)
            matches Some((_, body)) && body == content,
        other != queue_name ==> reply_for(
            latest.insert(queue_name, content),
            queues,
            game_room_feed_queue,
            other,
        ) == reply_for(latest, queues, game_room_feed_queue, other),
{
    if other != queue_name {
        if latest.contains_key(other) {
            assert(latest.insert(queue_name, content)[other] == latest[other]);
        }
    }
}

} // verus!
