//! The decisions of the game scene service: when a feature-match score counts
//! as an overlord card, and which messages follow a detection.
use vstd::prelude::*;
use crate::ipc::{copy_bytes, routed, Message};
use vstd::string::StrSliceExecFns;
use vstd::utf8::encode_utf8;

verus! {

/// The kinds of card that the game scene service recognizes.
#[derive(Debug, Clone, Copy, PartialEq, Eq, Structural)]
pub enum CardType {
    Overlord,
}

/// The number of good feature matches above which an image counts as showing
/// an overlord card.
pub const OVERLORD_MATCH_THRESHOLD: u32 = 5;

/// The card type that a score of good feature matches against the overlord
/// card template stands for.
pub fn card_type_from_score(score: u32) -> (res: Option<CardType>)
    ensures
        res == (if score > OVERLORD_MATCH_THRESHOLD {
            Some(CardType::Overlord)
        } else {
            None
        }),
{
    if score > OVERLORD_MATCH_THRESHOLD {
        return Some(CardType::Overlord);
    }
    None
}

/// The queues that the game scene service sends to.
#[derive(Debug, Clone)]
pub struct IdentifyGameSceneQueues {
    pub detected_cards_queue: String,
    pub short_log_queue: String,
}

/// The messages that follow the examination of an image: when a card was
/// detected, the image itself to the detected-cards queue and a log line to the
/// log queue; else nothing.
pub open spec fn messages_for_detection(
    image: Seq<u8>,
    detected: bool,
    detected_queue: Seq<char>,
    log_queue: Seq<char>,
) -> Seq<(Seq<char>, Seq<u8>)> {
    if detected {
        seq![(detected_queue, image), (log_queue, encode_utf8("detected an OL card"@))]
    } else {
        Seq::empty()
    }
}

/// The messages that the game scene service sends on for one game room image,
/// given what the detector made of it (`None` also when the image could not be
/// decoded).
pub fn handle_game_room_image(
    game_room_image: &Message,
    detection: Option<CardType>,
    queues: &IdentifyGameSceneQueues,
) -> (res: Vec<(String, Message)>)
    ensures
        routed(res@) == messages_for_detection(
            game_room_image.content@,
            detection is Some,
            queues.detected_cards_queue@,
            queues.short_log_queue@,
        ),
{
    let mut downstream_messages: Vec<(String, Message)> = Vec::new();
    if detection.is_some() {
        downstream_messages.push(
            (
                queues.detected_cards_queue.clone(),
                Message { content: copy_bytes(&game_room_image.content) },
            ),
        );
        let log_message = "detected an OL card";
        downstream_messages.push(
            (queues.short_log_queue.clone(), Message { content: log_message.as_bytes_vec() }),
        );
    }
    assert(routed(downstream_messages@) =~= messages_for_detection(
        game_room_image.content@,
        detection is Some,
        queues.detected_cards_queue@,
        queues.short_log_queue@,
    ));
    downstream_messages
}

} // verus!
