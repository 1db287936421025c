use base64::Engine;
use descentinel::broadcast::{
    is_known_queue, latest_message, message_for_subscriber, queue_reply, record_queue_message, BroadcastQueues,
    ContentType, LatestContent,
};
use descentinel::cards::{Language, OverlordCard, OverlordCardTranslation, OverlordCardType, OverlordCards};
use descentinel::detect_card::try_convert_to_grey_image;
use descentinel::ipc::Message;
use descentinel::presentation::{
    bytes_from_content, convert_to_array_of_u8, convert_to_image, convert_to_overlord_card_keyword,
    convert_to_str, data_url_for_png, encode_image_to_base64, overlord_card_view,
    try_convert_to_image, try_convert_to_str,
};
use descentinel::raster::{DecodedImage, Samples};
use descentinel::text::{contains_text, strip_prefix_text, text_equal};

fn broadcast_queues() -> BroadcastQueues {
    BroadcastQueues {
        game_room_feed_queue: "Q_GAME_ROOM_FEED".to_string(),
        short_log_queue: "Q_SHORT_LOG".to_string(),
        detected_ol_cards_queue: "Q_DETECTED_OL_CARDS".to_string(),
    }
}

fn json_of(bytes: &[u8]) -> String {
    let numbers: Vec<String> = bytes.iter().map(|b| b.to_string()).collect();
    format!("{{\"content\":[{}]}}", numbers.join(","))
}

#[test]
fn broadcast_listens_to_three_queues() {
    let queues = broadcast_queues().queues();
    assert_eq!(queues, vec!["Q_GAME_ROOM_FEED", "Q_DETECTED_OL_CARDS", "Q_SHORT_LOG"]);
    assert!(is_known_queue(&queues, &"Q_SHORT_LOG".to_string()));
    assert!(!is_known_queue(&queues, &"Q_OTHER".to_string()));
}

#[test]
fn queue_reply_gives_latest_content() {
    let queues = broadcast_queues().queues();
    let feed = "Q_GAME_ROOM_FEED".to_string();
    let log = "Q_SHORT_LOG".to_string();
    let mut state = LatestContent::new();
    assert!(queue_reply(&state, &queues, &feed, &"nope".to_string()).is_none());
    let empty = queue_reply(&state, &queues, &feed, &log).unwrap();
    assert_eq!(empty.content_type, ContentType::ApplicationText);
    assert!(empty.body.is_empty());
    let (queue, message) =
        record_queue_message(&mut state, &log, &Message { content: b"hello".to_vec() });
    assert_eq!(queue, "Q_SHORT_LOG");
    assert_eq!(message.content, b"hello".to_vec());
    record_queue_message(&mut state, &feed, &Message { content: vec![1, 2] });
    let log_reply = queue_reply(&state, &queues, &feed, &log).unwrap();
    assert_eq!(log_reply.body, b"hello".to_vec());
    let feed_reply = queue_reply(&state, &queues, &feed, &feed).unwrap();
    assert_eq!(feed_reply.content_type, ContentType::ImagePng);
    assert_eq!(feed_reply.body, vec![1, 2]);
    record_queue_message(&mut state, &log, &Message { content: b"bye".to_vec() });
    assert_eq!(queue_reply(&state, &queues, &feed, &log).unwrap().body, b"bye".to_vec());
    assert_eq!(state.len(), 2);
    assert_eq!(latest_message(&state, &log).map(|m| m.content), Some(b"bye".to_vec()));
    assert!(latest_message(&state, &"Q_DETECTED_OL_CARDS".to_string()).is_none());
}

#[test]
fn subscribers_get_only_their_queue() {
    let item = ("Q_SHORT_LOG".to_string(), Message { content: vec![5] });
    assert_eq!(
        message_for_subscriber(&"Q_SHORT_LOG".to_string(), &item).map(|m| m.content),
        Some(vec![5])
    );
    assert!(message_for_subscriber(&"Q_GAME_ROOM_FEED".to_string(), &item).is_none());
}

#[test]
fn content_numbers_become_bytes() {
    assert_eq!(convert_to_array_of_u8("{\"content\":[1,2,255]}"), vec![1, 2, 255]);
    assert_eq!(convert_to_array_of_u8("{\"content\":[256,513,-1,\"x\",3.5,7]}"), vec![0, 1, 7]);
    assert!(convert_to_array_of_u8("{\"other\":[1]}").is_empty());
    assert!(convert_to_array_of_u8("{\"content\":12}").is_empty());
    assert!(convert_to_array_of_u8("not json").is_empty());
    assert_eq!(bytes_from_content(Some(vec![Some(65), None, Some(322)])), vec![65, 66]);
    assert!(bytes_from_content(None).is_empty());
}

#[test]
fn content_text_is_decoded() {
    let json = json_of("overlordcard/doom".as_bytes());
    assert_eq!(convert_to_str(&json), "overlordcard/doom");
    assert_eq!(try_convert_to_str(&json_of("Grüße".as_bytes())), Some("Grüße".to_string()));
    assert_eq!(try_convert_to_str(&json_of(&[0xff, 0xfe])), None);
}

#[test]
fn card_keyword_from_code() {
    assert_eq!(convert_to_overlord_card_keyword(Some("overlordcard/doom".to_string())), "doom");
    assert_eq!(convert_to_overlord_card_keyword(Some("overlordcard/".to_string())), "");
    assert_eq!(convert_to_overlord_card_keyword(Some("hero/avric".to_string())), "");
    assert_eq!(convert_to_overlord_card_keyword(Some("overlord".to_string())), "");
    assert_eq!(convert_to_overlord_card_keyword(None), "");
}

fn doom() -> OverlordCard {
    OverlordCard {
        name: "Doom".to_string(),
        card_type: OverlordCardType::Power,
        threat_cost: 3,
        discard_value: 1,
        treachery_cost: None,
        treachery_colour: None,
        effect: "Everything fails.".to_string(),
        overlord_tactic: None,
        heroes_tactic: None,
        translations: vec![OverlordCardTranslation {
            language: Language::De,
            name: "Verderben".to_string(),
            effect: "Alles misslingt.".to_string(),
            overlord_tactic: Some("Spielen.".to_string()),
            heroes_tactic: None,
        }],
    }
}

#[test]
fn card_view_shows_german_texts_of_detected_card() {
    let mut cards = OverlordCards::new();
    cards.insert("doom".to_string(), doom());
    let view = overlord_card_view(&cards, Some("overlordcard/doom".to_string()));
    assert_eq!(view.name, Some("Verderben".to_string()));
    assert_eq!(view.effect, Some("Alles misslingt.".to_string()));
    assert_eq!(view.overlord_tactic, Some("Spielen.".to_string()));
    assert_eq!(view.heroes_tactic, None);
    let blank = overlord_card_view(&cards, Some("overlordcard/aim".to_string()));
    assert_eq!(blank.name, Some(String::new()));
    assert_eq!(blank.effect, Some(String::new()));
    assert_eq!(blank.overlord_tactic, Some(String::new()));
    assert_eq!(blank.heroes_tactic, Some(String::new()));
    let nothing = overlord_card_view(&cards, None);
    assert_eq!(nothing.name, Some(String::new()));
}

#[test]
fn data_url_of_png_bytes() {
    assert_eq!(data_url_for_png(b""), "data:image/png;base64,");
    assert_eq!(data_url_for_png(b"f"), "data:image/png;base64,Zg==");
    assert_eq!(data_url_for_png(b"fo"), "data:image/png;base64,Zm8=");
    assert_eq!(data_url_for_png(b"foo"), "data:image/png;base64,Zm9v");
    assert_eq!(data_url_for_png(b"foobar"), "data:image/png;base64,Zm9vYmFy");
    assert_eq!(data_url_for_png(&[0xfb, 0xff, 0x3e]), "data:image/png;base64,+/8+");
}

fn png_from_data_url(url: &str) -> Vec<u8> {
    let prefix = "data:image/png;base64,";
    assert!(url.starts_with(prefix));
    base64::engine::general_purpose::STANDARD.decode(&url[prefix.len()..]).unwrap()
}

#[test]
fn image_goes_to_png_data_url_and_back() {
    let image = DecodedImage {
        width: 2,
        height: 1,
        samples: Samples::Rgb8(vec![10, 10, 10, 200, 200, 200]),
        rgba: vec![10, 10, 10, 255, 200, 200, 200, 255],
    };
    let url = encode_image_to_base64(&image).unwrap();
    let png = png_from_data_url(&url);
    let written = image::load_from_memory(&png).unwrap();
    assert_eq!(written.color(), image::ColorType::Rgb8);
    let grey = try_convert_to_grey_image(&png).unwrap();
    assert_eq!(grey.pixels, vec![10, 200]);
    let json = json_of(&png);
    let back = convert_to_image(&json);
    assert!(matches!(&back.samples, Samples::Rgb8(b) if *b == vec![10, 10, 10, 200, 200, 200]));
    assert_eq!(back.rgba, image.rgba);
    assert!(try_convert_to_image(&json_of(&[1, 2, 3])).is_none());
}

#[test]
fn sixteen_bit_grey_image_keeps_its_depth_in_the_data_url() {
    let buffer: image::ImageBuffer<image::Luma<u16>, Vec<u16>> =
        image::ImageBuffer::from_raw(2, 1, vec![0x00FF, 0x1234]).unwrap();
    let mut png: Vec<u8> = Vec::new();
    image::DynamicImage::ImageLuma16(buffer)
        .write_to(&mut std::io::Cursor::new(&mut png), image::ImageFormat::Png)
        .unwrap();
    let decoded = try_convert_to_image(&json_of(&png)).unwrap();
    assert!(matches!(&decoded.samples, Samples::L16(w) if *w == vec![0x00FF, 0x1234]));
    let url = encode_image_to_base64(&decoded).unwrap();
    let written = image::load_from_memory(&png_from_data_url(&url)).unwrap();
    assert_eq!(written.color(), image::ColorType::L16);
    assert_eq!(written.into_luma16().into_raw(), vec![0x00FF, 0x1234]);
}

#[test]
fn text_helpers() {
    assert!(text_equal("Trap", "Trap"));
    assert!(!text_equal("Trap", "Trap "));
    assert!(contains_text("the overlordcard/doom", "overlordcard"));
    assert!(contains_text("abc", ""));
    assert!(!contains_text("overlord card", "overlordcard"));
    assert_eq!(strip_prefix_text("überlord", "über"), Some("lord".to_string()));
    assert_eq!(strip_prefix_text("lord", "über"), None);
}
