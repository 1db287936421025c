//! Identifying an overlord card in a camera image by the QR code printed on
//! it, and the messages that the card detection service sends on.
use vstd::prelude::*;
use crate::ipc::{routed, Message};
use crate::raster::{
    decode_image, decoded_grey, decoded_image, grey_image_keeps_the_image_size, to_grey, GreyImage,
};
use crate::text::{contains_text, opt_text, text_contains, texts, utf8_bytes_of_concat};
use rxing::Reader;
use vstd::utf8::encode_utf8;

verus! {

/// The text of the QR code that the QR reader ported from the C++ ZXing finds
/// in a grey image, or `None`.
pub uninterp spec fn cpp_qr_text(pixels: Seq<u8>, width: u32, height: u32) -> Option<Seq<char>>;

/// The text of the QR code that the classic ZXing QR reader finds in a grey
/// image, or `None`.
pub uninterp spec fn classic_qr_text(pixels: Seq<u8>, width: u32, height: u32) -> Option<
    Seq<char>,
>;

/// Reads a QR code with `rxing::qrcode::cpp_port::QrReader` (through
/// `Reader::decode`) on the hybrid binarization of the image's luminance.
/// Claimed: the text is `cpp_qr_text` of the image; `None` when the reader
/// finds no code, or when the buffer does not hold one byte per pixel
/// (`Luma8LuminanceSource::new` refuses it).
#[verifier::external_body]
fn read_qr_cpp(image: &GreyImage) -> (res: Option<String>)
    ensures
        opt_text(res) == cpp_qr_text(image.pixels@, image.width, image.height),
{
    let source = rxing::Luma8LuminanceSource::new(image.pixels.clone(), image.width, image.height)
        .ok()?;
    let mut bitmap = rxing::BinaryBitmap::new(rxing::common::HybridBinarizer::new(source));
    let mut reader = rxing::qrcode::cpp_port::QrReader;
    match reader.decode(&mut bitmap) {
        Ok(result) => Some(result.getText().to_string()),
        Err(_) => None,
    }
}

/// Reads a QR code with `rxing::qrcode::QRCodeReader` (through `Reader::decode`)
/// on the hybrid binarization of the image's luminance. Claimed: the text is
/// `classic_qr_text` of the image; `None` when the reader finds no code, or when
/// the buffer does not hold one byte per pixel.
#[verifier::external_body]
fn read_qr_classic(image: &GreyImage) -> (res: Option<String>)
    ensures
        opt_text(res) == classic_qr_text(image.pixels@, image.width, image.height),
{
    let source = rxing::Luma8LuminanceSource::new(image.pixels.clone(), image.width, image.height)
        .ok()?;
    let mut bitmap = rxing::BinaryBitmap::new(rxing::common::HybridBinarizer::new(source));
    let mut reader = rxing::qrcode::QRCodeReader::new();
    match reader.decode(&mut bitmap) {
        Ok(result) => Some(result.getText().to_string()),
        Err(_) => None,
    }
}

/// The codes found in a grey image: the first reader's code if it finds one,
/// else the second reader's code if that one finds one, else none.
pub open spec fn codes_found(pixels: Seq<u8>, width: u32, height: u32) -> Seq<Seq<char>> {
    match cpp_qr_text(pixels, width, height) {
        Some(t) => seq![t],
        None => match classic_qr_text(pixels, width, height) {
            Some(t) => seq![t],
            None => Seq::empty(),
        },
    }
}

/// The marker that every overlord card's QR code holds.
pub open spec fn card_marker() -> Seq<char> {
    "overlordcard"@
}

/// The first code that holds the overlord card marker.
pub open spec fn first_card_code(codes: Seq<Seq<char>>) -> Option<Seq<char>>
    decreases codes.len(),
{
    if codes.len() == 0 {
        None
    } else if text_contains(codes[0], card_marker()) {
        Some(codes[0])
    } else {
        first_card_code(codes.drop_first())
    }
}

/// A card code that the detection reports always holds the overlord card
/// marker, and is one of the codes read from the image.
pub proof fn reported_card_code_holds_marker(codes: Seq<Seq<char>>)
    ensures
        first_card_code(codes) matches Some(c) ==> text_contains(c, card_marker())
            && codes.contains(c),
    decreases codes.len(),
{
    if codes.len() > 0 {
        reported_card_code_holds_marker(codes.drop_first());
        if !text_contains(codes[0], card_marker()) {
            if first_card_code(codes.drop_first()) is Some {
                let c = first_card_code(codes.drop_first())->0;
                let i: int = choose|i: int| 0 <= i < codes.drop_first().len() && codes.drop_first()[i] == c;
                assert(codes[i + 1] == c);
            }
        } else {
            let witness: int = 0;
            assert(0 <= witness < codes.len() && codes[witness] == codes[0]);
        }
    }
}

/// The card code that an encoded image shows, if any.
pub open spec fn card_in_encoded_image(encoded: Seq<u8>) -> Option<Seq<char>> {
    match decoded_grey(encoded) {
        Some((w, h, grey)) => first_card_code(codes_found(grey, w, h)),
        None => None,
    }
}

/// The card reported for an encoded image is the first card code among the
/// codes that the QR readers find in its grey image, read at the image's own
/// width and height; an image that does not decode shows no card.
pub proof fn card_is_read_at_the_image_size(encoded: Seq<u8>, width: u32, height: u32, grey: Seq<u8>)
    requires
        decoded_grey(encoded) == Some((width, height, grey)),
    ensures
        card_in_encoded_image(encoded) == first_card_code(codes_found(grey, width, height)),
        decoded_image(encoded) matches Some(parts) && parts.0 == width && parts.1 == height,
{
    grey_image_keeps_the_image_size(encoded);
}

/// An encoded image that does not decode shows no card.
pub proof fn undecodable_image_shows_no_card(encoded: Seq<u8>)
    requires
        decoded_image(encoded) is None,
    ensures
        card_in_encoded_image(encoded) is None,
{
    grey_image_keeps_the_image_size(encoded);
}

/// The messages to send on once an image was examined: the card code to the
/// detected-cards queue and a log line to the log queue, or nothing.
pub open spec fn messages_for_card(
    card: Option<Seq<char>>,
    detected_queue: Seq<char>,
    log_queue: Seq<char>,
) -> Seq<(Seq<char>, Seq<u8>)> {
    match card {
        Some(id) => seq![
            (detected_queue, encode_utf8(id)),
            (log_queue, encode_utf8("detected OL card "@ + id)),
        ],
        None => Seq::empty(),
    }
}

/// The queues that the card detection service sends to.
#[derive(Debug, Clone)]
pub struct DetectCardQueues {
    pub detected_ol_cards_queue: String,
    pub short_log_queue: String,
}

/// The grey-scale image that encoded image bytes decode to. The bytes must be
/// an image that the decoder reads.
pub fn convert_to_grey_image(image_buffer: &[u8]) -> (res: GreyImage)
    requires
        decoded_grey(image_buffer@) is Some,
    ensures
        decoded_grey(image_buffer@) == Some((res.width, res.height, res.pixels@)),
{
    let decoded = decode_image(image_buffer).unwrap();
    to_grey(&decoded)
}

/// The grey-scale image that the bytes decode to, or `None` when they are no
/// image that the decoder reads. The bytes are decoded twice: once to test
/// them, once by `convert_to_grey_image`.
pub fn try_convert_to_grey_image(image_buffer: &[u8]) -> (res: Option<GreyImage>)
    ensures
        match res {
            Some(img) => decoded_grey(image_buffer@) == Some((img.width, img.height, img.pixels@)),
            None => decoded_grey(image_buffer@) is None,
        },
{
    match decode_image(image_buffer) {
        Some(_) => Some(convert_to_grey_image(image_buffer)),
        None => None,
    }
}

/// All the QR code texts found in the image: the C++-port reader is tried first,
/// the classic reader only when the first finds nothing.
pub fn get_all_codes_from(image: &GreyImage) -> (res: Vec<String>)
    ensures
        texts(res@) == codes_found(image.pixels@, image.width, image.height),
{
    let mut decoded_strings: Vec<String> = Vec::new();
    if let Some(text) = read_qr_cpp(image) {
        decoded_strings.push(text);
        assert(texts(decoded_strings@) =~= codes_found(image.pixels@, image.width, image.height));
        return decoded_strings;
    }
    if let Some(text) = read_qr_classic(image) {
        decoded_strings.push(text);
    }
    assert(texts(decoded_strings@) =~= codes_found(image.pixels@, image.width, image.height));
    decoded_strings
}

/// The first of the codes that holds the overlord card marker.
pub fn find_overlord_card_code(codes: &Vec<String>) -> (res: Option<String>)
    ensures
        opt_text(res) == first_card_code(texts(codes@)),
{
    let n: usize = codes.len();
    let mut i: usize = 0;
    assert(texts(codes@).skip(0) =~= texts(codes@));
    while i < n
        invariant
            n == codes@.len(),
            i <= n,
            first_card_code(texts(codes@)) == first_card_code(texts(codes@).skip(i as int)),
        decreases n - i,
    {
        assert(texts(codes@).skip(i as int)[0] == codes@[i as int]@);
        if contains_text(codes[i].as_str(), "overlordcard") {
            return Some(codes[i].clone());
        }
        assert(texts(codes@).skip(i as int).drop_first() =~= texts(codes@).skip(i + 1));
        i = i + 1;
    }
    assert(texts(codes@).skip(i as int).len() == 0);
    None
}

/// The overlord card code that the image shows, if any.
pub fn identify_card_from(image: &GreyImage) -> (res: Option<String>)
    ensures
        opt_text(res) == first_card_code(codes_found(image.pixels@, image.width, image.height)),
{
    let decoded_strings = get_all_codes_from(image);
    find_overlord_card_code(&decoded_strings)
}

/// The messages to send on for the card found in an image, if one was found.
pub fn messages_for_card_code(card_id: Option<String>, queues: &DetectCardQueues) -> (res: Vec<
    (String, Message),
>)
    ensures
        routed(res@) == messages_for_card(
            opt_text(card_id),
            queues.detected_ol_cards_queue@,
            queues.short_log_queue@,
        ),
{
    let mut downstream_messages: Vec<(String, Message)> = Vec::new();
    if let Some(card_id) = card_id {
        downstream_messages.push(
            (
                queues.detected_ol_cards_queue.clone(),
                Message { content: card_id.as_str().as_bytes_vec() },
            ),
        );
        let log_line = utf8_bytes_of_concat("detected OL card ", card_id.as_str());
        downstream_messages.push((queues.short_log_queue.clone(), Message { content: log_line }));
    }
    assert(routed(downstream_messages@) =~= messages_for_card(
        opt_text(card_id),
        queues.detected_ol_cards_queue@,
        queues.short_log_queue@,
    ));
    downstream_messages
}

/// The messages that the card detection service sends on for one game room
/// image: when the image shows an overlord card's QR code, the card code to the
/// detected-cards queue and a log line to the log queue; else nothing.
pub fn handle_game_room_image(game_room_image: &Message, queues: &DetectCardQueues) -> (res: Vec<
    (String, Message),
>)
    ensures
        routed(res@) == messages_for_card(
            card_in_encoded_image(game_room_image.content@),
            queues.detected_ol_cards_queue@,
            queues.short_log_queue@,
        ),
        match decoded_grey(game_room_image.content@) {
            Some((width, height, grey)) => routed(res@) == messages_for_card(
                first_card_code(codes_found(grey, width, height)),
                queues.detected_ol_cards_queue@,
                queues.short_log_queue@,
            ),
            None => res@.len() == 0,
        },
{
    proof {
        if let Some((width, height, grey)) = decoded_grey(game_room_image.content@) {
            card_is_read_at_the_image_size(game_room_image.content@, width, height, grey);
        }
    }
    let card_id = match try_convert_to_grey_image(game_room_image.content.as_slice()) {
        Some(image) => identify_card_from(&image),
        None => None,
    };
    messages_for_card_code(card_id, queues)
}

} // verus!
