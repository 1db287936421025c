//! Verified core of the card-game room monitor: overlord card data, QR based
//! card identification, message routing between the services, the broadcast
//! state and the dashboard's text and image conversions.
pub mod text;
pub mod cards;
pub mod table;
pub mod ipc;
pub mod raster;
pub mod detect_card;
pub mod identify_game_scene;
pub mod broadcast;
pub mod presentation;
