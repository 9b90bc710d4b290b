//! FlowFlow's note, feed and settings logic: what the screens decide,
//! separated from the screens themselves.

pub mod account;
pub mod app_state;
pub mod chat_provider;
pub mod conflicts;
pub mod conversations;
pub mod dates;
pub mod feed;
pub mod folders;
pub mod import;
pub mod navigation;
pub mod note_actions;
pub mod note_card;
pub mod note_edit;
pub mod onboarding;
pub mod recording;
pub mod related;
pub mod reminders;
pub mod settings;
pub mod shared;
pub mod sheets;
pub mod shortcuts;
pub mod spaces;
pub mod sync;
pub mod tab_pins;
pub mod tags;
pub mod text;
pub mod transcription;
pub mod text_set;
