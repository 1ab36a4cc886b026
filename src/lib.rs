//! The application-level logic of a GUI toolkit binding.
//!
//! The core is a typed, process-wide message channel over a single-slot hand-off transport.
//! Values cross the transport as type-erased envelopes. Each envelope holds a fingerprint
//! of the payload type (its size and a hash of its canonical name) and the payload encoded
//! as machine words. A receiver accepts an envelope only when the fingerprint matches its
//! own type. Beside it stand the names and codes of the widget schemes and the table of
//! known fonts.
mod channel;
mod fingerprint;
mod fonts;
mod payload;
mod scheme;
mod transport;

pub use channel::{
    channel, lemma_channels_share_slot, lemma_last_write_wins, lemma_mismatched_envelope_is_lost,
    lemma_send_then_recv, lemma_single_consumption, recv_result, slot_after_recv, slot_after_send,
    Receiver, Sender,
};
pub use fingerprint::{fingerprint_of, name_hash, Fingerprint};
pub use fonts::{builtin_font_names, names_view, FontTable, LOADED_FONT_INDEX};
pub use payload::Payload;
pub use scheme::{scheme_name, scheme_of_code, AppScheme, Scheme};
pub use transport::{Envelope, EnvelopeView, SlotState, Transport};
