//! State model of an interactive HTTP request composer: a focus state
//! machine over the form fields, cursor-addressed text buffers for the
//! URL, header and body fields, scroll-visibility bookkeeping, and the
//! pipeline that validates and assembles an outgoing request and folds
//! the transport outcome back into the form.

pub mod buffer;
pub mod event;
pub mod json;
pub mod focus;
pub mod form;
pub mod method;
pub mod request;
pub mod scroll;
pub mod text;

pub use buffer::MultiLineBuffer;
pub use focus::AppFocus;
pub use event::KeyCode;
pub use event::KeyEvent;
pub use event::handle_key_event;
pub use form::App;
pub use method::HttpMethod;
pub use method::METHOD_COUNT;
pub use request::HeaderPair;
pub use request::PreparedRequest;
pub use request::TransportOutcome;
pub use request::ValidationError;
