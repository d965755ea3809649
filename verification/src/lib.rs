//! A codec between JSON text and the dynamic values of a host runtime.
//!
//! Text is parsed by `serde_json` and every level of the parsed tree is
//! rebuilt by hand as a [`host::HostValue`], so that nested objects keep their
//! members. Trees are written back as compact or indented text. The two
//! serializers, [`message::MessageSerializer`] and [`state::StateSerializer`],
//! reuse one byte buffer each from call to call.
//!
//! The contracts are stated over the trees that texts and values stand for;
//! [`json`] and [`buffer`] hold what is believed of `serde_json` and `std`, and
//! [`laws`] what follows for the codec as a whole.

pub mod bridge;
pub mod buffer;
pub mod error;
pub mod host;
pub mod json;
pub mod laws;
pub mod message;
pub mod state;
pub mod text;

pub use bridge::json_value_to_js;
pub use error::{CodecError, HostFault};
pub use host::{HostNumber, HostValue};
pub use message::{quick_deserialize, quick_serialize, MessageSerializer};
pub use state::{quick_deserialize_state, quick_serialize_state, StateSerializer};
