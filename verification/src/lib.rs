//! A verified parser for the Radiotap capture format.
//!
//! Radiotap is the pseudo-header that 802.11 drivers put in front of a captured frame to carry
//! radio-layer metadata: signal and noise levels, the channel, the legacy rate or the HT/VHT
//! modulation, timestamps and A-MPDU context.
//!
//! The crate decodes the header, walks the presence words, aligns and slices every field and
//! decodes it into a typed value. Every executable function carries a contract that relates its
//! result to a mathematical description of the wire format, and none of them can panic.
//!
//! # Usage
//!
//! `Radiotap::from_bytes` parses all the fields of the default namespace that a capture holds
//! into a `Radiotap`, and `parse` returns a `Capture`, which also tells where every field lies
//! and what the vendor namespaces hold, together with the bytes that follow the capture.
//!
//! A capture may hold vendor namespaces. The data of one that the parser does not know is kept
//! in one piece and passed over. To have its fields found, register the layout of the
//! namespace in a `CaptureNamespace` and parse with that.
//!
//! To walk a capture yourself, parse its header with `parse_header` and decode single fields
//! with `decode_field`, or with `field::from_bytes` where the type of the field is known.
//!
//! # Modules
//!
//! - `bits` and `cursor` read bits, bytes and little-endian numbers and align positions.
//! - `field` holds the header and the fields with their decoders, and the rate tables.
//! - `ns` holds the default namespace and the traits that describe a namespace.
//! - `layout` holds the layouts by which vendor namespaces are registered.
//! - `walk` describes what the parser finds in a capture, and `capture` is the parser.
//! - `laws` proves what holds of every parsed capture.

pub mod bits;
pub mod capture;
pub mod cursor;
pub mod error;
pub mod field;
pub mod laws;
pub mod layout;
pub mod ns;
pub mod walk;

pub use crate::capture::{parse, parse_header, Capture, CaptureNamespace};
pub use crate::layout::{FieldLayout, VendorLayout};
pub use crate::walk::{FieldExtent, NamespaceId, VendorData};
pub use crate::error::ErrorKind;
pub use crate::ns::{decode_field, FieldValue, Namespace, NamespaceKind, Radiotap, RadiotapKind};

use vstd::prelude::*;

verus! {

/// The Organizationally Unique Identifier of a vendor.
pub type Oui = [u8; 3];

} // verus!
