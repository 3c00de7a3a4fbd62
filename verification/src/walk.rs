//! What a walk over the presence words of a capture finds: the description that the parser is
//! proved against.
//!
//! The walk goes over the present words in their order and over the bits of each word from bit
//! 0 up. It keeps a cursor into the payload and the namespace that the bits are read in. A
//! field bit takes the field from the payload, bit 29 goes back to the default namespace, and
//! bit 30 opens a vendor namespace.

use crate::bits::{aligned, bit_is_set};
use crate::error::ErrorKind;
use crate::field::header::HeaderView;
use crate::field::{Field, Header, VendorNamespace};
use crate::layout::{key_of, layout_at, FieldLayout, Layouts};
use crate::ns::{Namespace, NamespaceKind, Radiotap};
use crate::Oui;
use vstd::prelude::*;

verus! {

/// The namespace that a field belongs to.
#[derive(Clone, Copy, Debug, PartialEq, Eq)]
pub enum NamespaceId {
    /// The default Radiotap namespace.
    Default,
    /// A vendor namespace.
    Vendor {
        /// The vendor that defines the namespace.
        oui: Oui,
        /// The number that the vendor gives the namespace.
        sub_namespace: u8,
    },
}

/// Where a decoded field lies in its capture.
#[derive(Clone, Copy, Debug, PartialEq, Eq)]
pub struct FieldExtent {
    /// The namespace of the field.
    pub namespace: NamespaceId,
    /// The number of the present word that announces the field, counted from zero.
    pub word: usize,
    /// The presence bit of the field within its present word, 0 to 28.
    pub bit: u8,
    /// The offset of the first byte of the field from the start of the capture.
    pub start: usize,
    /// The offset of the byte after the last one of the field.
    pub end: usize,
}

/// Bytes of a vendor namespace, as they stand in the capture.
#[derive(Clone, Debug, PartialEq, Eq)]
pub struct VendorData {
    /// The vendor that defines the namespace.
    pub oui: Oui,
    /// The number that the vendor gives the namespace.
    pub sub_namespace: u8,
    /// The presence bit of the field that the bytes are, where the namespace is registered; or
    /// `None` for the whole data of a namespace that is not registered.
    pub bit: Option<u8>,
    /// The bytes.
    pub data: Vec<u8>,
}

/// What a record of vendor data holds, with its bytes as a sequence.
pub struct VendorDataView {
    /// The vendor that defines the namespace.
    pub oui: Oui,
    /// The number that the vendor gives the namespace.
    pub sub_namespace: u8,
    /// The presence bit of the field, or `None` for the data of a namespace that is not
    /// registered.
    pub bit: Option<u8>,
    /// The bytes.
    pub data: Seq<u8>,
}

impl View for VendorData {
    type V = VendorDataView;

    open spec fn view(&self) -> VendorDataView {
        VendorDataView {
            oui: self.oui,
            sub_namespace: self.sub_namespace,
            bit: self.bit,
            data: self.data@,
        }
    }
}

/// What a sequence of records of vendor data holds.
pub open spec fn records(vendors: Seq<VendorData>) -> Seq<VendorDataView> {
    vendors.map_values(|record: VendorData| record@)
}

/// The records of a sequence that has grown by one are those of the sequence and that of the
/// new one.
pub proof fn lemma_records_push(vendors: Seq<VendorData>, record: VendorData)
    ensures
        records(vendors.push(record)) == records(vendors).push(record@),
{
    assert(records(vendors.push(record)) =~= records(vendors).push(record@));
}

/// How far the walk over a capture has come, and what it has gathered.
pub struct WalkView {
    /// The number of the present word that the walk is in, counted from zero.
    pub word: nat,
    /// The offset of the next byte of the payload.
    pub pos: nat,
    /// The namespace that the presence bits are read in, or `None` after the data of a vendor
    /// namespace that is not registered, where they are passed over.
    pub active: Option<NamespaceId>,
    /// The fields of the default namespace.
    pub radiotap: Radiotap,
    /// Where each decoded field lies, in the order of the capture.
    pub fields: Seq<FieldExtent>,
    /// The bytes of the vendor namespaces, in the order of the capture.
    pub vendors: Seq<VendorDataView>,
}

/// The walk at the start of the payload of a capture whose header takes `size` bytes: nothing
/// is gathered yet, and the bits are read in the default namespace.
pub open spec fn walk_start(size: nat) -> WalkView {
    WalkView {
        word: 0,
        pos: size,
        active: Some(NamespaceId::Default),
        radiotap: Radiotap::empty(),
        fields: Seq::empty(),
        vendors: Seq::empty(),
    }
}

/// The field that goes with a presence bit of a namespace, read from a capture whose payload
/// has been read up to `pos` and ends at `limit`, and stored in the namespace.
///
/// The bit must stand for a kind of field. The field starts on the next boundary of its kind
/// and has the size of its kind, and it must end within the payload. The result is the
/// namespace with the field in it, and the start and the end of the field.
pub open spec fn next_field<N: Namespace>(
    ns: N,
    bit: u8,
    input: Seq<u8>,
    pos: nat,
    limit: nat,
) -> Result<(N, nat, nat), ErrorKind> {
    match N::Kind::of_bit(bit) {
        None => Err(ErrorKind::UnsupportedField),
        Some(kind) => {
            let start = aligned(pos as int, kind.alignment() as int) as nat;
            let end = start + kind.length();
            if end > limit {
                Err(ErrorKind::IncompleteError)
            } else {
                match ns.updated(kind, input.subrange(start as int, end as int)) {
                    Ok(next) => Ok((next, start, end)),
                    Err(e) => Err(e),
                }
            }
        },
    }
}

/// Where the field with the given layout lies in a capture whose payload has been read up to
/// `pos` and ends at `limit`: its start and its end.
///
/// There must be a layout. The field starts on the next boundary of its layout and has the
/// size of its layout, and it must end within the payload.
pub open spec fn next_extent(layout: Option<FieldLayout>, pos: nat, limit: nat) -> Result<
    (nat, nat),
    ErrorKind,
> {
    match layout {
        None => Err(ErrorKind::UnsupportedField),
        Some(layout) => {
            let start = aligned(pos as int, layout.align as int) as nat;
            let end = start + layout.size as nat;
            if end > limit {
                Err(ErrorKind::IncompleteError)
            } else {
                Ok((start, end))
            }
        },
    }
}

/// The layout that a registry gives a presence bit of a vendor namespace, if the namespace is
/// registered and defines the bit.
pub open spec fn vendor_layout(layouts: Layouts, oui: Oui, sub_namespace: u8, bit: u8) -> Option<
    FieldLayout,
> {
    if layouts.contains_key(key_of(oui, sub_namespace)) {
        layout_at(layouts[key_of(oui, sub_namespace)], bit)
    } else {
        None
    }
}

/// The walk after a field bit, one of the bits 0 to 28, that is set.
///
/// With no active namespace the bit is passed over. In the default namespace the field is
/// decoded and stored, and its extent is noted. In a vendor namespace the extent is noted and
/// the bytes of the field are kept.
pub open spec fn after_field(
    input: Seq<u8>,
    limit: nat,
    layouts: Layouts,
    walk: WalkView,
    bit: u8,
) -> Result<WalkView, ErrorKind> {
    match walk.active {
        None => Ok(walk),
        Some(NamespaceId::Default) => match next_field::<Radiotap>(
            walk.radiotap,
            bit,
            input,
            walk.pos,
            limit,
        ) {
            Ok((radiotap, start, end)) => Ok(
                WalkView {
                    pos: end,
                    radiotap,
                    fields: walk.fields.push(
                        FieldExtent {
                            namespace: NamespaceId::Default,
                            word: walk.word as usize,
                            bit,
                            start: start as usize,
                            end: end as usize,
                        },
                    ),
                    ..walk
                },
            ),
            Err(e) => Err(e),
        },
        Some(NamespaceId::Vendor { oui, sub_namespace }) => match next_extent(
            vendor_layout(layouts, oui, sub_namespace, bit),
            walk.pos,
            limit,
        ) {
            Ok((start, end)) => Ok(
                WalkView {
                    pos: end,
                    fields: walk.fields.push(
                        FieldExtent {
                            namespace: NamespaceId::Vendor { oui, sub_namespace },
                            word: walk.word as usize,
                            bit,
                            start: start as usize,
                            end: end as usize,
                        },
                    ),
                    vendors: walk.vendors.push(
                        VendorDataView {
                            oui,
                            sub_namespace,
                            bit: Some(bit),
                            data: input.subrange(start as int, end as int),
                        },
                    ),
                    ..walk
                },
            ),
            Err(e) => Err(e),
        },
    }
}

/// The walk after a set bit 30, which opens a vendor namespace.
///
/// The descriptor of the namespace is in the payload, six bytes on the next boundary of two.
/// If the namespace is registered, the bits that follow are read in it. If it is not, the
/// bytes that the descriptor announces are kept and passed over, no more and no less, and the
/// bits that follow are passed over too. Either way the payload must not end before.
pub open spec fn after_vendor_bit(
    input: Seq<u8>,
    limit: nat,
    layouts: Layouts,
    walk: WalkView,
) -> Result<WalkView, ErrorKind> {
    let start = aligned(walk.pos as int, 2) as nat;
    let end = start + 6;
    if end > limit {
        Err(ErrorKind::IncompleteError)
    } else {
        match VendorNamespace::decodes(input.subrange(start as int, end as int)) {
            Err(e) => Err(e),
            Ok(vendor) => if layouts.contains_key(key_of(vendor.oui, vendor.sub_namespace)) {
                Ok(
                    WalkView {
                        pos: end,
                        active: Some(
                            NamespaceId::Vendor {
                                oui: vendor.oui,
                                sub_namespace: vendor.sub_namespace,
                            },
                        ),
                        ..walk
                    },
                )
            } else if end + vendor.skip_length > limit {
                Err(ErrorKind::IncompleteError)
            } else {
                Ok(
                    WalkView {
                        pos: end + vendor.skip_length as nat,
                        active: None,
                        vendors: walk.vendors.push(
                            VendorDataView {
                                oui: vendor.oui,
                                sub_namespace: vendor.sub_namespace,
                                bit: None,
                                data: input.subrange(end as int, end + vendor.skip_length),
                            },
                        ),
                        ..walk
                    },
                )
            },
        }
    }
}

/// The walk after one bit of a present word.
///
/// A clear bit changes nothing. Bit 29 goes back to the default namespace, bit 30 opens a
/// vendor namespace, and the bits below are fields. Bit 31 belongs to the header.
#[verifier::opaque]
pub open spec fn after_bit(
    input: Seq<u8>,
    limit: nat,
    layouts: Layouts,
    walk: WalkView,
    word: u32,
    bit: u8,
) -> Result<WalkView, ErrorKind> {
    if !bit_is_set(word, bit) || bit >= 31 {
        Ok(walk)
    } else if bit == 29 {
        Ok(WalkView { active: Some(NamespaceId::Default), ..walk })
    } else if bit == 30 {
        after_vendor_bit(input, limit, layouts, walk)
    } else {
        after_field(input, limit, layouts, walk, bit)
    }
}

/// The walk after the lowest `bits` bits of a present word, taken from bit 0 up, or the first
/// error on the way.
pub open spec fn after_bits(
    input: Seq<u8>,
    limit: nat,
    layouts: Layouts,
    walk: WalkView,
    word: u32,
    bits: nat,
) -> Result<WalkView, ErrorKind>
    decreases bits,
{
    if bits == 0 {
        Ok(walk)
    } else {
        match after_bits(input, limit, layouts, walk, word, (bits - 1) as nat) {
            Err(e) => Err(e),
            Ok(before) => after_bit(input, limit, layouts, before, word, (bits - 1) as u8),
        }
    }
}

/// The walk after the present word with the given number: after its bits 0 to 30.
pub open spec fn after_word(
    input: Seq<u8>,
    limit: nat,
    layouts: Layouts,
    walk: WalkView,
    word: u32,
    number: nat,
) -> Result<WalkView, ErrorKind> {
    after_bits(input, limit, layouts, WalkView { word: number, ..walk }, word, 31)
}

/// The walk from `start` over the first `words` present words, in their order, or the first
/// error on the way.
pub open spec fn walked(
    input: Seq<u8>,
    limit: nat,
    layouts: Layouts,
    present: Seq<u32>,
    start: WalkView,
    words: nat,
) -> Result<WalkView, ErrorKind>
    decreases words,
{
    if words == 0 {
        Ok(start)
    } else {
        match walked(input, limit, layouts, present, start, (words - 1) as nat) {
            Err(e) => Err(e),
            Ok(before) => after_word(
                input,
                limit,
                layouts,
                before,
                present[words - 1],
                (words - 1) as nat,
            ),
        }
    }
}

/// What a capture holds: its header, the fields of the default namespace, where each decoded
/// field lies, and the bytes of the vendor namespaces.
pub struct CaptureView {
    /// The header.
    pub header: HeaderView,
    /// The fields of the default namespace.
    pub radiotap: Radiotap,
    /// Where each decoded field lies, in the order of the capture.
    pub fields: Seq<FieldExtent>,
    /// The bytes of the vendor namespaces, in the order of the capture.
    pub vendors: Seq<VendorDataView>,
}

/// What a capture holds for a parse that knows the given vendor namespaces, or the reason why
/// it is no valid capture.
///
/// The header is decoded, and the walk goes from the end of the header over all the present
/// words. The payload ends where the header says that the capture does.
pub open spec fn parsed(input: Seq<u8>, layouts: Layouts) -> Result<CaptureView, ErrorKind> {
    match Header::decodes(input) {
        Err(e) => Err(e),
        Ok(header) => match walked(
            input,
            header.length,
            layouts,
            header.present,
            walk_start(header.size),
            header.present.len(),
        ) {
            Err(e) => Err(e),
            Ok(walk) => Ok(
                CaptureView {
                    header,
                    radiotap: walk.radiotap,
                    fields: walk.fields,
                    vendors: walk.vendors,
                },
            ),
        },
    }
}

/// A walk that has failed within a word has failed for good: going on over more bits of the
/// word gives the same error.
pub proof fn lemma_error_stays_in_word(
    input: Seq<u8>,
    limit: nat,
    layouts: Layouts,
    walk: WalkView,
    word: u32,
    bits: nat,
    more: nat,
)
    requires
        after_bits(input, limit, layouts, walk, word, bits) is Err,
        bits <= more,
    ensures
        after_bits(input, limit, layouts, walk, word, more) == after_bits(
            input,
            limit,
            layouts,
            walk,
            word,
            bits,
        ),
    decreases more,
{
    if bits < more {
        lemma_error_stays_in_word(input, limit, layouts, walk, word, bits, (more - 1) as nat);
    }
}

/// A walk that has failed has failed for good: going on over more words gives the same error.
pub proof fn lemma_error_stays(
    input: Seq<u8>,
    limit: nat,
    layouts: Layouts,
    present: Seq<u32>,
    start: WalkView,
    words: nat,
    more: nat,
)
    requires
        walked(input, limit, layouts, present, start, words) is Err,
        words <= more,
    ensures
        walked(input, limit, layouts, present, start, more) == walked(
            input,
            limit,
            layouts,
            present,
            start,
            words,
        ),
    decreases more,
{
    if words < more {
        lemma_error_stays(input, limit, layouts, present, start, words, (more - 1) as nat);
    }
}

} // verus!
