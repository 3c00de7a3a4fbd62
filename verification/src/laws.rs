//! What holds of every walk over a capture.
//!
//! The walk is described by `walked` and `parsed`, which is what `CaptureNamespace::parse` is
//! proved to compute. The lemmas here say of that description that every field lies in the
//! payload, on the boundary and in the size of its kind, that the fields follow each other, that
//! the cursor never goes back, and that the data of a vendor namespace that is not registered
//! is passed over in exactly its announced length.

use crate::bits::{aligned, bit_is_set, lemma_aligned};
use crate::layout::{key_of, layouts_wf, table_wf, FieldLayout, Layouts};
use crate::walk::{after_bit, after_bits, after_vendor_bit, vendor_layout};
use crate::walk::{parsed, walk_start, walked};
use crate::walk::{CaptureView, FieldExtent, NamespaceId, WalkView};
use crate::error::ErrorKind;
use crate::field::header::lemma_chain_ends_or_is_cut;
use crate::field::{Field, Header, VendorNamespace};
use crate::ns::{lemma_default_layout, FieldValue, NamespaceKind, Radiotap, RadiotapKind};
use vstd::prelude::*;

verus! {

/// The layout that a presence bit has in a namespace: that of its kind in the default
/// namespace, and the registered one in a vendor namespace.
pub open spec fn layout_of(layouts: Layouts, namespace: NamespaceId, bit: u8) -> Option<
    FieldLayout,
> {
    match namespace {
        NamespaceId::Default => match RadiotapKind::of_bit(bit) {
            Some(kind) => Some(
                FieldLayout { align: kind.alignment() as usize, size: kind.length() as usize },
            ),
            None => None,
        },
        NamespaceId::Vendor { oui, sub_namespace } => vendor_layout(
            layouts,
            oui,
            sub_namespace,
            bit,
        ),
    }
}

/// Whether a field lies as it should in a capture whose header takes `size` bytes and whose
/// payload ends at `limit`: its namespace defines its bit, it lies within the payload, it
/// starts on the boundary of its layout, and it has the size of its layout.
pub open spec fn extent_fits(extent: FieldExtent, layouts: Layouts, size: nat, limit: nat) -> bool {
    &&& layout_of(layouts, extent.namespace, extent.bit) is Some
    &&& size <= extent.start <= extent.end <= limit
    &&& extent.start as int % layout_of(layouts, extent.namespace, extent.bit).unwrap().align as int
        == 0
    &&& extent.end - extent.start == layout_of(
        layouts,
        extent.namespace,
        extent.bit,
    ).unwrap().size
}

/// Whether all the fields that a walk has found lie as they should, each one after the one
/// before it, and none beyond the cursor.
pub open spec fn fields_fit(walk: WalkView, layouts: Layouts, size: nat, limit: nat) -> bool {
    &&& size <= walk.pos
    &&& forall|i: int|
        0 <= i < walk.fields.len() ==> extent_fits(#[trigger] walk.fields[i], layouts, size, limit)
    &&& forall|i: int| 0 <= i < walk.fields.len() ==> (#[trigger] walk.fields[i]).end <= walk.pos
    &&& forall|i: int, j: int|
        0 <= i < j < walk.fields.len() ==> (#[trigger] walk.fields[i]).end <= (
        #[trigger] walk.fields[j]).start
}

/// Whether one field is announced before another: by an earlier present word, or by a lower
/// bit of the same word.
pub open spec fn announced_before(a: FieldExtent, b: FieldExtent) -> bool {
    a.word < b.word || (a.word == b.word && a.bit < b.bit)
}

/// Whether the fields that a walk has found are in the order in which they are announced, and
/// all announced before bit `bit` of the word that the walk is in.
pub open spec fn fields_rise(walk: WalkView, bit: nat) -> bool {
    &&& forall|i: int|
        0 <= i < walk.fields.len() ==> (#[trigger] walk.fields[i]).word < walk.word || (
        walk.fields[i].word == walk.word && walk.fields[i].bit < bit)
    &&& forall|i: int, j: int|
        0 <= i < j < walk.fields.len() ==> announced_before(
            #[trigger] walk.fields[i],
            #[trigger] walk.fields[j],
        )
}

/// One bit of a present word never moves the cursor back, and it keeps the fields in their
/// places: if those found before lie as they should, so do those found after.
pub proof fn lemma_bit_keeps_order(
    input: Seq<u8>,
    limit: nat,
    layouts: Layouts,
    walk: WalkView,
    word: u32,
    bit: u8,
    size: nat,
)
    requires
        layouts_wf(layouts),
        limit <= usize::MAX,
        after_bit(input, limit, layouts, walk, word, bit) is Ok,
    ensures
        walk.pos <= after_bit(input, limit, layouts, walk, word, bit).unwrap().pos,
        walk.word == after_bit(input, limit, layouts, walk, word, bit).unwrap().word,
        fields_fit(walk, layouts, size, limit) ==> fields_fit(
            after_bit(input, limit, layouts, walk, word, bit).unwrap(),
            layouts,
            size,
            limit,
        ),
        walk.word <= usize::MAX && fields_rise(walk, bit as nat) ==> fields_rise(
            after_bit(input, limit, layouts, walk, word, bit).unwrap(),
            (bit + 1) as nat,
        ),
{
    reveal(after_bit);
    let next = after_bit(input, limit, layouts, walk, word, bit).unwrap();
    if !bit_is_set(word, bit) || bit >= 31 || bit == 29 {
    } else if bit == 30 {
        lemma_aligned(walk.pos as int, 2);
    } else {
        match walk.active {
            None => {},
            Some(NamespaceId::Default) => {
                let kind = RadiotapKind::of_bit(bit).unwrap();
                lemma_default_layout(kind);
                lemma_aligned(walk.pos as int, kind.alignment() as int);
                let found = next.fields[walk.fields.len() as int];
                assert(next.fields == walk.fields.push(found));
                if fields_fit(walk, layouts, size, limit) {
                    assert(extent_fits(found, layouts, size, limit));
                }
            },
            Some(NamespaceId::Vendor { oui, sub_namespace }) => {
                let layout = vendor_layout(layouts, oui, sub_namespace, bit).unwrap();
                assert(layouts.contains_key(key_of(oui, sub_namespace)));
                assert(table_wf(layouts[key_of(oui, sub_namespace)]));
                assert(layouts[key_of(oui, sub_namespace)][bit as int] is Some);
                lemma_aligned(walk.pos as int, layout.align as int);
                let found = next.fields[walk.fields.len() as int];
                assert(next.fields == walk.fields.push(found));
                if fields_fit(walk, layouts, size, limit) {
                    assert(extent_fits(found, layouts, size, limit));
                }
            },
        }
    }
}

/// The bits of a present word never move the cursor back, and they keep the fields in their
/// places.
pub proof fn lemma_bits_keep_order(
    input: Seq<u8>,
    limit: nat,
    layouts: Layouts,
    walk: WalkView,
    word: u32,
    bits: nat,
    size: nat,
)
    requires
        layouts_wf(layouts),
        limit <= usize::MAX,
        bits <= 31,
        after_bits(input, limit, layouts, walk, word, bits) is Ok,
    ensures
        walk.pos <= after_bits(input, limit, layouts, walk, word, bits).unwrap().pos,
        walk.word == after_bits(input, limit, layouts, walk, word, bits).unwrap().word,
        fields_fit(walk, layouts, size, limit) ==> fields_fit(
            after_bits(input, limit, layouts, walk, word, bits).unwrap(),
            layouts,
            size,
            limit,
        ),
        walk.word <= usize::MAX && fields_rise(walk, 0) ==> fields_rise(
            after_bits(input, limit, layouts, walk, word, bits).unwrap(),
            bits,
        ),
    decreases bits,
{
    if bits > 0 {
        let before = after_bits(input, limit, layouts, walk, word, (bits - 1) as nat);
        lemma_bits_keep_order(input, limit, layouts, walk, word, (bits - 1) as nat, size);
        lemma_bit_keeps_order(
            input,
            limit,
            layouts,
            before.unwrap(),
            word,
            (bits - 1) as u8,
            size,
        );
    }
}

/// The cursor never goes back: a walk that has gone over more present words has its cursor no
/// lower than when it had gone over fewer.
pub proof fn lemma_cursor_never_goes_back(
    input: Seq<u8>,
    limit: nat,
    layouts: Layouts,
    present: Seq<u32>,
    start: WalkView,
    fewer: nat,
    more: nat,
)
    requires
        layouts_wf(layouts),
        limit <= usize::MAX,
        fewer <= more,
        walked(input, limit, layouts, present, start, more) is Ok,
    ensures
        walked(input, limit, layouts, present, start, fewer) is Ok,
        walked(input, limit, layouts, present, start, fewer).unwrap().pos <= walked(
            input,
            limit,
            layouts,
            present,
            start,
            more,
        ).unwrap().pos,
    decreases more,
{
    if fewer < more {
        let before = walked(input, limit, layouts, present, start, (more - 1) as nat);
        lemma_cursor_never_goes_back(
            input,
            limit,
            layouts,
            present,
            start,
            fewer,
            (more - 1) as nat,
        );
        lemma_bits_keep_order(
            input,
            limit,
            layouts,
            WalkView { word: (more - 1) as nat, ..before.unwrap() },
            present[more - 1],
            31,
            0,
        );
    }
}

/// The fields that a walk finds lie as they should: if those that the walk starts with do,
/// so do those that it ends with.
pub proof fn lemma_walk_keeps_order(
    input: Seq<u8>,
    limit: nat,
    layouts: Layouts,
    present: Seq<u32>,
    start: WalkView,
    words: nat,
    size: nat,
)
    requires
        layouts_wf(layouts),
        limit <= usize::MAX,
        words <= usize::MAX,
        fields_fit(start, layouts, size, limit),
        start.fields.len() == 0,
        walked(input, limit, layouts, present, start, words) is Ok,
    ensures
        fields_fit(
            walked(input, limit, layouts, present, start, words).unwrap(),
            layouts,
            size,
            limit,
        ),
        fields_rise(
            WalkView {
                word: words,
                ..walked(input, limit, layouts, present, start, words).unwrap()
            },
            0,
        ),
    decreases words,
{
    if words > 0 {
        let before = walked(input, limit, layouts, present, start, (words - 1) as nat);
        lemma_walk_keeps_order(input, limit, layouts, present, start, (words - 1) as nat, size);
        let entered = WalkView { word: (words - 1) as nat, ..before.unwrap() };
        assert(fields_fit(entered, layouts, size, limit));
        assert(fields_rise(entered, 0));
        lemma_bits_keep_order(input, limit, layouts, entered, present[words - 1], 31, size);
    }
}

/// Whether every field of a capture lies between the end of its header and the end of the
/// capture, starts on the boundary of its kind and has the size of its kind, and starts where
/// the field before it ends, or after; and whether the fields are in the order in which the
/// present words announce them, each announced by a word of the header.
pub open spec fn fields_in_place(capture: CaptureView, layouts: Layouts) -> bool {
    &&& forall|i: int|
        0 <= i < capture.fields.len() ==> extent_fits(
            #[trigger] capture.fields[i],
            layouts,
            capture.header.size,
            capture.header.length,
        )
    &&& forall|i: int, j: int|
        0 <= i < j < capture.fields.len() ==> (#[trigger] capture.fields[i]).end <= (
        #[trigger] capture.fields[j]).start
    &&& forall|i: int, j: int|
        0 <= i < j < capture.fields.len() ==> announced_before(
            #[trigger] capture.fields[i],
            #[trigger] capture.fields[j],
        )
    &&& forall|i: int|
        0 <= i < capture.fields.len() ==> (#[trigger] capture.fields[i]).word
            < capture.header.present.len()
}

/// Every field of a parsed capture is in its place.
pub proof fn lemma_fields_of_capture(input: Seq<u8>, layouts: Layouts)
    requires
        layouts_wf(layouts),
        input.len() <= usize::MAX,
        parsed(input, layouts) is Ok,
    ensures
        fields_in_place(parsed(input, layouts).unwrap(), layouts),
{
    let header = Header::decodes(input).unwrap();
    lemma_chain_ends_or_is_cut(input);
    lemma_walk_keeps_order(
        input,
        header.length,
        layouts,
        header.present,
        walk_start(header.size),
        header.present.len(),
        header.size,
    );
}

/// The last of the fields that is of the given kind of the default namespace, if there is one.
pub open spec fn last_of_kind(fields: Seq<FieldExtent>, kind: RadiotapKind) -> Option<FieldExtent>
    decreases fields.len(),
{
    if fields.len() == 0 {
        None
    } else if fields.last().namespace == NamespaceId::Default && RadiotapKind::of_bit(
        fields.last().bit,
    ) == Some(kind) {
        Some(fields.last())
    } else {
        last_of_kind(fields.drop_last(), kind)
    }
}

/// Whether the default namespace holds, for the given kind, what the last field of that kind
/// decodes to, and nothing if there is no field of that kind.
pub open spec fn holds_last_of_kind(
    radiotap: Radiotap,
    fields: Seq<FieldExtent>,
    input: Seq<u8>,
    kind: RadiotapKind,
) -> bool {
    match last_of_kind(fields, kind) {
        None => radiotap.value_of(kind) is None,
        Some(extent) => kind.decodes(input.subrange(extent.start as int, extent.end as int))
            == Ok::<FieldValue, ErrorKind>(radiotap.value_of(kind).unwrap())
            && radiotap.value_of(kind) is Some,
    }
}

/// Whether the default namespace holds the last field of every kind.
pub open spec fn holds_last(radiotap: Radiotap, fields: Seq<FieldExtent>, input: Seq<u8>) -> bool {
    forall|kind: RadiotapKind| #[trigger] holds_last_of_kind(radiotap, fields, input, kind)
}

/// A decoded field is of the kind that it was decoded as.
pub proof fn lemma_decoded_kind(kind: RadiotapKind, data: Seq<u8>)
    requires
        kind.decodes(data) is Ok,
    ensures
        kind.decodes(data).unwrap().kind_of() == kind,
{
}

/// Storing a field changes what the namespace holds for the kind of the field, and for no
/// other kind.
pub proof fn lemma_with_sets_one_kind(radiotap: Radiotap, value: FieldValue, kind: RadiotapKind)
    ensures
        radiotap.with(value).value_of(kind) == if kind == value.kind_of() {
            Some(value)
        } else {
            radiotap.value_of(kind)
        },
{
}

/// One bit of a present word keeps the default namespace in step with the fields: if it held
/// the last field of every kind before, it does so after.
pub proof fn lemma_bit_keeps_last(
    input: Seq<u8>,
    limit: nat,
    layouts: Layouts,
    walk: WalkView,
    word: u32,
    bit: u8,
)
    requires
        limit <= usize::MAX,
        after_bit(input, limit, layouts, walk, word, bit) is Ok,
        holds_last(walk.radiotap, walk.fields, input),
    ensures
        holds_last(
            after_bit(input, limit, layouts, walk, word, bit).unwrap().radiotap,
            after_bit(input, limit, layouts, walk, word, bit).unwrap().fields,
            input,
        ),
{
    reveal(after_bit);
    let next = after_bit(input, limit, layouts, walk, word, bit).unwrap();
    if next.fields != walk.fields {
        let found = next.fields[walk.fields.len() as int];
        assert(next.fields == walk.fields.push(found));
        assert(next.fields.last() == found);
        assert(next.fields.drop_last() == walk.fields);
        assert forall|kind: RadiotapKind| #[trigger]
            holds_last_of_kind(next.radiotap, next.fields, input, kind) by {
            assert(holds_last_of_kind(walk.radiotap, walk.fields, input, kind));
            match walk.active {
                Some(NamespaceId::Default) => {
                    let own = RadiotapKind::of_bit(bit).unwrap();
                    lemma_default_layout(own);
                    lemma_aligned(walk.pos as int, own.alignment() as int);
                    let data = input.subrange(found.start as int, found.end as int);
                    lemma_decoded_kind(own, data);
                    lemma_with_sets_one_kind(walk.radiotap, own.decodes(data).unwrap(), kind);
                },
                _ => {},
            }
        }
    } else {
        assert forall|kind: RadiotapKind| #[trigger]
            holds_last_of_kind(next.radiotap, next.fields, input, kind) by {
            assert(holds_last_of_kind(walk.radiotap, walk.fields, input, kind));
        }
    }
}

/// The bits of a present word keep the default namespace in step with the fields.
pub proof fn lemma_bits_keep_last(
    input: Seq<u8>,
    limit: nat,
    layouts: Layouts,
    walk: WalkView,
    word: u32,
    bits: nat,
)
    requires
        limit <= usize::MAX,
        after_bits(input, limit, layouts, walk, word, bits) is Ok,
        holds_last(walk.radiotap, walk.fields, input),
    ensures
        holds_last(
            after_bits(input, limit, layouts, walk, word, bits).unwrap().radiotap,
            after_bits(input, limit, layouts, walk, word, bits).unwrap().fields,
            input,
        ),
    decreases bits,
{
    if bits > 0 {
        let before = after_bits(input, limit, layouts, walk, word, (bits - 1) as nat);
        lemma_bits_keep_last(input, limit, layouts, walk, word, (bits - 1) as nat);
        lemma_bit_keeps_last(input, limit, layouts, before.unwrap(), word, (bits - 1) as u8);
    }
}

/// A walk keeps the default namespace in step with the fields.
pub proof fn lemma_walk_keeps_last(
    input: Seq<u8>,
    limit: nat,
    layouts: Layouts,
    present: Seq<u32>,
    start: WalkView,
    words: nat,
)
    requires
        limit <= usize::MAX,
        walked(input, limit, layouts, present, start, words) is Ok,
        holds_last(start.radiotap, start.fields, input),
    ensures
        holds_last(
            walked(input, limit, layouts, present, start, words).unwrap().radiotap,
            walked(input, limit, layouts, present, start, words).unwrap().fields,
            input,
        ),
    decreases words,
{
    if words > 0 {
        let before = walked(input, limit, layouts, present, start, (words - 1) as nat);
        lemma_walk_keeps_last(input, limit, layouts, present, start, (words - 1) as nat);
        lemma_bits_keep_last(
            input,
            limit,
            layouts,
            WalkView { word: (words - 1) as nat, ..before.unwrap() },
            present[words - 1],
            31,
        );
    }
}

/// Of every kind of the default namespace, a parsed capture holds what the last field of that
/// kind decodes to: a later occurrence of a field overwrites an earlier one, and a kind that
/// does not occur is absent.
pub proof fn lemma_last_occurrence_counts(input: Seq<u8>, layouts: Layouts)
    requires
        parsed(input, layouts) is Ok,
    ensures
        holds_last(
            parsed(input, layouts).unwrap().radiotap,
            parsed(input, layouts).unwrap().fields,
            input,
        ),
{
    let header = Header::decodes(input).unwrap();
    let start = walk_start(header.size);
    assert forall|kind: RadiotapKind| #[trigger]
        holds_last_of_kind(start.radiotap, start.fields, input, kind) by {}
    lemma_walk_keeps_last(
        input,
        header.length,
        layouts,
        header.present,
        start,
        header.present.len(),
    );
}

/// The data of a vendor namespace that is not registered is passed over in exactly the length
/// that its descriptor announces: the cursor ends that many bytes after the descriptor, and
/// those bytes are what is kept of the namespace.
pub proof fn lemma_unknown_vendor_is_skipped(
    input: Seq<u8>,
    limit: nat,
    layouts: Layouts,
    walk: WalkView,
)
    requires
        limit <= input.len(),
        aligned(walk.pos as int, 2) + 6 <= limit,
        ({
            let at = aligned(walk.pos as int, 2);
            let vendor = VendorNamespace::decodes(input.subrange(at, at + 6)).unwrap();
            &&& !layouts.contains_key(key_of(vendor.oui, vendor.sub_namespace))
            &&& at + 6 + vendor.skip_length <= limit
        }),
    ensures
        ({
            let at = aligned(walk.pos as int, 2);
            let vendor = VendorNamespace::decodes(input.subrange(at, at + 6)).unwrap();
            let next = after_vendor_bit(input, limit, layouts, walk);
            &&& next is Ok
            &&& next.unwrap().pos == at + 6 + vendor.skip_length
            &&& next.unwrap().active is None
            &&& next.unwrap().fields == walk.fields
            &&& next.unwrap().radiotap == walk.radiotap
            &&& next.unwrap().vendors.len() == walk.vendors.len() + 1
            &&& next.unwrap().vendors.last().data == input.subrange(
                at + 6,
                at + 6 + vendor.skip_length,
            )
            &&& next.unwrap().vendors.last().data.len() == vendor.skip_length
        }),
{
    lemma_aligned(walk.pos as int, 2);
}

/// A capture has one parse: whatever two runs with the same registered namespaces return for
/// it, they return the same.
pub proof fn lemma_parse_is_deterministic(
    input: Seq<u8>,
    layouts: Layouts,
    first: Result<CaptureView, ErrorKind>,
    second: Result<CaptureView, ErrorKind>,
)
    requires
        first == parsed(input, layouts),
        second == parsed(input, layouts),
    ensures
        first == second,
{
}

} // verus!
