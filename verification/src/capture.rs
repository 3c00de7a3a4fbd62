//! The parser: the walk over the presence words of a capture, carried out.

use crate::bits::{align_within, is_bit_set};
use crate::error::ErrorKind;
use crate::field::header::HeaderView;
use crate::field::{Field, Header, VendorNamespace};
use crate::laws::{fields_in_place, lemma_fields_of_capture};
use crate::layout::{is_boundary, key_of, layout_at, layouts_wf, table_wf, vendor_key};
use crate::layout::{FieldLayout, LayoutTable, Layouts, VendorLayout};
use crate::ns::{Namespace, NamespaceKind, Radiotap};
use crate::walk::{after_bit, after_bits, after_field, after_vendor_bit, after_word};
use crate::walk::{lemma_error_stays, lemma_error_stays_in_word, lemma_records_push};
use crate::walk::{next_extent, next_field, parsed, records, walk_start, walked};
use crate::walk::{CaptureView, FieldExtent, NamespaceId, VendorData, WalkView};
use crate::Oui;
use std::collections::HashMap;
use vstd::prelude::*;
use vstd::slice::*;
use vstd::std_specs::hash::*;

verus! {

broadcast use {group_hash_axioms, group_slice_axioms};

/// The namespaces that a capture is parsed with: the default Radiotap namespace, which is built
/// in, and the vendor namespaces that the caller has registered.
pub struct CaptureNamespace {
    namespaces: HashMap<u32, VendorLayout>,
}

impl View for CaptureNamespace {
    type V = Layouts;

    closed spec fn view(&self) -> Layouts {
        Map::new(
            |key: u32| self.namespaces@.contains_key(key),
            |key: u32| self.namespaces@[key]@,
        )
    }
}

impl CaptureNamespace {
    #[verifier::type_invariant]
    spec fn valid(self) -> bool {
        forall|key: u32| #[trigger]
            self.namespaces@.contains_key(key) ==> table_wf(self.namespaces@[key]@)
    }

    /// A registry with no vendor namespace in it.
    pub fn new() -> (registry: Self)
        ensures
            registry@ == Map::<u32, LayoutTable>::empty(),
            layouts_wf(registry@),
    {
        let registry = CaptureNamespace { namespaces: HashMap::new() };
        assert(registry@ =~= Map::<u32, LayoutTable>::empty());
        registry
    }

    /// Registers a vendor namespace, in place of one that was registered for the same vendor
    /// and sub namespace before.
    pub fn register_vendor(&mut self, oui: Oui, sub_namespace: u8, layout: VendorLayout)
        ensures
            final(self)@ == old(self)@.insert(key_of(oui, sub_namespace), layout@),
            layouts_wf(final(self)@),
    {
        proof {
            use_type_invariant(&*self);
            use_type_invariant(&layout);
        }
        let key = vendor_key(oui, sub_namespace);
        // The map leaves the registry for the insertion and comes back with the layout in it.
        let mut namespaces: HashMap<u32, VendorLayout> = HashMap::new();
        std::mem::swap(&mut self.namespaces, &mut namespaces);
        namespaces.insert(key, layout);
        self.namespaces = namespaces;
        assert(self@ =~= old(self)@.insert(key, layout@));
    }

    /// Tells whether a vendor namespace is registered.
    pub fn knows(&self, oui: Oui, sub_namespace: u8) -> (known: bool)
        ensures
            known == self@.contains_key(key_of(oui, sub_namespace)),
    {
        let key = vendor_key(oui, sub_namespace);
        self.namespaces.contains_key(&key)
    }

    /// Returns the layout that a registered vendor namespace gives a presence bit. There is
    /// none if the namespace is not registered or does not define the bit.
    pub fn layout(&self, oui: Oui, sub_namespace: u8, bit: u8) -> (layout: Option<FieldLayout>)
        ensures
            layout == if self@.contains_key(key_of(oui, sub_namespace)) {
                layout_at(self@[key_of(oui, sub_namespace)], bit)
            } else {
                None
            },
            layout is Some ==> is_boundary(layout.unwrap().align as int),
    {
        let key = vendor_key(oui, sub_namespace);
        match self.namespaces.get(&key) {
            Some(vendor) => vendor.get(bit),
            None => None,
        }
    }
}

/// Reads the field that goes with a presence bit of a namespace and stores it in the namespace.
///
/// The payload of the capture `input` has been read up to `pos` and ends at `limit`. The bit
/// is resolved to its kind, the field is taken from the next boundary of its kind in the size
/// of its kind, and the namespace is updated with it. The result is the start and the end of
/// the field. Where anything fails, the namespace stays as it is.
pub fn decode_next<N: Namespace>(
    ns: &mut N,
    bit: u8,
    input: &[u8],
    pos: usize,
    limit: usize,
) -> (r: Result<(usize, usize), ErrorKind>)
    requires
        limit <= input@.len(),
    ensures
        match next_field::<N>(*old(ns), bit, input@, pos as nat, limit as nat) {
            Ok((next, start, end)) => r == Ok::<(usize, usize), ErrorKind>(
                (start as usize, end as usize),
            ) && *final(ns) == next,
            Err(e) => r == Err::<(usize, usize), ErrorKind>(e) && *final(ns) == *old(ns),
        },
{
    let kind = match N::Kind::from_bit(bit) {
        Ok(kind) => kind,
        Err(e) => {
            return Err(e);
        },
    };
    let size = kind.size();
    let start = match align_within(pos, kind.align(), limit) {
        Some(start) => start,
        None => {
            return Err(ErrorKind::IncompleteError);
        },
    };
    if size > limit - start {
        return Err(ErrorKind::IncompleteError);
    }
    let end = start + size;
    match ns.update(kind, &input[start..end]) {
        Ok(()) => Ok((start, end)),
        Err(e) => Err(e),
    }
}

/// Finds the field with the given layout in a capture whose payload has been read up to `pos`
/// and ends at `limit`, and returns its start and its end.
pub fn locate_next(layout: Option<FieldLayout>, pos: usize, limit: usize) -> (r: Result<
    (usize, usize),
    ErrorKind,
>)
    requires
        layout is Some ==> is_boundary(layout.unwrap().align as int),
    ensures
        match next_extent(layout, pos as nat, limit as nat) {
            Ok((start, end)) => r == Ok::<(usize, usize), ErrorKind>(
                (start as usize, end as usize),
            ),
            Err(e) => r == Err::<(usize, usize), ErrorKind>(e),
        },
{
    let layout = match layout {
        Some(layout) => layout,
        None => {
            return Err(ErrorKind::UnsupportedField);
        },
    };
    let start = match align_within(pos, layout.align, limit) {
        Some(start) => start,
        None => {
            return Err(ErrorKind::IncompleteError);
        },
    };
    if layout.size > limit - start {
        return Err(ErrorKind::IncompleteError);
    }
    Ok((start, start + layout.size))
}

/// The state of a walk over a capture.
struct Walk {
    word: usize,
    pos: usize,
    active: Option<NamespaceId>,
    radiotap: Radiotap,
    fields: Vec<FieldExtent>,
    vendors: Vec<VendorData>,
}

impl View for Walk {
    type V = WalkView;

    closed spec fn view(&self) -> WalkView {
        WalkView {
            word: self.word as nat,
            pos: self.pos as nat,
            active: self.active,
            radiotap: self.radiotap,
            fields: self.fields@,
            vendors: records(self.vendors@),
        }
    }
}

/// A parsed capture: the header, the fields of the default namespace, and what the vendor
/// namespaces hold.
#[derive(Clone, Debug, PartialEq, Eq)]
pub struct Capture {
    /// The header.
    pub header: Header,
    /// The fields of the default namespace. Where a field occurs more than once, this is its
    /// last occurrence.
    pub radiotap: Radiotap,
    /// Where each decoded field lies in the capture, in the order of the capture.
    pub fields: Vec<FieldExtent>,
    /// The bytes of the vendor namespaces, in the order of the capture: field by field for a
    /// registered namespace, and in one piece for any other.
    pub vendors: Vec<VendorData>,
}

impl View for Capture {
    type V = CaptureView;

    open spec fn view(&self) -> CaptureView {
        CaptureView {
            header: self.header@,
            radiotap: self.radiotap,
            fields: self.fields@,
            vendors: records(self.vendors@),
        }
    }
}

impl CaptureNamespace {
    /// Takes the walk over a set field bit.
    fn take_field(&self, walk: &mut Walk, input: &[u8], limit: usize, bit: u8) -> (r: Result<
        (),
        ErrorKind,
    >)
        requires
            limit <= input@.len(),
        ensures
            match after_field(input@, limit as nat, self@, old(walk)@, bit) {
                Ok(next) => r is Ok && final(walk)@ == next,
                Err(e) => r == Err::<(), ErrorKind>(e),
            },
    {
        match walk.active {
            None => Ok(()),
            Some(NamespaceId::Default) => {
                let mut radiotap = walk.radiotap;
                let (start, end) = decode_next(&mut radiotap, bit, input, walk.pos, limit)?;
                walk.radiotap = radiotap;
                walk.pos = end;
                walk.fields.push(
                    FieldExtent {
                        namespace: NamespaceId::Default,
                        word: walk.word,
                        bit,
                        start,
                        end,
                    },
                );
                Ok(())
            },
            Some(NamespaceId::Vendor { oui, sub_namespace }) => {
                let layout = self.layout(oui, sub_namespace, bit);
                let (start, end) = locate_next(layout, walk.pos, limit)?;
                let data = slice_to_vec(&input[start..end]);
                let record = VendorData { oui, sub_namespace, bit: Some(bit), data };
                proof {
                    lemma_records_push(walk.vendors@, record);
                }
                walk.pos = end;
                walk.fields.push(
                    FieldExtent {
                        namespace: NamespaceId::Vendor { oui, sub_namespace },
                        word: walk.word,
                        bit,
                        start,
                        end,
                    },
                );
                walk.vendors.push(record);
                Ok(())
            },
        }
    }

    /// Takes the walk over a set bit 30.
    fn open_vendor(&self, walk: &mut Walk, input: &[u8], limit: usize) -> (r: Result<
        (),
        ErrorKind,
    >)
        requires
            limit <= input@.len(),
        ensures
            match after_vendor_bit(input@, limit as nat, self@, old(walk)@) {
                Ok(next) => r is Ok && final(walk)@ == next,
                Err(e) => r == Err::<(), ErrorKind>(e),
            },
    {
        // The vendor namespace field is always 2 bytes aligned and 6 bytes long
        let start = match align_within(walk.pos, 2, limit) {
            Some(start) => start,
            None => {
                return Err(ErrorKind::IncompleteError);
            },
        };
        if limit - start < 6 {
            return Err(ErrorKind::IncompleteError);
        }
        let end = start + 6;
        let vendor = VendorNamespace::from_bytes(&input[start..end])?;
        if self.knows(vendor.oui, vendor.sub_namespace) {
            walk.pos = end;
            walk.active = Some(
                NamespaceId::Vendor { oui: vendor.oui, sub_namespace: vendor.sub_namespace },
            );
            return Ok(());
        }
        let skip = vendor.skip_length as usize;
        if skip > limit - end {
            return Err(ErrorKind::IncompleteError);
        }
        let data = slice_to_vec(&input[end..end + skip]);
        let record = VendorData {
            oui: vendor.oui,
            sub_namespace: vendor.sub_namespace,
            bit: None,
            data,
        };
        proof {
            lemma_records_push(walk.vendors@, record);
        }
        walk.pos = end + skip;
        walk.active = None;
        walk.vendors.push(record);
        Ok(())
    }

    /// Takes the walk over one bit of a present word.
    fn take_bit(&self, walk: &mut Walk, input: &[u8], limit: usize, word: u32, bit: u8) -> (r:
        Result<(), ErrorKind>)
        requires
            limit <= input@.len(),
        ensures
            match after_bit(input@, limit as nat, self@, old(walk)@, word, bit) {
                Ok(next) => r is Ok && final(walk)@ == next,
                Err(e) => r == Err::<(), ErrorKind>(e),
            },
    {
        reveal(after_bit);
        if !is_bit_set(word, bit) || bit >= 31 {
            Ok(())
        } else if bit == 29 {
            // If this bit is set we must move to the default namespace.
            walk.active = Some(NamespaceId::Default);
            Ok(())
        } else if bit == 30 {
            // If this bit is set we must move to a vendor namespace.
            self.open_vendor(walk, input, limit)
        } else {
            self.take_field(walk, input, limit, bit)
        }
    }

    /// Takes the walk over the present word with the given number.
    fn take_word(
        &self,
        walk: &mut Walk,
        input: &[u8],
        limit: usize,
        word: u32,
        number: usize,
    ) -> (r: Result<(), ErrorKind>)
        requires
            limit <= input@.len(),
        ensures
            match after_word(input@, limit as nat, self@, old(walk)@, word, number as nat) {
                Ok(next) => r is Ok && final(walk)@ == next,
                Err(e) => r == Err::<(), ErrorKind>(e),
            },
    {
        walk.word = number;
        let ghost start = walk@;
        let mut bit: u8 = 0;
        while bit < 31
            invariant
                bit <= 31,
                start == (WalkView { word: number as nat, ..old(walk)@ }),
                limit <= input@.len(),
                after_bits(input@, limit as nat, self@, start, word, bit as nat) == Ok::<
                    WalkView,
                    ErrorKind,
                >(walk@),
            decreases 31 - bit,
        {
            let ghost before = walk@;
            match self.take_bit(walk, input, limit, word, bit) {
                Ok(()) => {},
                Err(e) => {
                    proof {
                        assert(after_bits(
                            input@,
                            limit as nat,
                            self@,
                            start,
                            word,
                            (bit + 1) as nat,
                        ) == after_bit(input@, limit as nat, self@, before, word, bit));
                        lemma_error_stays_in_word(
                            input@,
                            limit as nat,
                            self@,
                            start,
                            word,
                            (bit + 1) as nat,
                            31,
                        );
                    }
                    return Err(e);
                },
            }
            bit = bit + 1;
        }
        Ok(())
    }

    /// Parses a capture, and returns what it holds and the bytes that follow it in `input`.
    ///
    /// The fields of every vendor namespace that is registered here are found by their
    /// layouts; the data of any other vendor namespace is kept in one piece.
    pub fn parse<'a>(&self, input: &'a [u8]) -> (r: Result<(Capture, &'a [u8]), ErrorKind>)
        ensures
            layouts_wf(self@),
            r is Ok ==> fields_in_place(r->Ok_0.0@, self@),
            match parsed(input@, self@) {
                Ok(capture) => r is Ok && r->Ok_0.0@ == capture && r->Ok_0.1@ == input@.subrange(
                    capture.header.length as int,
                    input@.len() as int,
                ),
                Err(e) => r is Err && r->Err_0 == e,
            },
    {
        proof {
            use_type_invariant(self);
        }
        let header = match Header::from_bytes(input) {
            Ok(header) => header,
            Err(e) => {
                return Err(e);
            },
        };
        let limit = header.length;
        let mut walk = Walk {
            word: 0,
            pos: header.size,
            active: Some(NamespaceId::Default),
            radiotap: Radiotap::new(),
            fields: Vec::new(),
            vendors: Vec::new(),
        };
        let ghost start = walk_start(header@.size);
        assert(walk@.vendors =~= start.vendors);
        let mut i: usize = 0;
        while i < header.present.len()
            invariant
                i <= header.present@.len(),
                layouts_wf(self@),
                Header::decodes(input@) == Ok::<HeaderView, ErrorKind>(header@),
                start == walk_start(header@.size),
                limit == header@.length,
                limit <= input@.len(),
                walked(input@, limit as nat, self@, header@.present, start, i as nat) == Ok::<
                    WalkView,
                    ErrorKind,
                >(walk@),
            decreases header.present@.len() - i,
        {
            let word = header.present[i];
            let ghost before = walk@;
            match self.take_word(&mut walk, input, limit, word, i) {
                Ok(()) => {},
                Err(e) => {
                    proof {
                        assert(walked(
                            input@,
                            limit as nat,
                            self@,
                            header@.present,
                            start,
                            (i + 1) as nat,
                        ) == after_word(input@, limit as nat, self@, before, word, i as nat));
                        lemma_error_stays(
                            input@,
                            limit as nat,
                            self@,
                            header@.present,
                            start,
                            (i + 1) as nat,
                            header@.present.len(),
                        );
                    }
                    return Err(e);
                },
            }
            i = i + 1;
        }
        let rest = &input[limit..input.len()];
        proof {
            lemma_fields_of_capture(input@, self@);
        }
        let Walk { radiotap, fields, vendors, .. } = walk;
        Ok((Capture { header, radiotap, fields, vendors }, rest))
    }
}

impl Radiotap {
    /// Returns the parsed Radiotap namespace from an input byte array. The data of every
    /// vendor namespace in the capture is passed over.
    pub fn from_bytes(input: &[u8]) -> (r: Result<Radiotap, ErrorKind>)
        ensures
            r == match parsed(input@, Map::<u32, LayoutTable>::empty()) {
                Ok(capture) => Ok::<Radiotap, ErrorKind>(capture.radiotap),
                Err(e) => Err(e),
            },
    {
        match CaptureNamespace::new().parse(input) {
            Ok((capture, _)) => Ok(capture.radiotap),
            Err(e) => Err(e),
        }
    }

    /// Returns the parsed Radiotap namespace and the remaining data from an input byte array.
    pub fn parse<'a>(input: &'a [u8]) -> (r: Result<(Radiotap, &'a [u8]), ErrorKind>)
        ensures
            match parsed(input@, Map::<u32, LayoutTable>::empty()) {
                Ok(capture) => r is Ok && r->Ok_0.0 == capture.radiotap && r->Ok_0.1@
                    == input@.subrange(capture.header.length as int, input@.len() as int),
                Err(e) => r is Err && r->Err_0 == e,
            },
    {
        match CaptureNamespace::new().parse(input) {
            Ok((capture, rest)) => Ok((capture.radiotap, rest)),
            Err(e) => Err(e),
        }
    }
}

/// Parses a capture that holds no vendor namespace that the caller knows, and returns what it
/// holds and the bytes that follow it in `input`.
pub fn parse<'a>(input: &'a [u8]) -> (r: Result<(Capture, &'a [u8]), ErrorKind>)
    ensures
        r is Ok ==> fields_in_place(r->Ok_0.0@, Map::<u32, LayoutTable>::empty()),
        match parsed(input@, Map::<u32, LayoutTable>::empty()) {
            Ok(capture) => r is Ok && r->Ok_0.0@ == capture && r->Ok_0.1@ == input@.subrange(
                capture.header.length as int,
                input@.len() as int,
            ),
            Err(e) => r is Err && r->Err_0 == e,
        },
{
    CaptureNamespace::new().parse(input)
}

/// Parses the header of a capture, and returns it and the bytes that follow it in `input`: the
/// payload of the capture and whatever comes after the capture.
pub fn parse_header<'a>(input: &'a [u8]) -> (r: Result<(Header, &'a [u8]), ErrorKind>)
    ensures
        match Header::decodes(input@) {
            Ok(header) => r is Ok && r->Ok_0.0@ == header && r->Ok_0.0.wf() && r->Ok_0.1@
                == input@.subrange(header.size as int, input@.len() as int),
            Err(e) => r is Err && r->Err_0 == e,
        },
{
    match Header::from_bytes(input) {
        Ok(header) => {
            let rest = &input[header.size..input.len()];
            Ok((header, rest))
        },
        Err(e) => Err(e),
    }
}

} // verus!
