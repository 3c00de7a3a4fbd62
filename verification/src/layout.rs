//! The layouts of vendor namespaces: where each of their fields lies.

use crate::Oui;
use vstd::prelude::*;

verus! {

/// Where a field of a vendor namespace lies: the boundary on which it starts, and its size in
/// bytes.
#[derive(Clone, Copy, Debug, PartialEq, Eq, Structural)]
pub struct FieldLayout {
    /// The boundary in bytes, counted from the start of the capture: 1, 2, 4 or 8.
    pub align: usize,
    /// The number of bytes that the field takes.
    pub size: usize,
}

/// What a namespace defines for each presence bit: entry `bit` is the layout of the field that
/// goes with that bit, or `None` where the namespace has no such field.
pub type LayoutTable = Seq<Option<FieldLayout>>;

/// Whether a boundary is one that fields are aligned to.
pub open spec fn is_boundary(align: int) -> bool {
    align == 1 || align == 2 || align == 4 || align == 8
}

/// Whether a table of layouts is one that a namespace can have: it defines nothing beyond bit
/// 28, and every field that it defines starts on a boundary of 1, 2, 4 or 8 bytes.
pub open spec fn table_wf(table: LayoutTable) -> bool {
    &&& table.len() == 29
    &&& forall|bit: int|
        0 <= bit < table.len() && (#[trigger] table[bit]) is Some ==> is_boundary(
            table[bit].unwrap().align as int,
        )
}

/// The layout that a table gives a presence bit, if it gives it one.
pub open spec fn layout_at(table: LayoutTable, bit: u8) -> Option<FieldLayout> {
    if bit < table.len() {
        table[bit as int]
    } else {
        None
    }
}

/// The descriptor of a vendor namespace: the layout of each field that the vendor defines.
///
/// The library can then find the fields of the namespace in a capture. What they mean is for
/// the caller to say, who gets their bytes.
pub struct VendorLayout {
    fields: Vec<Option<FieldLayout>>,
}

impl View for VendorLayout {
    type V = LayoutTable;

    closed spec fn view(&self) -> LayoutTable {
        self.fields@
    }
}

impl VendorLayout {
    #[verifier::type_invariant]
    pub(crate) open spec fn valid(self) -> bool {
        table_wf(self@)
    }

    /// A descriptor that defines no field.
    pub fn new() -> (layout: Self)
        ensures
            table_wf(layout@),
            forall|bit: u8| layout_at(layout@, bit) is None,
    {
        let mut fields: Vec<Option<FieldLayout>> = Vec::new();
        let mut bit: u8 = 0;
        while bit < 29
            invariant
                bit <= 29,
                fields@.len() == bit,
                forall|i: int| 0 <= i < fields@.len() ==> (#[trigger] fields@[i]) is None,
            decreases 29 - bit,
        {
            fields.push(None);
            bit = bit + 1;
        }
        VendorLayout { fields }
    }

    /// Defines the field that goes with a presence bit, in place of what the bit stood for
    /// before. The bit must be one of 0 to 28 and the boundary 1, 2, 4 or 8; if not, the
    /// descriptor comes back as it was.
    pub fn define(self, bit: u8, align: usize, size: usize) -> (layout: Self)
        ensures
            table_wf(layout@),
            bit <= 28 && is_boundary(align as int) ==> layout@ == self@.update(
                bit as int,
                Some(FieldLayout { align, size }),
            ),
            !(bit <= 28 && is_boundary(align as int)) ==> layout@ == self@,
    {
        proof {
            use_type_invariant(&self);
        }
        if bit > 28 || !(align == 1 || align == 2 || align == 4 || align == 8) {
            return self;
        }
        let mut fields = self.fields;
        fields.set(bit as usize, Some(FieldLayout { align, size }));
        VendorLayout { fields }
    }

    /// Returns the layout of the field that goes with a presence bit, if the vendor defines
    /// one.
    pub fn get(&self, bit: u8) -> (layout: Option<FieldLayout>)
        ensures
            table_wf(self@),
            layout == layout_at(self@, bit),
            layout is Some ==> is_boundary(layout.unwrap().align as int),
    {
        proof {
            use_type_invariant(self);
        }
        if (bit as usize) < self.fields.len() {
            self.fields[bit as usize]
        } else {
            None
        }
    }
}

/// The number that stands for a vendor namespace in the registry: the three bytes of the OUI
/// and the sub namespace, read as one number with the first byte of the OUI on top.
pub open spec fn key_of(oui: Oui, sub_namespace: u8) -> u32 {
    (0x100_0000 * oui[0] + 0x1_0000 * oui[1] + 0x100 * oui[2] + sub_namespace) as u32
}

/// Two vendor namespaces that differ have different keys.
pub proof fn lemma_key_tells_namespaces_apart(a: Oui, sub_a: u8, b: Oui, sub_b: u8)
    requires
        key_of(a, sub_a) == key_of(b, sub_b),
    ensures
        a == b,
        sub_a == sub_b,
{
    assert(a[0] == b[0] && a[1] == b[1] && a[2] == b[2]);
    assert(a =~= b);
}

/// The vendor namespaces that a parse knows: for each, its table of layouts, under the key of
/// the namespace.
pub type Layouts = Map<u32, LayoutTable>;

/// Whether every table of a registry is one that a namespace can have.
pub open spec fn layouts_wf(layouts: Layouts) -> bool {
    forall|key: u32| #[trigger] layouts.contains_key(key) ==> table_wf(layouts[key])
}

/// Computes the key of a vendor namespace.
pub fn vendor_key(oui: Oui, sub_namespace: u8) -> (key: u32)
    ensures
        key == key_of(oui, sub_namespace),
{
    0x100_0000 * (oui[0] as u32) + 0x1_0000 * (oui[1] as u32) + 0x100 * (oui[2] as u32)
        + sub_namespace as u32
}

} // verus!
