//! The Radiotap header and the descriptor that opens a vendor namespace.

use crate::bits::{bit_is_set, bit_set, le_u16, le_u32, read_u16, read_u8};
use crate::cursor::Cursor;
use crate::error::ErrorKind;
use crate::field::Field;
use crate::Oui;
use vstd::prelude::*;
use vstd::slice::*;

verus! {

broadcast use group_slice_axioms;

/// The Radiotap header, contained in all Radiotap captures.
#[derive(Clone, Debug, PartialEq, Eq)]
pub struct Header {
    /// The Radiotap version, only version 0 is supported.
    pub version: u8,
    /// The length of the entire Radiotap capture.
    pub length: usize,
    /// The size of the Radiotap header.
    pub size: usize,
    /// The present words.
    pub present: Vec<u32>,
}

/// What a header says, with its present words as a sequence.
pub struct HeaderView {
    /// The Radiotap version.
    pub version: u8,
    /// The length of the entire Radiotap capture.
    pub length: nat,
    /// The size of the Radiotap header.
    pub size: nat,
    /// The present words, in the order of the capture.
    pub present: Seq<u32>,
}

impl View for Header {
    type V = HeaderView;

    open spec fn view(&self) -> HeaderView {
        HeaderView {
            version: self.version,
            length: self.length as nat,
            size: self.size as nat,
            present: self.present@,
        }
    }
}

/// The present word number `i` of a capture. The words follow the four fixed bytes of the
/// header, four bytes each, least significant byte first.
pub open spec fn present_word(input: Seq<u8>, i: int) -> u32 {
    le_u32(input, 4 + 4 * i)
}

/// Whether the present words of a capture are exactly `n`: the capture holds that many, each
/// but the last has bit 31 set to announce another, and the last has it clear.
pub open spec fn chain_ends_at(input: Seq<u8>, n: nat) -> bool {
    &&& n >= 1
    &&& 4 + 4 * n <= input.len()
    &&& forall|i: int| 0 <= i < n - 1 ==> bit_is_set(#[trigger] present_word(input, i), 31)
    &&& !bit_is_set(present_word(input, n - 1), 31)
}

/// Whether the capture ends before its chain of present words does: every word that it holds
/// whole announces another.
pub open spec fn chain_is_cut(input: Seq<u8>) -> bool {
    forall|i: int|
        0 <= i && 4 + 4 * i + 4 <= input.len() ==> bit_is_set(#[trigger] present_word(input, i), 31)
}

/// The number of present words of a capture whose chain of them ends.
pub open spec fn present_len(input: Seq<u8>) -> nat {
    choose|n: nat| chain_ends_at(input, n)
}

/// A chain of present words ends at one place only.
pub proof fn lemma_chain_end_is_unique(input: Seq<u8>, a: nat, b: nat)
    requires
        chain_ends_at(input, a),
        chain_ends_at(input, b),
    ensures
        a == b,
{
    if a < b {
        assert(bit_is_set(present_word(input, a - 1), 31));
    }
    if b < a {
        assert(bit_is_set(present_word(input, b - 1), 31));
    }
}

/// A capture that holds a present word with bit 31 clear has a chain of present words that ends
/// with that word or before it.
pub proof fn lemma_chain_ends_by(input: Seq<u8>, i: nat)
    requires
        4 + 4 * i + 4 <= input.len(),
        !bit_is_set(present_word(input, i as int), 31),
    ensures
        exists|n: nat| n <= i + 1 && chain_ends_at(input, n),
    decreases i,
{
    if forall|j: int| 0 <= j < i ==> bit_is_set(#[trigger] present_word(input, j), 31) {
        assert(chain_ends_at(input, i + 1));
    } else {
        let j = choose|j: int| 0 <= j < i && !bit_is_set(#[trigger] present_word(input, j), 31);
        lemma_chain_ends_by(input, j as nat);
    }
}

/// The chain of present words of a capture either ends, and then after `present_len` words, or
/// it is cut.
pub proof fn lemma_chain_ends_or_is_cut(input: Seq<u8>)
    ensures
        chain_is_cut(input) || chain_ends_at(input, present_len(input)),
{
    if !chain_is_cut(input) {
        let i = choose|i: int|
            0 <= i && 4 + 4 * i + 4 <= input.len() && !bit_is_set(
                #[trigger] present_word(input, i),
                31,
            );
        lemma_chain_ends_by(input, i as nat);
    }
}

impl Header {
    /// What a capture says of its header, or the reason why it has no valid one.
    ///
    /// The header starts with the version, which must be zero, a pad byte, and the length of
    /// the whole Radiotap capture in two bytes, least significant first. The capture must be at
    /// least that long. Then come the present words, and the header ends with the first of
    /// them that has bit 31 clear; its size counts the four fixed bytes and the words.
    pub open spec fn decodes(input: Seq<u8>) -> Result<HeaderView, ErrorKind> {
        if input.len() < 1 {
            Err(ErrorKind::IoError)
        } else if input[0] != 0 {
            Err(ErrorKind::UnsupportedVersion)
        } else if input.len() < 4 {
            Err(ErrorKind::IoError)
        } else if input.len() < le_u16(input, 2) {
            Err(ErrorKind::InvalidLength)
        } else if chain_is_cut(input) {
            Err(ErrorKind::IoError)
        } else {
            Ok(
                HeaderView {
                    version: 0,
                    length: le_u16(input, 2) as nat,
                    size: 4 + 4 * present_len(input),
                    present: Seq::new(present_len(input), |i: int| present_word(input, i)),
                },
            )
        }
    }

    /// Whether a header is one that `from_bytes` can have returned for some capture: the
    /// version is zero, there is a present word, the last one ends the chain and no earlier
    /// one does, and the size counts the four fixed bytes and the words.
    pub open spec fn wf(self) -> bool {
        &&& self.version == 0
        &&& self.length <= 0xffff
        &&& self.present@.len() >= 1
        &&& self.size == 4 + 4 * self.present@.len()
        &&& forall|i: int|
            0 <= i < self.present@.len() - 1 ==> bit_is_set(#[trigger] self.present@[i], 31)
        &&& !bit_is_set(self.present@[self.present@.len() - 1], 31)
    }

    /// Parses the header from the front of a capture.
    pub fn from_bytes(input: &[u8]) -> (r: Result<Header, ErrorKind>)
        ensures
            Self::decodes(input@) == match r {
                Ok(header) => Ok::<HeaderView, ErrorKind>(header@),
                Err(e) => Err(e),
            },
            r is Ok ==> r->Ok_0.wf(),
            r is Ok ==> r->Ok_0.size <= input@.len() && r->Ok_0.length <= input@.len(),
    {
        let mut cursor = Cursor::new(input);

        let version = cursor.read_u8()?;

        // We only support version 0
        if version != 0 {
            return Err(ErrorKind::UnsupportedVersion);
        }
        // Account for 1 byte padding field

        cursor.read_u8()?;

        let length = cursor.read_u16()?;

        // The input is not as long as the length specified in the header!
        if input.len() < length as usize {
            return Err(ErrorKind::InvalidLength);
        }
        let mut present: Vec<u32> = Vec::new();
        loop
            invariant_except_break
                forall|i: int|
                    0 <= i < present@.len() ==> bit_is_set(#[trigger] present_word(input@, i), 31),
            invariant
                input@.len() >= 4,
                input@[0] == 0,
                input@.len() >= le_u16(input@, 2),
                cursor.bytes() == input@,
                cursor.offset() == 4 + 4 * present@.len(),
                cursor.offset() <= input@.len(),
                forall|i: int| 0 <= i < present@.len() ==> present@[i] == present_word(input@, i),
            ensures
                cursor.offset() == 4 + 4 * present@.len(),
                cursor.offset() <= input@.len(),
                chain_ends_at(input@, present@.len()),
                forall|i: int| 0 <= i < present@.len() ==> present@[i] == present_word(input@, i),
            decreases input@.len() - cursor.offset(),
        {
            let ghost n = present@.len() as int;
            let word = match cursor.read_u32() {
                Ok(word) => word,
                Err(e) => {
                    proof {
                        assert forall|i: int|
                            0 <= i && 4 + 4 * i + 4 <= input@.len() implies bit_is_set(
                            #[trigger] present_word(input@, i),
                            31,
                        ) by {
                            assert(i < n);
                        }
                    }
                    return Err(e);
                },
            };
            assert(word == present_word(input@, n));
            present.push(word);

            // More present words do not exist
            if !bit_set(word, 31) {
                proof {
                    assert(4 + 4 * n + 4 <= input@.len());
                    assert(!chain_is_cut(input@));
                }
                break ;
            }
        }

        let size = cursor.position();
        proof {
            lemma_chain_end_is_unique(input@, present@.len(), present_len(input@));
            assert(present@ =~= Seq::new(present_len(input@), |i: int| present_word(input@, i)));
        }
        Ok(Header { version, length: length as usize, size, present })
    }
}

/// The descriptor that opens a vendor namespace in the payload of a capture.
#[derive(Clone, Copy, Debug, PartialEq, Eq)]
pub struct VendorNamespace {
    /// The vendor that defines the namespace.
    pub oui: Oui,
    /// The number that the vendor gives the namespace.
    pub sub_namespace: u8,
    /// The number of bytes of vendor data that follow the descriptor.
    pub skip_length: u16,
}

impl Field for VendorNamespace {
    /// The descriptor is six bytes: the three bytes of the OUI, the sub namespace, and the skip
    /// length in two bytes, least significant first.
    open spec fn decodes(input: Seq<u8>) -> Result<Self, ErrorKind> {
        if input.len() < 6 {
            Err(ErrorKind::InvalidFormat)
        } else {
            Ok(
                VendorNamespace {
                    oui: [input[0], input[1], input[2]],
                    sub_namespace: input[3],
                    skip_length: le_u16(input, 4),
                },
            )
        }
    }

    fn from_bytes(input: &[u8]) -> (r: Result<Self, ErrorKind>) {
        if input.len() < 6 {
            return Err(ErrorKind::InvalidFormat);
        }
        let oui: Oui = [read_u8(input, 0), read_u8(input, 1), read_u8(input, 2)];
        let sub_namespace = read_u8(input, 3);
        let skip_length = read_u16(input, 4);
        Ok(VendorNamespace { oui, sub_namespace, skip_length })
    }
}

} // verus!
