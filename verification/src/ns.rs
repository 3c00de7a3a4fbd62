//! Defines namespaces in the Radiotap capture format.
//!
//! A namespace gives each presence bit that it defines a kind of field, and each kind an
//! alignment and a size. The default namespace is `Radiotap`, with `RadiotapKind` for its
//! kinds; a vendor namespace is either registered by its layout alone, or written as another
//! implementation of the two traits.

use crate::error::ErrorKind;
use crate::field::decodes_or_invalid;
use crate::field::from_bytes;
use crate::field::{
    AmpduStatus, Antenna, AntennaNoise, AntennaNoiseDb, AntennaSignal, AntennaSignalDb, Channel,
    DataRetries, Fhss, Flags, LockQuality, Mcs, Rate, RtsRetries, RxFlags, Timestamp, Tsft,
    TxAttenuation, TxAttenuationDb, TxFlags, TxPower, Vht, XChannel,
};
use crate::Oui;
use vstd::prelude::*;

verus! {

/// A namespace in the Radiotap capture format.
///
/// The default namespace `Radiotap` implements this trait. To implement a vendor namespace
/// you can use this trait.
pub trait Namespace: Sized {
    /// This defines the kinds of fields in a namespace, it is typically implemented as an enum.
    type Kind: NamespaceKind;

    /// The vendor of the namespace, or `None` for the default namespace.
    spec fn vendor() -> Option<Oui>;

    /// What the namespace holds once the field of the given kind has been decoded from `data`
    /// and stored, or the reason why `data` is no such field.
    spec fn updated(self, kind: Self::Kind, data: Seq<u8>) -> Result<Self, ErrorKind>;

    /// Returns the vendor OUI for this namespace. This needs to be unique. The default Radiotap
    /// namespace returns None here.
    fn oui() -> (oui: Option<Oui>)
        ensures
            oui == Self::vendor(),
    ;

    /// Update this object with the field for the given field kind and relevant data. Where the
    /// data is no valid field, the object stays as it is.
    fn update(&mut self, kind: Self::Kind, data: &[u8]) -> (r: Result<(), ErrorKind>)
        ensures
            match old(self).updated(kind, data@) {
                Ok(next) => r is Ok && *final(self) == next,
                Err(e) => r == Err::<(), ErrorKind>(e) && *final(self) == *old(self),
            },
    ;
}

/// The kind of field contained in the namespace.
///
/// This defines the kinds of fields in a namespace. This trait is typically implemented as an
/// enum. Each field kind needs to define an field align size and field size.
pub trait NamespaceKind: Sized {
    /// The kind that a presence bit stands for, if the namespace defines one for it.
    spec fn of_bit(bit: u8) -> Option<Self>;

    /// The boundary in bytes, counted from the start of the capture, on which a field of this
    /// kind starts.
    spec fn alignment(&self) -> nat;

    /// The number of bytes that a field of this kind takes.
    spec fn length(&self) -> nat;

    /// Constructor to create the kind from the bit number.
    fn from_bit(value: u8) -> (r: Result<Self, ErrorKind>)
        ensures
            r == match Self::of_bit(value) {
                Some(kind) => Ok::<Self, ErrorKind>(kind),
                None => Err(ErrorKind::UnsupportedField),
            },
    ;

    /// Returns the align value for this kind of field: 1, 2, 4 or 8.
    fn align(&self) -> (n: usize)
        ensures
            n == self.alignment(),
            n == 1 || n == 2 || n == 4 || n == 8,
    ;

    /// Returns the size value for this kind of field.
    fn size(&self) -> (n: usize)
        ensures
            n == self.length(),
    ;
}

/// The Radiotap namespace and all fields it can contain, that we know how to implement.
#[derive(Clone, Copy, Debug, PartialEq, Eq, Structural)]
pub enum RadiotapKind {
    Tsft,
    Flags,
    Rate,
    Channel,
    Fhss,
    AntennaSignal,
    AntennaNoise,
    LockQuality,
    TxAttenuation,
    TxAttenuationDb,
    TxPower,
    Antenna,
    AntennaSignalDb,
    AntennaNoiseDb,
    RxFlags,
    TxFlags,
    RtsRetries,
    DataRetries,
    XChannel,
    Mcs,
    AmpduStatus,
    Vht,
    Timestamp,
}

impl NamespaceKind for RadiotapKind {
    /// The default namespace defines the bits 0 to 22.
    open spec fn of_bit(bit: u8) -> Option<Self> {
        if bit == 0 {
            Some(RadiotapKind::Tsft)
        } else if bit == 1 {
            Some(RadiotapKind::Flags)
        } else if bit == 2 {
            Some(RadiotapKind::Rate)
        } else if bit == 3 {
            Some(RadiotapKind::Channel)
        } else if bit == 4 {
            Some(RadiotapKind::Fhss)
        } else if bit == 5 {
            Some(RadiotapKind::AntennaSignal)
        } else if bit == 6 {
            Some(RadiotapKind::AntennaNoise)
        } else if bit == 7 {
            Some(RadiotapKind::LockQuality)
        } else if bit == 8 {
            Some(RadiotapKind::TxAttenuation)
        } else if bit == 9 {
            Some(RadiotapKind::TxAttenuationDb)
        } else if bit == 10 {
            Some(RadiotapKind::TxPower)
        } else if bit == 11 {
            Some(RadiotapKind::Antenna)
        } else if bit == 12 {
            Some(RadiotapKind::AntennaSignalDb)
        } else if bit == 13 {
            Some(RadiotapKind::AntennaNoiseDb)
        } else if bit == 14 {
            Some(RadiotapKind::RxFlags)
        } else if bit == 15 {
            Some(RadiotapKind::TxFlags)
        } else if bit == 16 {
            Some(RadiotapKind::RtsRetries)
        } else if bit == 17 {
            Some(RadiotapKind::DataRetries)
        } else if bit == 18 {
            Some(RadiotapKind::XChannel)
        } else if bit == 19 {
            Some(RadiotapKind::Mcs)
        } else if bit == 20 {
            Some(RadiotapKind::AmpduStatus)
        } else if bit == 21 {
            Some(RadiotapKind::Vht)
        } else if bit == 22 {
            Some(RadiotapKind::Timestamp)
        } else {
            None
        }
    }

    open spec fn alignment(&self) -> nat {
        match *self {
            RadiotapKind::Tsft
            | RadiotapKind::Timestamp => 8,
            RadiotapKind::XChannel
            | RadiotapKind::AmpduStatus => 4,
            RadiotapKind::Channel
            | RadiotapKind::Fhss
            | RadiotapKind::LockQuality
            | RadiotapKind::TxAttenuation
            | RadiotapKind::TxAttenuationDb
            | RadiotapKind::RxFlags
            | RadiotapKind::TxFlags
            | RadiotapKind::Vht => 2,
            _ => 1,
        }
    }

    open spec fn length(&self) -> nat {
        match *self {
            RadiotapKind::Vht
            | RadiotapKind::Timestamp => 12,
            RadiotapKind::Tsft
            | RadiotapKind::XChannel
            | RadiotapKind::AmpduStatus => 8,
            RadiotapKind::Channel => 4,
            RadiotapKind::Mcs => 3,
            RadiotapKind::Fhss
            | RadiotapKind::LockQuality
            | RadiotapKind::TxAttenuation
            | RadiotapKind::TxAttenuationDb
            | RadiotapKind::RxFlags
            | RadiotapKind::TxFlags => 2,
            _ => 1,
        }
    }

    fn from_bit(value: u8) -> (r: Result<Self, ErrorKind>) {
        Ok(
            match value {
                0 => RadiotapKind::Tsft,
                1 => RadiotapKind::Flags,
                2 => RadiotapKind::Rate,
                3 => RadiotapKind::Channel,
                4 => RadiotapKind::Fhss,
                5 => RadiotapKind::AntennaSignal,
                6 => RadiotapKind::AntennaNoise,
                7 => RadiotapKind::LockQuality,
                8 => RadiotapKind::TxAttenuation,
                9 => RadiotapKind::TxAttenuationDb,
                10 => RadiotapKind::TxPower,
                11 => RadiotapKind::Antenna,
                12 => RadiotapKind::AntennaSignalDb,
                13 => RadiotapKind::AntennaNoiseDb,
                14 => RadiotapKind::RxFlags,
                15 => RadiotapKind::TxFlags,
                16 => RadiotapKind::RtsRetries,
                17 => RadiotapKind::DataRetries,
                18 => RadiotapKind::XChannel,
                19 => RadiotapKind::Mcs,
                20 => RadiotapKind::AmpduStatus,
                21 => RadiotapKind::Vht,
                22 => RadiotapKind::Timestamp,
                _ => {
                    return Err(ErrorKind::UnsupportedField);
                },
            },
        )
    }

    fn align(&self) -> (n: usize) {
        match *self {
            RadiotapKind::Tsft
            | RadiotapKind::Timestamp => 8,
            RadiotapKind::XChannel
            | RadiotapKind::AmpduStatus => 4,
            RadiotapKind::Channel
            | RadiotapKind::Fhss
            | RadiotapKind::LockQuality
            | RadiotapKind::TxAttenuation
            | RadiotapKind::TxAttenuationDb
            | RadiotapKind::RxFlags
            | RadiotapKind::TxFlags
            | RadiotapKind::Vht => 2,
            _ => 1,
        }
    }

    fn size(&self) -> (n: usize)
        ensures
            n > 0,
    {
        match *self {
            RadiotapKind::Vht
            | RadiotapKind::Timestamp => 12,
            RadiotapKind::Tsft
            | RadiotapKind::XChannel
            | RadiotapKind::AmpduStatus => 8,
            RadiotapKind::Channel => 4,
            RadiotapKind::Mcs => 3,
            RadiotapKind::Fhss
            | RadiotapKind::LockQuality
            | RadiotapKind::TxAttenuation
            | RadiotapKind::TxAttenuationDb
            | RadiotapKind::RxFlags
            | RadiotapKind::TxFlags => 2,
            _ => 1,
        }
    }
}

/// Every kind of the default namespace starts on a boundary of 1, 2, 4 or 8 bytes and takes at
/// least one byte.
pub proof fn lemma_default_layout(kind: RadiotapKind)
    ensures
        kind.alignment() == 1 || kind.alignment() == 2 || kind.alignment() == 4
            || kind.alignment() == 8,
        0 < kind.length() <= 12,
{
}

/// A field that is shorter than its kind says is invalid.
pub proof fn lemma_short_field_is_invalid(kind: RadiotapKind, data: Seq<u8>)
    requires
        data.len() < kind.length(),
    ensures
        kind.decodes(data) == Err::<FieldValue, ErrorKind>(ErrorKind::InvalidFormat),
{
}

/// A decoder reads the bytes of its field and no others: two byte strings that agree in as
/// many bytes as the kind says decode to the same.
pub proof fn lemma_decoder_reads_its_size(kind: RadiotapKind, a: Seq<u8>, b: Seq<u8>)
    requires
        a.len() >= kind.length(),
        b.len() >= kind.length(),
        a.subrange(0, kind.length() as int) == b.subrange(0, kind.length() as int),
    ensures
        kind.decodes(a) == kind.decodes(b),
{
    let n = kind.length() as int;
    assert forall|i: int| 0 <= i < n implies a[i] == b[i] by {
        assert(a.subrange(0, n)[i] == a[i]);
        assert(b.subrange(0, n)[i] == b[i]);
    }
}

/// A decoded field of the default namespace.
#[derive(Clone, Copy, Debug, PartialEq, Eq)]
pub enum FieldValue {
    Tsft(Tsft),
    Flags(Flags),
    Rate(Rate),
    Channel(Channel),
    Fhss(Fhss),
    AntennaSignal(AntennaSignal),
    AntennaNoise(AntennaNoise),
    LockQuality(LockQuality),
    TxAttenuation(TxAttenuation),
    TxAttenuationDb(TxAttenuationDb),
    TxPower(TxPower),
    Antenna(Antenna),
    AntennaSignalDb(AntennaSignalDb),
    AntennaNoiseDb(AntennaNoiseDb),
    RxFlags(RxFlags),
    TxFlags(TxFlags),
    RtsRetries(RtsRetries),
    DataRetries(DataRetries),
    XChannel(XChannel),
    Mcs(Mcs),
    AmpduStatus(AmpduStatus),
    Vht(Vht),
    Timestamp(Timestamp),
}

impl FieldValue {
    /// The kind of the field.
    pub open spec fn kind_of(self) -> RadiotapKind {
        match self {
            FieldValue::Tsft(_) => RadiotapKind::Tsft,
            FieldValue::Flags(_) => RadiotapKind::Flags,
            FieldValue::Rate(_) => RadiotapKind::Rate,
            FieldValue::Channel(_) => RadiotapKind::Channel,
            FieldValue::Fhss(_) => RadiotapKind::Fhss,
            FieldValue::AntennaSignal(_) => RadiotapKind::AntennaSignal,
            FieldValue::AntennaNoise(_) => RadiotapKind::AntennaNoise,
            FieldValue::LockQuality(_) => RadiotapKind::LockQuality,
            FieldValue::TxAttenuation(_) => RadiotapKind::TxAttenuation,
            FieldValue::TxAttenuationDb(_) => RadiotapKind::TxAttenuationDb,
            FieldValue::TxPower(_) => RadiotapKind::TxPower,
            FieldValue::Antenna(_) => RadiotapKind::Antenna,
            FieldValue::AntennaSignalDb(_) => RadiotapKind::AntennaSignalDb,
            FieldValue::AntennaNoiseDb(_) => RadiotapKind::AntennaNoiseDb,
            FieldValue::RxFlags(_) => RadiotapKind::RxFlags,
            FieldValue::TxFlags(_) => RadiotapKind::TxFlags,
            FieldValue::RtsRetries(_) => RadiotapKind::RtsRetries,
            FieldValue::DataRetries(_) => RadiotapKind::DataRetries,
            FieldValue::XChannel(_) => RadiotapKind::XChannel,
            FieldValue::Mcs(_) => RadiotapKind::Mcs,
            FieldValue::AmpduStatus(_) => RadiotapKind::AmpduStatus,
            FieldValue::Vht(_) => RadiotapKind::Vht,
            FieldValue::Timestamp(_) => RadiotapKind::Timestamp,
        }
    }

    /// Returns the kind of the field.
    pub fn kind(&self) -> (kind: RadiotapKind)
        ensures
            kind == self.kind_of(),
    {
        match self {
            FieldValue::Tsft(_) => RadiotapKind::Tsft,
            FieldValue::Flags(_) => RadiotapKind::Flags,
            FieldValue::Rate(_) => RadiotapKind::Rate,
            FieldValue::Channel(_) => RadiotapKind::Channel,
            FieldValue::Fhss(_) => RadiotapKind::Fhss,
            FieldValue::AntennaSignal(_) => RadiotapKind::AntennaSignal,
            FieldValue::AntennaNoise(_) => RadiotapKind::AntennaNoise,
            FieldValue::LockQuality(_) => RadiotapKind::LockQuality,
            FieldValue::TxAttenuation(_) => RadiotapKind::TxAttenuation,
            FieldValue::TxAttenuationDb(_) => RadiotapKind::TxAttenuationDb,
            FieldValue::TxPower(_) => RadiotapKind::TxPower,
            FieldValue::Antenna(_) => RadiotapKind::Antenna,
            FieldValue::AntennaSignalDb(_) => RadiotapKind::AntennaSignalDb,
            FieldValue::AntennaNoiseDb(_) => RadiotapKind::AntennaNoiseDb,
            FieldValue::RxFlags(_) => RadiotapKind::RxFlags,
            FieldValue::TxFlags(_) => RadiotapKind::TxFlags,
            FieldValue::RtsRetries(_) => RadiotapKind::RtsRetries,
            FieldValue::DataRetries(_) => RadiotapKind::DataRetries,
            FieldValue::XChannel(_) => RadiotapKind::XChannel,
            FieldValue::Mcs(_) => RadiotapKind::Mcs,
            FieldValue::AmpduStatus(_) => RadiotapKind::AmpduStatus,
            FieldValue::Vht(_) => RadiotapKind::Vht,
            FieldValue::Timestamp(_) => RadiotapKind::Timestamp,
        }
    }
}

/// `result` with the value of its success wrapped by `wrap`.
pub open spec fn wrapped<T>(result: Result<T, ErrorKind>, wrap: spec_fn(T) -> FieldValue) -> Result<
    FieldValue,
    ErrorKind,
> {
    match result {
        Ok(field) => Ok(wrap(field)),
        Err(e) => Err(e),
    }
}

impl RadiotapKind {
    /// What the bytes of a field of this kind decode to. Whatever makes them invalid, the
    /// error is `ErrorKind::InvalidFormat`.
    pub open spec fn decodes(self, data: Seq<u8>) -> Result<FieldValue, ErrorKind> {
        match self {
            RadiotapKind::Tsft => wrapped(
                decodes_or_invalid::<Tsft>(data),
                |field: Tsft| FieldValue::Tsft(field),
            ),
            RadiotapKind::Flags => wrapped(
                decodes_or_invalid::<Flags>(data),
                |field: Flags| FieldValue::Flags(field),
            ),
            RadiotapKind::Rate => wrapped(
                decodes_or_invalid::<Rate>(data),
                |field: Rate| FieldValue::Rate(field),
            ),
            RadiotapKind::Channel => wrapped(
                decodes_or_invalid::<Channel>(data),
                |field: Channel| FieldValue::Channel(field),
            ),
            RadiotapKind::Fhss => wrapped(
                decodes_or_invalid::<Fhss>(data),
                |field: Fhss| FieldValue::Fhss(field),
            ),
            RadiotapKind::AntennaSignal => wrapped(
                decodes_or_invalid::<AntennaSignal>(data),
                |field: AntennaSignal| FieldValue::AntennaSignal(field),
            ),
            RadiotapKind::AntennaNoise => wrapped(
                decodes_or_invalid::<AntennaNoise>(data),
                |field: AntennaNoise| FieldValue::AntennaNoise(field),
            ),
            RadiotapKind::LockQuality => wrapped(
                decodes_or_invalid::<LockQuality>(data),
                |field: LockQuality| FieldValue::LockQuality(field),
            ),
            RadiotapKind::TxAttenuation => wrapped(
                decodes_or_invalid::<TxAttenuation>(data),
                |field: TxAttenuation| FieldValue::TxAttenuation(field),
            ),
            RadiotapKind::TxAttenuationDb => wrapped(
                decodes_or_invalid::<TxAttenuationDb>(data),
                |field: TxAttenuationDb| FieldValue::TxAttenuationDb(field),
            ),
            RadiotapKind::TxPower => wrapped(
                decodes_or_invalid::<TxPower>(data),
                |field: TxPower| FieldValue::TxPower(field),
            ),
            RadiotapKind::Antenna => wrapped(
                decodes_or_invalid::<Antenna>(data),
                |field: Antenna| FieldValue::Antenna(field),
            ),
            RadiotapKind::AntennaSignalDb => wrapped(
                decodes_or_invalid::<AntennaSignalDb>(data),
                |field: AntennaSignalDb| FieldValue::AntennaSignalDb(field),
            ),
            RadiotapKind::AntennaNoiseDb => wrapped(
                decodes_or_invalid::<AntennaNoiseDb>(data),
                |field: AntennaNoiseDb| FieldValue::AntennaNoiseDb(field),
            ),
            RadiotapKind::RxFlags => wrapped(
                decodes_or_invalid::<RxFlags>(data),
                |field: RxFlags| FieldValue::RxFlags(field),
            ),
            RadiotapKind::TxFlags => wrapped(
                decodes_or_invalid::<TxFlags>(data),
                |field: TxFlags| FieldValue::TxFlags(field),
            ),
            RadiotapKind::RtsRetries => wrapped(
                decodes_or_invalid::<RtsRetries>(data),
                |field: RtsRetries| FieldValue::RtsRetries(field),
            ),
            RadiotapKind::DataRetries => wrapped(
                decodes_or_invalid::<DataRetries>(data),
                |field: DataRetries| FieldValue::DataRetries(field),
            ),
            RadiotapKind::XChannel => wrapped(
                decodes_or_invalid::<XChannel>(data),
                |field: XChannel| FieldValue::XChannel(field),
            ),
            RadiotapKind::Mcs => wrapped(
                decodes_or_invalid::<Mcs>(data),
                |field: Mcs| FieldValue::Mcs(field),
            ),
            RadiotapKind::AmpduStatus => wrapped(
                decodes_or_invalid::<AmpduStatus>(data),
                |field: AmpduStatus| FieldValue::AmpduStatus(field),
            ),
            RadiotapKind::Vht => wrapped(
                decodes_or_invalid::<Vht>(data),
                |field: Vht| FieldValue::Vht(field),
            ),
            RadiotapKind::Timestamp => wrapped(
                decodes_or_invalid::<Timestamp>(data),
                |field: Timestamp| FieldValue::Timestamp(field),
            ),
        }
    }

    /// Decodes a field of this kind from the front of `data`.
    pub fn decode(&self, data: &[u8]) -> (r: Result<FieldValue, ErrorKind>)
        ensures
            r == self.decodes(data@),
    {
        match *self {
            RadiotapKind::Tsft => match from_bytes::<Tsft>(data) {
                Ok(field) => Ok(FieldValue::Tsft(field)),
                Err(e) => Err(e),
            },
            RadiotapKind::Flags => match from_bytes::<Flags>(data) {
                Ok(field) => Ok(FieldValue::Flags(field)),
                Err(e) => Err(e),
            },
            RadiotapKind::Rate => match from_bytes::<Rate>(data) {
                Ok(field) => Ok(FieldValue::Rate(field)),
                Err(e) => Err(e),
            },
            RadiotapKind::Channel => match from_bytes::<Channel>(data) {
                Ok(field) => Ok(FieldValue::Channel(field)),
                Err(e) => Err(e),
            },
            RadiotapKind::Fhss => match from_bytes::<Fhss>(data) {
                Ok(field) => Ok(FieldValue::Fhss(field)),
                Err(e) => Err(e),
            },
            RadiotapKind::AntennaSignal => match from_bytes::<AntennaSignal>(data) {
                Ok(field) => Ok(FieldValue::AntennaSignal(field)),
                Err(e) => Err(e),
            },
            RadiotapKind::AntennaNoise => match from_bytes::<AntennaNoise>(data) {
                Ok(field) => Ok(FieldValue::AntennaNoise(field)),
                Err(e) => Err(e),
            },
            RadiotapKind::LockQuality => match from_bytes::<LockQuality>(data) {
                Ok(field) => Ok(FieldValue::LockQuality(field)),
                Err(e) => Err(e),
            },
            RadiotapKind::TxAttenuation => match from_bytes::<TxAttenuation>(data) {
                Ok(field) => Ok(FieldValue::TxAttenuation(field)),
                Err(e) => Err(e),
            },
            RadiotapKind::TxAttenuationDb => match from_bytes::<TxAttenuationDb>(data) {
                Ok(field) => Ok(FieldValue::TxAttenuationDb(field)),
                Err(e) => Err(e),
            },
            RadiotapKind::TxPower => match from_bytes::<TxPower>(data) {
                Ok(field) => Ok(FieldValue::TxPower(field)),
                Err(e) => Err(e),
            },
            RadiotapKind::Antenna => match from_bytes::<Antenna>(data) {
                Ok(field) => Ok(FieldValue::Antenna(field)),
                Err(e) => Err(e),
            },
            RadiotapKind::AntennaSignalDb => match from_bytes::<AntennaSignalDb>(data) {
                Ok(field) => Ok(FieldValue::AntennaSignalDb(field)),
                Err(e) => Err(e),
            },
            RadiotapKind::AntennaNoiseDb => match from_bytes::<AntennaNoiseDb>(data) {
                Ok(field) => Ok(FieldValue::AntennaNoiseDb(field)),
                Err(e) => Err(e),
            },
            RadiotapKind::RxFlags => match from_bytes::<RxFlags>(data) {
                Ok(field) => Ok(FieldValue::RxFlags(field)),
                Err(e) => Err(e),
            },
            RadiotapKind::TxFlags => match from_bytes::<TxFlags>(data) {
                Ok(field) => Ok(FieldValue::TxFlags(field)),
                Err(e) => Err(e),
            },
            RadiotapKind::RtsRetries => match from_bytes::<RtsRetries>(data) {
                Ok(field) => Ok(FieldValue::RtsRetries(field)),
                Err(e) => Err(e),
            },
            RadiotapKind::DataRetries => match from_bytes::<DataRetries>(data) {
                Ok(field) => Ok(FieldValue::DataRetries(field)),
                Err(e) => Err(e),
            },
            RadiotapKind::XChannel => match from_bytes::<XChannel>(data) {
                Ok(field) => Ok(FieldValue::XChannel(field)),
                Err(e) => Err(e),
            },
            RadiotapKind::Mcs => match from_bytes::<Mcs>(data) {
                Ok(field) => Ok(FieldValue::Mcs(field)),
                Err(e) => Err(e),
            },
            RadiotapKind::AmpduStatus => match from_bytes::<AmpduStatus>(data) {
                Ok(field) => Ok(FieldValue::AmpduStatus(field)),
                Err(e) => Err(e),
            },
            RadiotapKind::Vht => match from_bytes::<Vht>(data) {
                Ok(field) => Ok(FieldValue::Vht(field)),
                Err(e) => Err(e),
            },
            RadiotapKind::Timestamp => match from_bytes::<Timestamp>(data) {
                Ok(field) => Ok(FieldValue::Timestamp(field)),
                Err(e) => Err(e),
            },
        }
    }
}

/// Decodes a field of the given kind of the default namespace from the front of `data`, for
/// callers that walk a capture themselves.
pub fn decode_field(kind: RadiotapKind, data: &[u8]) -> (r: Result<FieldValue, ErrorKind>)
    ensures
        r == kind.decodes(data@),
{
    kind.decode(data)
}

/// Represents a parsed Radiotap namespace, all fields are optional since not all fields are
/// necessarily present in a Radiotap capture.
#[derive(Clone, Copy, Debug, PartialEq, Eq)]
pub struct Radiotap {
    pub tsft: Option<Tsft>,
    pub flags: Option<Flags>,
    pub rate: Option<Rate>,
    pub channel: Option<Channel>,
    pub fhss: Option<Fhss>,
    pub antenna_signal: Option<AntennaSignal>,
    pub antenna_noise: Option<AntennaNoise>,
    pub lock_quality: Option<LockQuality>,
    pub tx_attenuation: Option<TxAttenuation>,
    pub tx_attenuation_db: Option<TxAttenuationDb>,
    pub tx_power: Option<TxPower>,
    pub antenna: Option<Antenna>,
    pub antenna_signal_db: Option<AntennaSignalDb>,
    pub antenna_noise_db: Option<AntennaNoiseDb>,
    pub rx_flags: Option<RxFlags>,
    pub tx_flags: Option<TxFlags>,
    pub rts_retries: Option<RtsRetries>,
    pub data_retries: Option<DataRetries>,
    pub xchannel: Option<XChannel>,
    pub mcs: Option<Mcs>,
    pub ampdu_status: Option<AmpduStatus>,
    pub vht: Option<Vht>,
    pub timestamp: Option<Timestamp>,
}

impl Radiotap {
    /// The namespace with no field in it.
    pub open spec fn empty() -> Radiotap {
        Radiotap {
            tsft: None,
            flags: None,
            rate: None,
            channel: None,
            fhss: None,
            antenna_signal: None,
            antenna_noise: None,
            lock_quality: None,
            tx_attenuation: None,
            tx_attenuation_db: None,
            tx_power: None,
            antenna: None,
            antenna_signal_db: None,
            antenna_noise_db: None,
            rx_flags: None,
            tx_flags: None,
            rts_retries: None,
            data_retries: None,
            xchannel: None,
            mcs: None,
            ampdu_status: None,
            vht: None,
            timestamp: None,
        }
    }

    /// The namespace with `value` in the place of its kind, in place of what was there.
    pub open spec fn with(self, value: FieldValue) -> Radiotap {
        match value {
            FieldValue::Tsft(field) => Radiotap { tsft: Some(field), ..self },
            FieldValue::Flags(field) => Radiotap { flags: Some(field), ..self },
            FieldValue::Rate(field) => Radiotap { rate: Some(field), ..self },
            FieldValue::Channel(field) => Radiotap { channel: Some(field), ..self },
            FieldValue::Fhss(field) => Radiotap { fhss: Some(field), ..self },
            FieldValue::AntennaSignal(field) => Radiotap { antenna_signal: Some(field), ..self },
            FieldValue::AntennaNoise(field) => Radiotap { antenna_noise: Some(field), ..self },
            FieldValue::LockQuality(field) => Radiotap { lock_quality: Some(field), ..self },
            FieldValue::TxAttenuation(field) => Radiotap { tx_attenuation: Some(field), ..self },
            FieldValue::TxAttenuationDb(field) => Radiotap {
                tx_attenuation_db: Some(field),
                ..self
            },
            FieldValue::TxPower(field) => Radiotap { tx_power: Some(field), ..self },
            FieldValue::Antenna(field) => Radiotap { antenna: Some(field), ..self },
            FieldValue::AntennaSignalDb(field) => Radiotap {
                antenna_signal_db: Some(field),
                ..self
            },
            FieldValue::AntennaNoiseDb(field) => Radiotap { antenna_noise_db: Some(field), ..self },
            FieldValue::RxFlags(field) => Radiotap { rx_flags: Some(field), ..self },
            FieldValue::TxFlags(field) => Radiotap { tx_flags: Some(field), ..self },
            FieldValue::RtsRetries(field) => Radiotap { rts_retries: Some(field), ..self },
            FieldValue::DataRetries(field) => Radiotap { data_retries: Some(field), ..self },
            FieldValue::XChannel(field) => Radiotap { xchannel: Some(field), ..self },
            FieldValue::Mcs(field) => Radiotap { mcs: Some(field), ..self },
            FieldValue::AmpduStatus(field) => Radiotap { ampdu_status: Some(field), ..self },
            FieldValue::Vht(field) => Radiotap { vht: Some(field), ..self },
            FieldValue::Timestamp(field) => Radiotap { timestamp: Some(field), ..self },
        }
    }

    /// The field of the given kind, where the namespace holds one.
    pub open spec fn value_of(self, kind: RadiotapKind) -> Option<FieldValue> {
        match kind {
            RadiotapKind::Tsft => match self.tsft {
                Some(field) => Some(FieldValue::Tsft(field)),
                None => None,
            },
            RadiotapKind::Flags => match self.flags {
                Some(field) => Some(FieldValue::Flags(field)),
                None => None,
            },
            RadiotapKind::Rate => match self.rate {
                Some(field) => Some(FieldValue::Rate(field)),
                None => None,
            },
            RadiotapKind::Channel => match self.channel {
                Some(field) => Some(FieldValue::Channel(field)),
                None => None,
            },
            RadiotapKind::Fhss => match self.fhss {
                Some(field) => Some(FieldValue::Fhss(field)),
                None => None,
            },
            RadiotapKind::AntennaSignal => match self.antenna_signal {
                Some(field) => Some(FieldValue::AntennaSignal(field)),
                None => None,
            },
            RadiotapKind::AntennaNoise => match self.antenna_noise {
                Some(field) => Some(FieldValue::AntennaNoise(field)),
                None => None,
            },
            RadiotapKind::LockQuality => match self.lock_quality {
                Some(field) => Some(FieldValue::LockQuality(field)),
                None => None,
            },
            RadiotapKind::TxAttenuation => match self.tx_attenuation {
                Some(field) => Some(FieldValue::TxAttenuation(field)),
                None => None,
            },
            RadiotapKind::TxAttenuationDb => match self.tx_attenuation_db {
                Some(field) => Some(FieldValue::TxAttenuationDb(field)),
                None => None,
            },
            RadiotapKind::TxPower => match self.tx_power {
                Some(field) => Some(FieldValue::TxPower(field)),
                None => None,
            },
            RadiotapKind::Antenna => match self.antenna {
                Some(field) => Some(FieldValue::Antenna(field)),
                None => None,
            },
            RadiotapKind::AntennaSignalDb => match self.antenna_signal_db {
                Some(field) => Some(FieldValue::AntennaSignalDb(field)),
                None => None,
            },
            RadiotapKind::AntennaNoiseDb => match self.antenna_noise_db {
                Some(field) => Some(FieldValue::AntennaNoiseDb(field)),
                None => None,
            },
            RadiotapKind::RxFlags => match self.rx_flags {
                Some(field) => Some(FieldValue::RxFlags(field)),
                None => None,
            },
            RadiotapKind::TxFlags => match self.tx_flags {
                Some(field) => Some(FieldValue::TxFlags(field)),
                None => None,
            },
            RadiotapKind::RtsRetries => match self.rts_retries {
                Some(field) => Some(FieldValue::RtsRetries(field)),
                None => None,
            },
            RadiotapKind::DataRetries => match self.data_retries {
                Some(field) => Some(FieldValue::DataRetries(field)),
                None => None,
            },
            RadiotapKind::XChannel => match self.xchannel {
                Some(field) => Some(FieldValue::XChannel(field)),
                None => None,
            },
            RadiotapKind::Mcs => match self.mcs {
                Some(field) => Some(FieldValue::Mcs(field)),
                None => None,
            },
            RadiotapKind::AmpduStatus => match self.ampdu_status {
                Some(field) => Some(FieldValue::AmpduStatus(field)),
                None => None,
            },
            RadiotapKind::Vht => match self.vht {
                Some(field) => Some(FieldValue::Vht(field)),
                None => None,
            },
            RadiotapKind::Timestamp => match self.timestamp {
                Some(field) => Some(FieldValue::Timestamp(field)),
                None => None,
            },
        }
    }

    /// Construct a new unparsed Radiotap namespace.
    pub fn new() -> (radiotap: Self)
        ensures
            radiotap == Self::empty(),
    {
        Radiotap {
            tsft: None,
            flags: None,
            rate: None,
            channel: None,
            fhss: None,
            antenna_signal: None,
            antenna_noise: None,
            lock_quality: None,
            tx_attenuation: None,
            tx_attenuation_db: None,
            tx_power: None,
            antenna: None,
            antenna_signal_db: None,
            antenna_noise_db: None,
            rx_flags: None,
            tx_flags: None,
            rts_retries: None,
            data_retries: None,
            xchannel: None,
            mcs: None,
            ampdu_status: None,
            vht: None,
            timestamp: None,
        }
    }

    /// Stores a decoded field in the place of its kind. A field of that kind that was there
    /// before is overwritten.
    pub fn set(&mut self, value: FieldValue)
        ensures
            *final(self) == old(self).with(value),
    {
        match value {
            FieldValue::Tsft(field) => {
                self.tsft = Some(field);
            },
            FieldValue::Flags(field) => {
                self.flags = Some(field);
            },
            FieldValue::Rate(field) => {
                self.rate = Some(field);
            },
            FieldValue::Channel(field) => {
                self.channel = Some(field);
            },
            FieldValue::Fhss(field) => {
                self.fhss = Some(field);
            },
            FieldValue::AntennaSignal(field) => {
                self.antenna_signal = Some(field);
            },
            FieldValue::AntennaNoise(field) => {
                self.antenna_noise = Some(field);
            },
            FieldValue::LockQuality(field) => {
                self.lock_quality = Some(field);
            },
            FieldValue::TxAttenuation(field) => {
                self.tx_attenuation = Some(field);
            },
            FieldValue::TxAttenuationDb(field) => {
                self.tx_attenuation_db = Some(field);
            },
            FieldValue::TxPower(field) => {
                self.tx_power = Some(field);
            },
            FieldValue::Antenna(field) => {
                self.antenna = Some(field);
            },
            FieldValue::AntennaSignalDb(field) => {
                self.antenna_signal_db = Some(field);
            },
            FieldValue::AntennaNoiseDb(field) => {
                self.antenna_noise_db = Some(field);
            },
            FieldValue::RxFlags(field) => {
                self.rx_flags = Some(field);
            },
            FieldValue::TxFlags(field) => {
                self.tx_flags = Some(field);
            },
            FieldValue::RtsRetries(field) => {
                self.rts_retries = Some(field);
            },
            FieldValue::DataRetries(field) => {
                self.data_retries = Some(field);
            },
            FieldValue::XChannel(field) => {
                self.xchannel = Some(field);
            },
            FieldValue::Mcs(field) => {
                self.mcs = Some(field);
            },
            FieldValue::AmpduStatus(field) => {
                self.ampdu_status = Some(field);
            },
            FieldValue::Vht(field) => {
                self.vht = Some(field);
            },
            FieldValue::Timestamp(field) => {
                self.timestamp = Some(field);
            },
        }
    }

    /// Returns the field of the given kind, where the namespace holds one.
    pub fn get(&self, kind: RadiotapKind) -> (value: Option<FieldValue>)
        ensures
            value == self.value_of(kind),
    {
        match kind {
            RadiotapKind::Tsft => match self.tsft {
                Some(field) => Some(FieldValue::Tsft(field)),
                None => None,
            },
            RadiotapKind::Flags => match self.flags {
                Some(field) => Some(FieldValue::Flags(field)),
                None => None,
            },
            RadiotapKind::Rate => match self.rate {
                Some(field) => Some(FieldValue::Rate(field)),
                None => None,
            },
            RadiotapKind::Channel => match self.channel {
                Some(field) => Some(FieldValue::Channel(field)),
                None => None,
            },
            RadiotapKind::Fhss => match self.fhss {
                Some(field) => Some(FieldValue::Fhss(field)),
                None => None,
            },
            RadiotapKind::AntennaSignal => match self.antenna_signal {
                Some(field) => Some(FieldValue::AntennaSignal(field)),
                None => None,
            },
            RadiotapKind::AntennaNoise => match self.antenna_noise {
                Some(field) => Some(FieldValue::AntennaNoise(field)),
                None => None,
            },
            RadiotapKind::LockQuality => match self.lock_quality {
                Some(field) => Some(FieldValue::LockQuality(field)),
                None => None,
            },
            RadiotapKind::TxAttenuation => match self.tx_attenuation {
                Some(field) => Some(FieldValue::TxAttenuation(field)),
                None => None,
            },
            RadiotapKind::TxAttenuationDb => match self.tx_attenuation_db {
                Some(field) => Some(FieldValue::TxAttenuationDb(field)),
                None => None,
            },
            RadiotapKind::TxPower => match self.tx_power {
                Some(field) => Some(FieldValue::TxPower(field)),
                None => None,
            },
            RadiotapKind::Antenna => match self.antenna {
                Some(field) => Some(FieldValue::Antenna(field)),
                None => None,
            },
            RadiotapKind::AntennaSignalDb => match self.antenna_signal_db {
                Some(field) => Some(FieldValue::AntennaSignalDb(field)),
                None => None,
            },
            RadiotapKind::AntennaNoiseDb => match self.antenna_noise_db {
                Some(field) => Some(FieldValue::AntennaNoiseDb(field)),
                None => None,
            },
            RadiotapKind::RxFlags => match self.rx_flags {
                Some(field) => Some(FieldValue::RxFlags(field)),
                None => None,
            },
            RadiotapKind::TxFlags => match self.tx_flags {
                Some(field) => Some(FieldValue::TxFlags(field)),
                None => None,
            },
            RadiotapKind::RtsRetries => match self.rts_retries {
                Some(field) => Some(FieldValue::RtsRetries(field)),
                None => None,
            },
            RadiotapKind::DataRetries => match self.data_retries {
                Some(field) => Some(FieldValue::DataRetries(field)),
                None => None,
            },
            RadiotapKind::XChannel => match self.xchannel {
                Some(field) => Some(FieldValue::XChannel(field)),
                None => None,
            },
            RadiotapKind::Mcs => match self.mcs {
                Some(field) => Some(FieldValue::Mcs(field)),
                None => None,
            },
            RadiotapKind::AmpduStatus => match self.ampdu_status {
                Some(field) => Some(FieldValue::AmpduStatus(field)),
                None => None,
            },
            RadiotapKind::Vht => match self.vht {
                Some(field) => Some(FieldValue::Vht(field)),
                None => None,
            },
            RadiotapKind::Timestamp => match self.timestamp {
                Some(field) => Some(FieldValue::Timestamp(field)),
                None => None,
            },
        }
    }
}

impl Default for Radiotap {
    fn default() -> (radiotap: Self)
        ensures
            radiotap == Self::empty(),
    {
        Radiotap::new()
    }
}

impl Namespace for Radiotap {
    type Kind = RadiotapKind;

    /// Because Radiotap is the default namespace it is not associated with a vendor.
    open spec fn vendor() -> Option<Oui> {
        None
    }

    open spec fn updated(self, kind: RadiotapKind, data: Seq<u8>) -> Result<Self, ErrorKind> {
        match kind.decodes(data) {
            Ok(value) => Ok(self.with(value)),
            Err(e) => Err(e),
        }
    }

    fn oui() -> (oui: Option<Oui>) {
        None
    }

    /// Updates the Radiotap field with the given Radiotap field kind and raw data.
    fn update(&mut self, kind: RadiotapKind, data: &[u8]) -> (r: Result<(), ErrorKind>) {
        match kind.decode(data) {
            Ok(value) => {
                self.set(value);
                Ok(())
            },
            Err(e) => Err(e),
        }
    }
}

} // verus!
