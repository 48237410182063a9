//! What a device reports of itself.

use vstd::prelude::*;

use crate::error::Error;
use crate::types::response_status::ResponseStatus;

verus! {

/// Code of the currency that a device takes: three capital letters, `XXX`
/// where the device has none.
#[derive(Clone, Copy, Debug, PartialEq, Eq)]
pub struct CountryCode([u8; 3]);

impl View for CountryCode {
    type V = Seq<u8>;

    /// The three letters.
    closed spec fn view(&self) -> Seq<u8> {
        self.0@
    }
}

impl CountryCode {
    /// The code of no currency, `XXX`.
    pub closed spec fn spec_default() -> Self {
        CountryCode([0x58u8, 0x58u8, 0x58u8])
    }

    /// The code of no currency is three times the letter `X`.
    pub proof fn lemma_spec_default()
        ensures
            Self::spec_default()@ == seq![0x58u8, 0x58u8, 0x58u8],
    {
        assert(Self::spec_default()@ =~= seq![0x58u8, 0x58u8, 0x58u8]);
    }

    /// Creates a code from its three letters.
    pub fn new(letters: [u8; 3]) -> (code: Self)
        ensures
            code@ == letters@,
    {
        CountryCode(letters)
    }

    /// Gets the three letters.
    pub fn letters(&self) -> (letters: [u8; 3])
        ensures
            letters@ == self@,
    {
        self.0
    }
}

impl Default for CountryCode {
    fn default() -> (code: Self)
        ensures
            code == Self::spec_default(),
            code@ == seq![0x58u8, 0x58u8, 0x58u8],
    {
        let code = CountryCode([0x58, 0x58, 0x58]);
        assert(code.0@ =~= seq![0x58u8, 0x58u8, 0x58u8]);
        assert(code.0 =~= Self::spec_default().0);
        code
    }
}

/// Version of the protocol that a device speaks.
#[derive(Clone, Copy, Debug, PartialEq, Eq, Structural)]
pub enum ProtocolVersion {
    One,
    Two,
    Three,
    Four,
    Five,
    Six,
    Seven,
    Eight,
    /// A version that this library does not know, and the one of a device of
    /// which nothing is known.
    Reserved,
}

impl Default for ProtocolVersion {
    fn default() -> (version: Self)
        ensures
            version == ProtocolVersion::Reserved,
    {
        ProtocolVersion::Reserved
    }
}

/// Most characters of a dataset version.
pub const DATASET_VERSION: usize = 8;

/// Version of the dataset of notes that a device holds: up to eight
/// characters, none where nothing is known.
#[derive(Clone, Copy, Debug, PartialEq, Eq)]
pub struct DatasetVersion {
    bytes: [u8; 8],
    len: usize,
}

impl View for DatasetVersion {
    type V = Seq<u8>;

    /// The characters of the version.
    closed spec fn view(&self) -> Seq<u8> {
        if self.len <= DATASET_VERSION {
            self.bytes@.take(self.len as int)
        } else {
            self.bytes@
        }
    }
}

impl DatasetVersion {
    /// The version of which nothing is known: no characters.
    pub closed spec fn spec_default() -> Self {
        DatasetVersion { bytes: [0u8, 0u8, 0u8, 0u8, 0u8, 0u8, 0u8, 0u8], len: 0 }
    }

    /// The version of which nothing is known has no characters.
    pub proof fn lemma_spec_default()
        ensures
            Self::spec_default()@ == Seq::<u8>::empty(),
    {
        assert(Self::spec_default()@ =~= Seq::<u8>::empty());
    }

    /// Creates a version from its characters. Fails, with the number found and
    /// the most allowed, where there are more than eight.
    pub fn new(text: &[u8]) -> (res: Result<Self, Error>)
        ensures
            match res {
                Ok(version) => text.len() <= DATASET_VERSION && version@ == text@,
                Err(e) => text.len() > DATASET_VERSION && e == Error::InvalidLength(
                    (text.len(), DATASET_VERSION),
                ),
            },
    {
        if text.len() > DATASET_VERSION {
            return Err(Error::InvalidLength((text.len(), DATASET_VERSION)));
        }
        let mut bytes: [u8; 8] = [0u8; 8];
        let mut i: usize = 0;
        while i < text.len()
            invariant
                i <= text.len() <= DATASET_VERSION,
                forall|k: int| 0 <= k < i ==> bytes@[k] == text@[k],
            decreases text.len() - i,
        {
            bytes[i] = text[i];
            i += 1;
        }
        let version = DatasetVersion { bytes, len: text.len() };
        assert(version@ =~= text@);
        Ok(version)
    }

    /// Gets the characters of the version.
    pub fn as_bytes(&self) -> (text: &[u8])
        ensures
            text@ == self@,
    {
        if self.len <= DATASET_VERSION {
            &self.bytes[0..self.len]
        } else {
            assert(self.bytes@.subrange(0, 8) =~= self.bytes@);
            &self.bytes[0..8]
        }
    }
}

impl Default for DatasetVersion {
    fn default() -> (version: Self)
        ensures
            version == Self::spec_default(),
            version@ == Seq::<u8>::empty(),
    {
        let version = DatasetVersion { bytes: [0u8; 8], len: 0 };
        assert(version.bytes =~= Self::spec_default().bytes);
        assert(version@ =~= Seq::<u8>::empty());
        version
    }
}

/// Report of a device on its state and its make.
#[derive(Clone, Copy, Debug, PartialEq, Eq)]
pub struct DeviceStatus {
    status: ResponseStatus,
    unit_type: u8,
    firmware_version: u32,
    country_code: CountryCode,
    value_multiplier: u32,
    protocol_version: ProtocolVersion,
    dataset_version: DatasetVersion,
    cashbox_attached: bool,
}

impl DeviceStatus {
    /// The report of a device of which nothing is known: no failure, zeros,
    /// the code of no currency, a reserved protocol version, no dataset
    /// version and no cashbox.
    pub closed spec fn spec_default() -> Self {
        DeviceStatus {
            status: ResponseStatus::Success,
            unit_type: 0,
            firmware_version: 0,
            country_code: CountryCode::spec_default(),
            value_multiplier: 0,
            protocol_version: ProtocolVersion::Reserved,
            dataset_version: DatasetVersion::spec_default(),
            cashbox_attached: false,
        }
    }

    /// What the report of a device of which nothing is known holds.
    pub proof fn lemma_spec_default()
        ensures
            Self::spec_default().status() == ResponseStatus::Success,
            Self::spec_default().unit_type() == 0,
            Self::spec_default().firmware_version() == 0,
            Self::spec_default().country_code() == CountryCode::spec_default(),
            Self::spec_default().value_multiplier() == 0,
            Self::spec_default().protocol_version() == ProtocolVersion::Reserved,
            Self::spec_default().dataset_version() == DatasetVersion::spec_default(),
            !Self::spec_default().cashbox_attached(),
    {
    }

    /// Creates a report.
    pub fn new(
        status: ResponseStatus,
        unit_type: u8,
        firmware_version: u32,
        country_code: CountryCode,
        value_multiplier: u32,
        protocol_version: ProtocolVersion,
        dataset_version: DatasetVersion,
        cashbox_attached: bool,
    ) -> (report: Self)
        ensures
            report.status() == status,
            report.unit_type() == unit_type,
            report.firmware_version() == firmware_version,
            report.country_code() == country_code,
            report.value_multiplier() == value_multiplier,
            report.protocol_version() == protocol_version,
            report.dataset_version() == dataset_version,
            report.cashbox_attached() == cashbox_attached,
    {
        DeviceStatus {
            status,
            unit_type,
            firmware_version,
            country_code,
            value_multiplier,
            protocol_version,
            dataset_version,
            cashbox_attached,
        }
    }

    /// The status of the last response.
    pub closed spec fn spec_status(&self) -> ResponseStatus {
        self.status
    }

    /// The type of the unit.
    pub closed spec fn spec_unit_type(&self) -> u8 {
        self.unit_type
    }

    /// The version of the firmware.
    pub closed spec fn spec_firmware_version(&self) -> u32 {
        self.firmware_version
    }

    /// The code of the currency.
    pub closed spec fn spec_country_code(&self) -> CountryCode {
        self.country_code
    }

    /// The factor between channel values and amounts.
    pub closed spec fn spec_value_multiplier(&self) -> u32 {
        self.value_multiplier
    }

    /// The version of the protocol.
    pub closed spec fn spec_protocol_version(&self) -> ProtocolVersion {
        self.protocol_version
    }

    /// The version of the dataset.
    pub closed spec fn spec_dataset_version(&self) -> DatasetVersion {
        self.dataset_version
    }

    /// Whether the cashbox is in place.
    pub closed spec fn spec_cashbox_attached(&self) -> bool {
        self.cashbox_attached
    }

    /// Gets the status of the last response.
    #[verifier::when_used_as_spec(spec_status)]
    pub fn status(&self) -> (status: ResponseStatus)
        ensures
            status == self.spec_status(),
    {
        self.status
    }

    /// Gets the type of the unit.
    #[verifier::when_used_as_spec(spec_unit_type)]
    pub fn unit_type(&self) -> (unit_type: u8)
        ensures
            unit_type == self.spec_unit_type(),
    {
        self.unit_type
    }

    /// Gets the version of the firmware.
    #[verifier::when_used_as_spec(spec_firmware_version)]
    pub fn firmware_version(&self) -> (version: u32)
        ensures
            version == self.spec_firmware_version(),
    {
        self.firmware_version
    }

    /// Gets the code of the currency.
    #[verifier::when_used_as_spec(spec_country_code)]
    pub fn country_code(&self) -> (code: CountryCode)
        ensures
            code == self.spec_country_code(),
    {
        self.country_code
    }

    /// Gets the factor between channel values and amounts.
    #[verifier::when_used_as_spec(spec_value_multiplier)]
    pub fn value_multiplier(&self) -> (multiplier: u32)
        ensures
            multiplier == self.spec_value_multiplier(),
    {
        self.value_multiplier
    }

    /// Gets the version of the protocol.
    #[verifier::when_used_as_spec(spec_protocol_version)]
    pub fn protocol_version(&self) -> (version: ProtocolVersion)
        ensures
            version == self.spec_protocol_version(),
    {
        self.protocol_version
    }

    /// Gets the version of the dataset.
    #[verifier::when_used_as_spec(spec_dataset_version)]
    pub fn dataset_version(&self) -> (version: DatasetVersion)
        ensures
            version == self.spec_dataset_version(),
    {
        self.dataset_version
    }

    /// Tells whether the cashbox is in place.
    #[verifier::when_used_as_spec(spec_cashbox_attached)]
    pub fn cashbox_attached(&self) -> (attached: bool)
        ensures
            attached == self.spec_cashbox_attached(),
    {
        self.cashbox_attached
    }
}

impl Default for DeviceStatus {
    fn default() -> (report: Self)
        ensures
            report == Self::spec_default(),
            report.status() == ResponseStatus::Success,
            report.unit_type() == 0,
            report.firmware_version() == 0,
            report.country_code() == CountryCode::spec_default(),
            report.value_multiplier() == 0,
            report.protocol_version() == ProtocolVersion::Reserved,
            report.dataset_version() == DatasetVersion::spec_default(),
            !report.cashbox_attached(),
    {
        DeviceStatus {
            status: ResponseStatus::Success,
            unit_type: 0,
            firmware_version: 0,
            country_code: CountryCode::default(),
            value_multiplier: 0,
            protocol_version: ProtocolVersion::default(),
            dataset_version: DatasetVersion::default(),
            cashbox_attached: false,
        }
    }
}

} // verus!
