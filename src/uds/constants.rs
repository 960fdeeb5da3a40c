//! Service, data and sub-function identifiers of ISO 14229.
use vstd::prelude::*;

verus! {

/// Added to a service identifier in a positive response.
pub const POSITIVE_RESPONSE: u8 = 0x40;
/// First byte of a negative response.
pub const NEGATIVE_RESPONSE: u8 = 0x7f;
/// Sub-function byte of TesterPresent.
pub const ZERO_SUB_FUNCTION: u8 = 0x00;

/// Service Identifiers (SIDs) as defined in ISO 14229
#[derive(Debug, PartialEq, Eq, Structural, Copy, Clone)]
pub enum ServiceIdentifier {
    DiagnosticSessionControl,
    EcuReset,
    SecurityAccess,
    CommunicationControl,
    TesterPresent,
    AccessTimingParameter,
    SecuredDataTransmission,
    ControlDTCSetting,
    ResponseOnEvent,
    LinkControl,
    ReadDataByIdentifier,
    ReadMemoryByAddress,
    ReadScalingDataByIdentifier,
    ReadDataByPeriodicIdentifier,
    DynamicallyDefineDataIdentifier,
    WriteDataByIdentifier,
    WriteMemoryByAddress,
    ClearDiagnosticInformation,
    ReadDTCInformation,
    InputOutputControlByIdentifier,
    RoutineControl,
    RequestDownload,
    RequestUpload,
    TransferData,
    RequestTransferExit,
    RequestFileTransfer,
}

impl ServiceIdentifier {
    /// The identifier's value on the wire.
    pub open spec fn spec_value(self) -> u8 {
        match self {
            ServiceIdentifier::DiagnosticSessionControl => 0x10,
            ServiceIdentifier::EcuReset => 0x11,
            ServiceIdentifier::SecurityAccess => 0x27,
            ServiceIdentifier::CommunicationControl => 0x28,
            ServiceIdentifier::TesterPresent => 0x3e,
            ServiceIdentifier::AccessTimingParameter => 0x83,
            ServiceIdentifier::SecuredDataTransmission => 0x84,
            ServiceIdentifier::ControlDTCSetting => 0x85,
            ServiceIdentifier::ResponseOnEvent => 0x86,
            ServiceIdentifier::LinkControl => 0x87,
            ServiceIdentifier::ReadDataByIdentifier => 0x22,
            ServiceIdentifier::ReadMemoryByAddress => 0x23,
            ServiceIdentifier::ReadScalingDataByIdentifier => 0x24,
            ServiceIdentifier::ReadDataByPeriodicIdentifier => 0x2a,
            ServiceIdentifier::DynamicallyDefineDataIdentifier => 0x2c,
            ServiceIdentifier::WriteDataByIdentifier => 0x2e,
            ServiceIdentifier::WriteMemoryByAddress => 0x3d,
            ServiceIdentifier::ClearDiagnosticInformation => 0x14,
            ServiceIdentifier::ReadDTCInformation => 0x19,
            ServiceIdentifier::InputOutputControlByIdentifier => 0x2f,
            ServiceIdentifier::RoutineControl => 0x31,
            ServiceIdentifier::RequestDownload => 0x34,
            ServiceIdentifier::RequestUpload => 0x35,
            ServiceIdentifier::TransferData => 0x36,
            ServiceIdentifier::RequestTransferExit => 0x37,
            ServiceIdentifier::RequestFileTransfer => 0x38,
        }
    }

    /// The identifier's value on the wire.
    pub fn value(&self) -> (r: u8)
        ensures
            r == self.spec_value(),
    {
        match self {
            ServiceIdentifier::DiagnosticSessionControl => 0x10,
            ServiceIdentifier::EcuReset => 0x11,
            ServiceIdentifier::SecurityAccess => 0x27,
            ServiceIdentifier::CommunicationControl => 0x28,
            ServiceIdentifier::TesterPresent => 0x3e,
            ServiceIdentifier::AccessTimingParameter => 0x83,
            ServiceIdentifier::SecuredDataTransmission => 0x84,
            ServiceIdentifier::ControlDTCSetting => 0x85,
            ServiceIdentifier::ResponseOnEvent => 0x86,
            ServiceIdentifier::LinkControl => 0x87,
            ServiceIdentifier::ReadDataByIdentifier => 0x22,
            ServiceIdentifier::ReadMemoryByAddress => 0x23,
            ServiceIdentifier::ReadScalingDataByIdentifier => 0x24,
            ServiceIdentifier::ReadDataByPeriodicIdentifier => 0x2a,
            ServiceIdentifier::DynamicallyDefineDataIdentifier => 0x2c,
            ServiceIdentifier::WriteDataByIdentifier => 0x2e,
            ServiceIdentifier::WriteMemoryByAddress => 0x3d,
            ServiceIdentifier::ClearDiagnosticInformation => 0x14,
            ServiceIdentifier::ReadDTCInformation => 0x19,
            ServiceIdentifier::InputOutputControlByIdentifier => 0x2f,
            ServiceIdentifier::RoutineControl => 0x31,
            ServiceIdentifier::RequestDownload => 0x34,
            ServiceIdentifier::RequestUpload => 0x35,
            ServiceIdentifier::TransferData => 0x36,
            ServiceIdentifier::RequestTransferExit => 0x37,
            ServiceIdentifier::RequestFileTransfer => 0x38,
        }
    }
}

/// Standard Data Identifiers (DIDs) as defined in ISO 14229
#[derive(Debug, PartialEq, Eq, Structural, Copy, Clone)]
pub enum DataIdentifier {
    BootSoftwareIdentification,
    ApplicationSoftwareIdentification,
    ApplicationDataIdentification,
    BootSoftwareFingerprint,
    ApplicationSoftwareFingerprint,
    ApplicationDataFingerprint,
    ActiveDiagnosticSession,
    VehicleManufacturerSparePartNumber,
    VehicleManufacturerEcuSoftwareNumber,
    VehicleManufacturerEcuSoftwareversionNumber,
    SystemSupplierIdentifier,
    EcumanufacturingDate,
    EcuSerialNumber,
    SupportedFunctionalUnits,
    VehicleManufacturerKitAssemblyPartNumber,
    Vin,
    VehicleManufacturerEcuHardwareNumber,
    SystemSupplierEcuHardwareNumber,
    SystemSupplierEcuHardwareVersionNumber,
    SystemSupplierEcuSoftwareNumber,
    SystemSupplierEcuSoftwareVersionNumber,
    ExhaustRegulationOrTypeApprovalNumber,
    SystemNameOrEngineType,
    RepairShopCodeorTesterSerialNumber,
    ProgrammingDate,
    CalibrationRepairShopCodeOrCalibrationEquipmentSerialNumber,
    CalibrationDate,
    CalibrationEquipmentSoftwareNumber,
    EcuInstallationDate,
    OdxFile,
    Entity,
}

impl DataIdentifier {
    /// The identifier's value on the wire.
    pub open spec fn spec_value(self) -> u16 {
        match self {
            DataIdentifier::BootSoftwareIdentification => 0xf180,
            DataIdentifier::ApplicationSoftwareIdentification => 0xf181,
            DataIdentifier::ApplicationDataIdentification => 0xf182,
            DataIdentifier::BootSoftwareFingerprint => 0xf183,
            DataIdentifier::ApplicationSoftwareFingerprint => 0xf184,
            DataIdentifier::ApplicationDataFingerprint => 0xf185,
            DataIdentifier::ActiveDiagnosticSession => 0xf186,
            DataIdentifier::VehicleManufacturerSparePartNumber => 0xf187,
            DataIdentifier::VehicleManufacturerEcuSoftwareNumber => 0xf188,
            DataIdentifier::VehicleManufacturerEcuSoftwareversionNumber => 0xf189,
            DataIdentifier::SystemSupplierIdentifier => 0xf18a,
            DataIdentifier::EcumanufacturingDate => 0xf18b,
            DataIdentifier::EcuSerialNumber => 0xf18c,
            DataIdentifier::SupportedFunctionalUnits => 0xf18d,
            DataIdentifier::VehicleManufacturerKitAssemblyPartNumber => 0xf18e,
            DataIdentifier::Vin => 0xf190,
            DataIdentifier::VehicleManufacturerEcuHardwareNumber => 0xf191,
            DataIdentifier::SystemSupplierEcuHardwareNumber => 0xf192,
            DataIdentifier::SystemSupplierEcuHardwareVersionNumber => 0xf193,
            DataIdentifier::SystemSupplierEcuSoftwareNumber => 0xf194,
            DataIdentifier::SystemSupplierEcuSoftwareVersionNumber => 0xf195,
            DataIdentifier::ExhaustRegulationOrTypeApprovalNumber => 0xf196,
            DataIdentifier::SystemNameOrEngineType => 0xf197,
            DataIdentifier::RepairShopCodeorTesterSerialNumber => 0xf198,
            DataIdentifier::ProgrammingDate => 0xf199,
            DataIdentifier::CalibrationRepairShopCodeOrCalibrationEquipmentSerialNumber => 0xf19a,
            DataIdentifier::CalibrationDate => 0xf19b,
            DataIdentifier::CalibrationEquipmentSoftwareNumber => 0xf19c,
            DataIdentifier::EcuInstallationDate => 0xf19d,
            DataIdentifier::OdxFile => 0xf19e,
            DataIdentifier::Entity => 0xf19f,
        }
    }

    /// The identifier's value on the wire.
    pub fn value(&self) -> (r: u16)
        ensures
            r == self.spec_value(),
    {
        match self {
            DataIdentifier::BootSoftwareIdentification => 0xf180,
            DataIdentifier::ApplicationSoftwareIdentification => 0xf181,
            DataIdentifier::ApplicationDataIdentification => 0xf182,
            DataIdentifier::BootSoftwareFingerprint => 0xf183,
            DataIdentifier::ApplicationSoftwareFingerprint => 0xf184,
            DataIdentifier::ApplicationDataFingerprint => 0xf185,
            DataIdentifier::ActiveDiagnosticSession => 0xf186,
            DataIdentifier::VehicleManufacturerSparePartNumber => 0xf187,
            DataIdentifier::VehicleManufacturerEcuSoftwareNumber => 0xf188,
            DataIdentifier::VehicleManufacturerEcuSoftwareversionNumber => 0xf189,
            DataIdentifier::SystemSupplierIdentifier => 0xf18a,
            DataIdentifier::EcumanufacturingDate => 0xf18b,
            DataIdentifier::EcuSerialNumber => 0xf18c,
            DataIdentifier::SupportedFunctionalUnits => 0xf18d,
            DataIdentifier::VehicleManufacturerKitAssemblyPartNumber => 0xf18e,
            DataIdentifier::Vin => 0xf190,
            DataIdentifier::VehicleManufacturerEcuHardwareNumber => 0xf191,
            DataIdentifier::SystemSupplierEcuHardwareNumber => 0xf192,
            DataIdentifier::SystemSupplierEcuHardwareVersionNumber => 0xf193,
            DataIdentifier::SystemSupplierEcuSoftwareNumber => 0xf194,
            DataIdentifier::SystemSupplierEcuSoftwareVersionNumber => 0xf195,
            DataIdentifier::ExhaustRegulationOrTypeApprovalNumber => 0xf196,
            DataIdentifier::SystemNameOrEngineType => 0xf197,
            DataIdentifier::RepairShopCodeorTesterSerialNumber => 0xf198,
            DataIdentifier::ProgrammingDate => 0xf199,
            DataIdentifier::CalibrationRepairShopCodeOrCalibrationEquipmentSerialNumber => 0xf19a,
            DataIdentifier::CalibrationDate => 0xf19b,
            DataIdentifier::CalibrationEquipmentSoftwareNumber => 0xf19c,
            DataIdentifier::EcuInstallationDate => 0xf19d,
            DataIdentifier::OdxFile => 0xf19e,
            DataIdentifier::Entity => 0xf19f,
        }
    }
}

/// Diagnostic Session Type Sub-Function ID as defined in ISO 14229
#[derive(Debug, PartialEq, Eq, Structural, Copy, Clone)]
pub enum SessionType {
    Default,
    Programming,
    ExtendedDiagnostic,
    SafetySystemDiagnostic,
}

impl SessionType {
    /// The identifier's value on the wire.
    pub open spec fn spec_value(self) -> u8 {
        match self {
            SessionType::Default => 0x01,
            SessionType::Programming => 0x02,
            SessionType::ExtendedDiagnostic => 0x03,
            SessionType::SafetySystemDiagnostic => 0x04,
        }
    }

    /// The identifier's value on the wire.
    pub fn value(&self) -> (r: u8)
        ensures
            r == self.spec_value(),
    {
        match self {
            SessionType::Default => 0x01,
            SessionType::Programming => 0x02,
            SessionType::ExtendedDiagnostic => 0x03,
            SessionType::SafetySystemDiagnostic => 0x04,
        }
    }
}

/// ECU Reset Sub-Function ID as defined in ISO 14229
#[derive(Debug, PartialEq, Eq, Structural, Copy, Clone)]
pub enum ResetType {
    HardReset,
    KeyOffOnReset,
    SoftRest,
    EnableRapidPowerShutDown,
}

impl ResetType {
    /// The identifier's value on the wire.
    pub open spec fn spec_value(self) -> u8 {
        match self {
            ResetType::HardReset => 0x01,
            ResetType::KeyOffOnReset => 0x02,
            ResetType::SoftRest => 0x03,
            ResetType::EnableRapidPowerShutDown => 0x04,
        }
    }

    /// The identifier's value on the wire.
    pub fn value(&self) -> (r: u8)
        ensures
            r == self.spec_value(),
    {
        match self {
            ResetType::HardReset => 0x01,
            ResetType::KeyOffOnReset => 0x02,
            ResetType::SoftRest => 0x03,
            ResetType::EnableRapidPowerShutDown => 0x04,
        }
    }
}

/// Security Access Type Sub-Function ID as defined in ISO 14229
#[derive(Debug, PartialEq, Eq, Structural, Copy, Clone)]
pub enum SecurityAccessType {
    RequestSeed,
    SendKey,
}

impl SecurityAccessType {
    /// The identifier's value on the wire.
    pub open spec fn spec_value(self) -> u8 {
        match self {
            SecurityAccessType::RequestSeed => 0x01,
            SecurityAccessType::SendKey => 0x02,
        }
    }

    /// The identifier's value on the wire.
    pub fn value(&self) -> (r: u8)
        ensures
            r == self.spec_value(),
    {
        match self {
            SecurityAccessType::RequestSeed => 0x01,
            SecurityAccessType::SendKey => 0x02,
        }
    }
}

/// Routine Control Sub-Function ID as defined in ISO 14229
#[derive(Debug, PartialEq, Eq, Structural, Copy, Clone)]
pub enum RoutineControlType {
    Start,
    Stop,
    RequestResults,
}

impl RoutineControlType {
    /// The identifier's value on the wire.
    pub open spec fn spec_value(self) -> u8 {
        match self {
            RoutineControlType::Start => 0x01,
            RoutineControlType::Stop => 0x02,
            RoutineControlType::RequestResults => 0x03,
        }
    }

    /// The identifier's value on the wire.
    pub fn value(&self) -> (r: u8)
        ensures
            r == self.spec_value(),
    {
        match self {
            RoutineControlType::Start => 0x01,
            RoutineControlType::Stop => 0x02,
            RoutineControlType::RequestResults => 0x03,
        }
    }
}

/// Read DTC Information Sub-Function ID as defined in ISO 14229
#[derive(Debug, PartialEq, Eq, Structural, Copy, Clone)]
pub enum ReportType {
    ReportNumberOfDTCByStatusMask,
    ReportDTCByStatusMask,
    ReportDTCSnapshotIdentification,
    ReportDTCSnapshotRecordByDTCNumber,
    ReportDTCStoredDataByRecordNumber,
    ReportDTCExtDataRecordByDTCNumber,
    ReportNumberOfDTCBySeverityMaskRecord,
    ReportDTCBySeverityMaskRecord,
    ReportSeverityInformationOfDTC,
    ReportSupportedDTC,
    ReportFirstTestFailedDTC,
    ReportFirstConfirmedDTC,
    ReportMostRecentTestFailedDTC,
    ReportMostRecentConfirmedDTC,
    ReportMirrorMemoryDTCByStatusMask,
    ReportMirrorMemoryDTCExtDataRecordByDTCNumber,
    ReportNumberOfMirrorMemoryDTCByStatusMask,
    ReportNumberOfEmissionsOBDDTCByStatusMask,
    ReportEmissionsOBDDTCByStatusMask,
    ReportDTCFaultDetectionCounter,
    ReportDTCWithPermanentStatus,
    ReportDTCExtDataRecordByRecordNumber,
    ReportUserDefMemoryDTCByStatusMask,
    ReportUserDefMemoryDTCSnapshotRecordByDTCNumber,
    ReportUserDefMemoryDTCExtDataRecordByDTCNumber,
    ReportWWHOBDDTCWithPermanentStatus,
}

impl ReportType {
    /// The identifier's value on the wire.
    pub open spec fn spec_value(self) -> u8 {
        match self {
            ReportType::ReportNumberOfDTCByStatusMask => 0x01,
            ReportType::ReportDTCByStatusMask => 0x02,
            ReportType::ReportDTCSnapshotIdentification => 0x03,
            ReportType::ReportDTCSnapshotRecordByDTCNumber => 0x04,
            ReportType::ReportDTCStoredDataByRecordNumber => 0x05,
            ReportType::ReportDTCExtDataRecordByDTCNumber => 0x06,
            ReportType::ReportNumberOfDTCBySeverityMaskRecord => 0x07,
            ReportType::ReportDTCBySeverityMaskRecord => 0x08,
            ReportType::ReportSeverityInformationOfDTC => 0x09,
            ReportType::ReportSupportedDTC => 0x0a,
            ReportType::ReportFirstTestFailedDTC => 0x0b,
            ReportType::ReportFirstConfirmedDTC => 0x0c,
            ReportType::ReportMostRecentTestFailedDTC => 0x0d,
            ReportType::ReportMostRecentConfirmedDTC => 0x0f,
            ReportType::ReportMirrorMemoryDTCByStatusMask => 0x10,
            ReportType::ReportMirrorMemoryDTCExtDataRecordByDTCNumber => 0x11,
            ReportType::ReportNumberOfMirrorMemoryDTCByStatusMask => 0x12,
            ReportType::ReportNumberOfEmissionsOBDDTCByStatusMask => 0x13,
            ReportType::ReportEmissionsOBDDTCByStatusMask => 0x14,
            ReportType::ReportDTCFaultDetectionCounter => 0x15,
            ReportType::ReportDTCWithPermanentStatus => 0x16,
            ReportType::ReportDTCExtDataRecordByRecordNumber => 0x17,
            ReportType::ReportUserDefMemoryDTCByStatusMask => 0x18,
            ReportType::ReportUserDefMemoryDTCSnapshotRecordByDTCNumber => 0x19,
            ReportType::ReportUserDefMemoryDTCExtDataRecordByDTCNumber => 0x42,
            ReportType::ReportWWHOBDDTCWithPermanentStatus => 0x55,
        }
    }

    /// The identifier's value on the wire.
    pub fn value(&self) -> (r: u8)
        ensures
            r == self.spec_value(),
    {
        match self {
            ReportType::ReportNumberOfDTCByStatusMask => 0x01,
            ReportType::ReportDTCByStatusMask => 0x02,
            ReportType::ReportDTCSnapshotIdentification => 0x03,
            ReportType::ReportDTCSnapshotRecordByDTCNumber => 0x04,
            ReportType::ReportDTCStoredDataByRecordNumber => 0x05,
            ReportType::ReportDTCExtDataRecordByDTCNumber => 0x06,
            ReportType::ReportNumberOfDTCBySeverityMaskRecord => 0x07,
            ReportType::ReportDTCBySeverityMaskRecord => 0x08,
            ReportType::ReportSeverityInformationOfDTC => 0x09,
            ReportType::ReportSupportedDTC => 0x0a,
            ReportType::ReportFirstTestFailedDTC => 0x0b,
            ReportType::ReportFirstConfirmedDTC => 0x0c,
            ReportType::ReportMostRecentTestFailedDTC => 0x0d,
            ReportType::ReportMostRecentConfirmedDTC => 0x0f,
            ReportType::ReportMirrorMemoryDTCByStatusMask => 0x10,
            ReportType::ReportMirrorMemoryDTCExtDataRecordByDTCNumber => 0x11,
            ReportType::ReportNumberOfMirrorMemoryDTCByStatusMask => 0x12,
            ReportType::ReportNumberOfEmissionsOBDDTCByStatusMask => 0x13,
            ReportType::ReportEmissionsOBDDTCByStatusMask => 0x14,
            ReportType::ReportDTCFaultDetectionCounter => 0x15,
            ReportType::ReportDTCWithPermanentStatus => 0x16,
            ReportType::ReportDTCExtDataRecordByRecordNumber => 0x17,
            ReportType::ReportUserDefMemoryDTCByStatusMask => 0x18,
            ReportType::ReportUserDefMemoryDTCSnapshotRecordByDTCNumber => 0x19,
            ReportType::ReportUserDefMemoryDTCExtDataRecordByDTCNumber => 0x42,
            ReportType::ReportWWHOBDDTCWithPermanentStatus => 0x55,
        }
    }
}

} // verus!
