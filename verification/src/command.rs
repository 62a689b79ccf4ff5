use vstd::prelude::*;

verus! {

/// The controller opcodes the driver uses, as the datasheet defines them.
#[derive(Clone, Copy, Debug, PartialEq, Eq)]
pub enum Command {
    /// Panel operating mode.
    PanelSetting,
    /// Voltage rail configuration.
    PowerSetting,
    /// Disable panel power rails.
    PowerOff,
    /// Enable panel power rails.
    PowerOn,
    /// Enter the low-power state; requires the check byte `0xA5`.
    DeepSleep,
    /// Begin the "old image" channel write.
    DataStartTransmission1,
    /// Trigger the visible redraw.
    DisplayRefresh,
    /// Begin the "new image" channel write.
    DataStartTransmission2,
    /// Enable or disable dual-bus transfer mode.
    DualSPI,
    /// Common-voltage and refresh timing.
    VcomAndDataIntervalSetting,
    /// Non-overlap timing parameters.
    TconSetting,
    /// Declare the panel width and height to the controller.
    TconResolution,
}

impl Command {
    /// The one-byte opcode of this command.
    pub open spec fn spec_code(self) -> u8 {
        match self {
            Command::PanelSetting => 0x00,
            Command::PowerSetting => 0x01,
            Command::PowerOff => 0x02,
            Command::PowerOn => 0x04,
            Command::DeepSleep => 0x07,
            Command::DataStartTransmission1 => 0x10,
            Command::DisplayRefresh => 0x12,
            Command::DataStartTransmission2 => 0x13,
            Command::DualSPI => 0x15,
            Command::VcomAndDataIntervalSetting => 0x50,
            Command::TconSetting => 0x60,
            Command::TconResolution => 0x61,
        }
    }

    /// The one-byte opcode of this command.
    #[verifier::when_used_as_spec(spec_code)]
    pub fn code(self) -> (r: u8)
        ensures
            r == self.spec_code(),
    {
        match self {
            Command::PanelSetting => 0x00,
            Command::PowerSetting => 0x01,
            Command::PowerOff => 0x02,
            Command::PowerOn => 0x04,
            Command::DeepSleep => 0x07,
            Command::DataStartTransmission1 => 0x10,
            Command::DisplayRefresh => 0x12,
            Command::DataStartTransmission2 => 0x13,
            Command::DualSPI => 0x15,
            Command::VcomAndDataIntervalSetting => 0x50,
            Command::TconSetting => 0x60,
            Command::TconResolution => 0x61,
        }
    }
}

} // verus!
