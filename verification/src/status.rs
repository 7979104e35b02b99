//! The closed set of UPS operating states and their descriptions.

use vstd::prelude::*;

verus! {

/// One operating state of the uninterruptible power supply, as decoded from
/// the timing pattern of its alarm beeps. `Unknown` stands for any beep
/// pattern that matches no row of the reference table.
#[derive(Clone, Copy, Debug, PartialEq, Eq, Structural)]
pub enum Status {
    OnMains,
    OnBattery,
    LowOnBattery,
    NoLoadOnBattery,
    OverloadOrShortCircuitOnBattery,
    OverloadOrShortCircuitOnMains,
    AdvanceLowRuntimeOnMains,
    OverTemperatureOnMains,
    OverTemperatureOnBatteryOrInternalError,
    ReplaceBattery,
    Unknown,
}

impl Status {
    /// The human-readable description of this status, as a sequence of
    /// characters.
    pub open spec fn spec_description(self) -> Seq<char> {
        match self {
            Status::OnMains => "On mains power, no issues detected"@,
            Status::OnBattery => "On battery power, no issues detected"@,
            Status::LowOnBattery => "Low battery, power backup will shut down in 1 minute"@,
            Status::NoLoadOnBattery => "Battery saver mode is enabled and power load is below 30W, power backup will shut down in 2 minutes"@,
            Status::OverloadOrShortCircuitOnBattery => "Overload or short circuit has occured on battery power, power backup will shut down in 5 minutes"@,
            Status::OverloadOrShortCircuitOnMains => "Overload or short circuit has occured on mains power"@,
            Status::AdvanceLowRuntimeOnMains => "Battery is on mains power and will have low runtime if it has to shift to battery power"@,
            Status::OverTemperatureOnMains => "Battery is over temperature on mains power"@,
            Status::OverTemperatureOnBatteryOrInternalError => "Battery is either over temperature on battery power or an internal error has occured"@,
            Status::ReplaceBattery => "Battery needs replacement"@,
            Status::Unknown => "Appropriate state could not be detected"@,
        }
    }

    /// Returns the human-readable description of this status.
    pub fn description(&self) -> (r: &'static str)
        ensures
            r@ == self.spec_description(),
    {
        match self {
            Status::OnMains => "On mains power, no issues detected",
            Status::OnBattery => "On battery power, no issues detected",
            Status::LowOnBattery => "Low battery, power backup will shut down in 1 minute",
            Status::NoLoadOnBattery => "Battery saver mode is enabled and power load is below 30W, power backup will shut down in 2 minutes",
            Status::OverloadOrShortCircuitOnBattery => "Overload or short circuit has occured on battery power, power backup will shut down in 5 minutes",
            Status::OverloadOrShortCircuitOnMains => "Overload or short circuit has occured on mains power",
            Status::AdvanceLowRuntimeOnMains => "Battery is on mains power and will have low runtime if it has to shift to battery power",
            Status::OverTemperatureOnMains => "Battery is over temperature on mains power",
            Status::OverTemperatureOnBatteryOrInternalError => "Battery is either over temperature on battery power or an internal error has occured",
            Status::ReplaceBattery => "Battery needs replacement",
            Status::Unknown => "Appropriate state could not be detected",
        }
    }
}

} // verus!
