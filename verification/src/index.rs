//! The firmware that a device should run, as the device registry has it, and
//! the way back: the firmware status of the device.

use vstd::prelude::*;

use crate::metadata::Metadata;
use crate::protocol::Status;
use crate::schema::FirmwareSpec;
use crate::metadata::MetadataView;
use crate::protocol::StatusView;
use crate::status::{merged_status, update_status, FirmwareStatus, FirmwareStatusView};

verus! {

/// Access to the registry of applications and devices. Nothing is promised
/// of what an implementation answers.
pub trait DeviceRegistry {
    /// The firmware section of the specification of a device, if the device
    /// exists and has one.
    fn device_spec(&self, application: &str, device: &str) -> Result<Option<FirmwareSpec>, String>;

    /// The firmware section of the specification of an application, if the
    /// application exists and has one.
    fn application_spec(&self, application: &str) -> Result<Option<FirmwareSpec>, String>;

    /// The firmware section of the status of a device: nothing where the
    /// device does not exist, and nothing inside where it has no such section.
    fn device_status(&self, application: &str, device: &str) -> Result<
        Option<Option<FirmwareStatus>>,
        String,
    >;

    /// Replaces the firmware section of the status of a device.
    fn write_status(&self, application: &str, device: &str, status: FirmwareStatus) -> Result<
        (),
        String,
    >;
}

/// The specification that counts: that of the device, and that of the
/// application only where the device has none.
pub open spec fn effective_spec(device: Option<FirmwareSpec>, application: Option<FirmwareSpec>)
    -> Option<FirmwareSpec> {
    match device {
        Some(spec) => Some(spec),
        None => application,
    }
}

/// Picks the specification that counts.
pub fn resolve(device: Option<FirmwareSpec>, application: Option<FirmwareSpec>) -> (spec: Option<
    FirmwareSpec,
>)
    ensures
        spec == effective_spec(device, application),
{
    match device {
        Some(spec) => Some(spec),
        None => application,
    }
}

/// The registry, asked about firmware.
pub struct Index<C: DeviceRegistry> {
    client: C,
}

/// `outcome` is what the registry `client` may say that `device` of
/// `application` should run: what it answers for the device, where that is a
/// specification or a failure; else what it answers for the application.
pub open spec fn is_latest_version<C: DeviceRegistry>(
    client: C,
    application: &str,
    device: &str,
    outcome: Result<Option<FirmwareSpec>, String>,
) -> bool {
    exists|of_device: Result<Option<FirmwareSpec>, String>|
        {
            &&& #[trigger] call_ensures(C::device_spec, (&client, application, device), of_device)
            &&& match of_device {
                Ok(Some(spec)) => outcome == Ok::<Option<FirmwareSpec>, String>(
                    effective_spec(Some(spec), None),
                ),
                Ok(None) => exists|of_application: Result<Option<FirmwareSpec>, String>|
                    {
                        &&& #[trigger] call_ensures(
                            C::application_spec,
                            (&client, application),
                            of_application,
                        )
                        &&& outcome == match of_application {
                            Ok(spec) => Ok(effective_spec(None, spec)),
                            Err(e) => Err(e),
                        }
                    },
                Err(e) => outcome == Err::<Option<FirmwareSpec>, String>(e),
            }
        }
}

/// The firmware status of a device that has none yet: no conditions, and
/// no versions.
pub open spec fn no_status() -> FirmwareStatusView {
    FirmwareStatusView {
        conditions: Seq::empty(),
        current: Seq::<char>::empty(),
        target: Seq::<char>::empty(),
    }
}

/// `outcome` is what bringing the firmware status of `device` of
/// `application` up to date may give, with the registry `client`.
///
/// The registry is asked for the status of the device. Its failure is the
/// outcome. A device that it does not know is left alone, which is a
/// success. Else the status that it has, or an empty one where it has none,
/// is merged with what the device reported and what the store said, and the
/// outcome is what writing the merged status back may give.
pub open spec fn is_status_update<C: DeviceRegistry>(
    client: C,
    application: &str,
    device: &str,
    status: StatusView,
    data: Result<MetadataView, Seq<char>>,
    outcome: Result<(), String>,
) -> bool {
    exists|found: Result<Option<Option<FirmwareStatus>>, String>|
        {
            &&& #[trigger] call_ensures(C::device_status, (&client, application, device), found)
            &&& match found {
                Ok(Some(section)) => exists|merged: FirmwareStatus|
                    {
                        &&& merged@ == merged_status(
                            match section {
                                Some(firmware) => firmware@,
                                None => no_status(),
                            },
                            status,
                            data,
                        )
                        &&& #[trigger] call_ensures(
                            C::write_status,
                            (&client, application, device, merged),
                            outcome,
                        )
                    },
                Ok(None) => outcome == Ok::<(), String>(()),
                Err(e) => outcome == Err::<(), String>(e),
            }
        }
}

impl<C: DeviceRegistry> Index<C> {
    /// The registry that is asked.
    pub closed spec fn client(&self) -> C {
        self.client
    }

    /// An index on top of `client`.
    pub fn new(client: C) -> (index: Self)
        ensures
            index.client() == client,
    {
        Index { client }
    }

    /// The firmware that `device` of `application` should run: what the
    /// device says, else what the application says. The application is only
    /// asked where the device says nothing.
    pub fn latest_version(&self, application: &str, device: &str) -> (outcome: Result<
        Option<FirmwareSpec>,
        String,
    >)
        ensures
            is_latest_version(self.client(), application, device, outcome),
    {
        match self.client.device_spec(application, device) {
            Ok(Some(spec)) => Ok(resolve(Some(spec), None)),
            Ok(None) => match self.client.application_spec(application) {
                Ok(spec) => Ok(resolve(None, spec)),
                Err(e) => Err(e),
            },
            Err(e) => Err(e),
        }
    }

    /// Brings the firmware status of `device` up to date and writes it back.
    /// A device that the registry does not know is left alone.
    pub fn update_status(
        &self,
        application: &str,
        device: &str,
        status: &Status,
        data: Result<&Metadata, String>,
    ) -> (outcome: Result<(), String>)
        ensures
            is_status_update(
                self.client(),
                application,
                device,
                status@,
                crate::status::data_view(data),
                outcome,
            ),
    {
        let found = self.client.device_status(application, device);
        match found {
            Ok(Some(section)) => {
                let mut firmware = match section {
                    Some(firmware) => firmware,
                    None => FirmwareStatus::default(),
                };
                update_status(&mut firmware, status, data);
                let ghost merged = firmware;
                let outcome = self.client.write_status(application, device, firmware);
                assert(call_ensures(
                    C::write_status,
                    (&self.client, application, device, merged),
                    outcome,
                ));
                outcome
            },
            Ok(None) => Ok(()),
            Err(e) => Err(e),
        }
    }
}

} // verus!
