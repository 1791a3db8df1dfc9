//! A controller's configuration as discovery reports it.

use vstd::prelude::*;
use crate::calendar::Date;
use crate::error::UhppoteError;
use crate::messages::get_config::GetConfigResponse;
use crate::wire::Ipv4;

verus! {

/// What a controller tells about itself: its identifier, addressing, MAC,
/// firmware version, and manufacture date.
#[derive(Clone, Debug)]
pub struct DeviceConfig {
    pub id: u32,
    pub address: Ipv4,
    pub subnet: Ipv4,
    pub gateway: Ipv4,
    pub mac: String,
    pub version: String,
    pub date: Date,
}

impl GetConfigResponse {
    /// The configuration record this response reports; fails when the
    /// manufacture date is no real date.
    pub fn to_device_config(&self) -> (r: Result<DeviceConfig, UhppoteError>)
        ensures
            r is Ok <==> self.date.spec_to_date() is Ok,
            r matches Ok(c) ==> c.id == self.device_id && c.address == self.ip_address && c.subnet
                == self.subnet && c.gateway == self.gateway && c.mac@ == self.mac.spec_display()
                && c.version@ == self.version.spec_display() && Ok::<Date, UhppoteError>(c.date)
                == self.date.spec_to_date(),
            self.date.spec_to_date() matches Err(e) ==> r == Err::<DeviceConfig, UhppoteError>(e),
    {
        let date = match self.date.to_date() {
            Ok(d) => d,
            Err(e) => {
                return Err(e);
            },
        };
        Ok(
            DeviceConfig {
                id: self.device_id,
                address: self.ip_address,
                subnet: self.subnet,
                gateway: self.gateway,
                mac: self.mac.display_string(),
                version: self.version.display_string(),
                date,
            },
        )
    }
}

} // verus!
