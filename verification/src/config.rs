//! Compiled-in device identity: the values the BLE stack advertises and
//! reports in its device-information and HID characteristics. Pure
//! configuration around the transport; the values are fixed at build time.

use vstd::prelude::*;

verus! {

/// The device identity and HID configuration handed to the transport.
pub struct DeviceConfig {
    /// Advertised device name.
    pub name: &'static str,
    /// Manufacturer string.
    pub manufacturer: &'static str,
    /// Advertised appearance code; 0x03C2 is a generic mouse.
    pub appearance: u16,
    /// PnP ID source; 0x02 marks the vendor ID as a USB vendor ID.
    pub pnp_source: u8,
    /// Vendor ID reported in the PnP characteristic.
    pub vendor_id: u16,
    /// Product ID reported in the PnP characteristic.
    pub product_id: u16,
    /// Product version reported in the PnP characteristic.
    pub product_version: u16,
    /// HID country code; 0 means not localized.
    pub hid_country: u8,
    /// HID info flags; 0x02 means normally connectable.
    pub hid_flags: u8,
    /// Battery level reported to the host, 0 to 100.
    pub battery_level: u8,
    /// Whether the advertiser answers scan requests with a scan response.
    pub scan_response: bool,
}

impl DeviceConfig {
    /// A valid configuration: the battery level is a percentage.
    pub open spec fn wf(self) -> bool {
        self.battery_level <= 100
    }

    /// The configuration this device ships with.
    pub fn standard() -> (c: DeviceConfig)
        ensures
            c.name@ == "BTMouse"@,
            c.manufacturer@ == "ant.org"@,
            c.appearance == 0x03c2,
            c.pnp_source == 0x02,
            c.vendor_id == 0x05ac,
            c.product_id == 0x820a,
            c.product_version == 0x0210,
            c.hid_country == 0x00,
            c.hid_flags == 0x02,
            c.battery_level == 100,
            c.scan_response == false,
            c.wf(),
    {
        DeviceConfig {
            name: "BTMouse",
            manufacturer: "ant.org",
            appearance: 0x03c2,
            pnp_source: 0x02,
            vendor_id: 0x05ac,
            product_id: 0x820a,
            product_version: 0x0210,
            hid_country: 0x00,
            hid_flags: 0x02,
            battery_level: 100,
            scan_response: false,
        }
    }
}

} // verus!
