//! Configurations as earlier versions of the daemon wrote them, and how each is
//! carried over into the current one.
//!
//! What a configuration holds of power profiles and of keyboard backlight modes is
//! only carried along, so both are left open here as type parameters.
use vstd::prelude::*;

verus! {

/// Which graphics device the machine is set up for.
#[derive(Clone, Copy, Debug, PartialEq, Eq, Structural)]
pub enum GfxVendors {
    Nvidia,
    Integrated,
    Compute,
    Vfio,
    Hybrid,
}

/// The current configuration.
#[derive(Debug)]
pub struct Config<Profiles, Mode> {
    pub gfx_mode: GfxVendors,
    pub gfx_managed: bool,
    pub active_profile: String,
    pub toggle_profiles: Vec<String>,
    pub curr_fan_mode: u8,
    pub bat_charge_limit: u8,
    pub kbd_led_brightness: u8,
    pub kbd_backlight_mode: u8,
    pub kbd_backlight_modes: Vec<Mode>,
    pub power_profiles: Profiles,
}

/// The configuration of version 2.1.2.
#[derive(Debug)]
pub struct ConfigV212<Profiles, Mode> {
    pub gfx_managed: bool,
    pub bat_charge_limit: u8,
    pub active_profile: String,
    pub toggle_profiles: Vec<String>,
    pub power_profiles: Profiles,
    pub power_profile: u8,
    pub kbd_led_brightness: u8,
    pub kbd_backlight_mode: u8,
    pub kbd_backlight_modes: Vec<Mode>,
}

impl<Profiles, Mode> ConfigV212<Profiles, Mode> {
    /// The current configuration with everything that this one holds. The
    /// graphics mode, which this version did not know, is hybrid; the power
    /// profile number becomes the fan mode.
    pub fn into_current(self) -> (current: Config<Profiles, Mode>)
        ensures
            current == (Config {
                gfx_mode: GfxVendors::Hybrid,
                gfx_managed: self.gfx_managed,
                active_profile: self.active_profile,
                toggle_profiles: self.toggle_profiles,
                curr_fan_mode: self.power_profile,
                bat_charge_limit: self.bat_charge_limit,
                kbd_led_brightness: self.kbd_led_brightness,
                kbd_backlight_mode: self.kbd_backlight_mode,
                kbd_backlight_modes: self.kbd_backlight_modes,
                power_profiles: self.power_profiles,
            }),
    {
        Config {
            gfx_mode: GfxVendors::Hybrid,
            gfx_managed: self.gfx_managed,
            active_profile: self.active_profile,
            toggle_profiles: self.toggle_profiles,
            curr_fan_mode: self.power_profile,
            bat_charge_limit: self.bat_charge_limit,
            kbd_led_brightness: self.kbd_led_brightness,
            kbd_backlight_mode: self.kbd_backlight_mode,
            kbd_backlight_modes: self.kbd_backlight_modes,
            power_profiles: self.power_profiles,
        }
    }
}

/// The configuration of version 2.2.2.
#[derive(Debug)]
pub struct ConfigV222<Profiles, Mode> {
    pub gfx_managed: bool,
    pub bat_charge_limit: u8,
    pub active_profile: String,
    pub toggle_profiles: Vec<String>,
    pub power_profiles: Profiles,
    pub power_profile: u8,
    pub kbd_led_brightness: u8,
    pub kbd_backlight_mode: u8,
    pub kbd_backlight_modes: Vec<Mode>,
}

impl<Profiles, Mode> ConfigV222<Profiles, Mode> {
    /// The current configuration with everything that this one holds. The
    /// graphics mode, which this version did not know, is hybrid; the power
    /// profile number becomes the fan mode.
    pub fn into_current(self) -> (current: Config<Profiles, Mode>)
        ensures
            current == (Config {
                gfx_mode: GfxVendors::Hybrid,
                gfx_managed: self.gfx_managed,
                active_profile: self.active_profile,
                toggle_profiles: self.toggle_profiles,
                curr_fan_mode: self.power_profile,
                bat_charge_limit: self.bat_charge_limit,
                kbd_led_brightness: self.kbd_led_brightness,
                kbd_backlight_mode: self.kbd_backlight_mode,
                kbd_backlight_modes: self.kbd_backlight_modes,
                power_profiles: self.power_profiles,
            }),
    {
        Config {
            gfx_mode: GfxVendors::Hybrid,
            gfx_managed: self.gfx_managed,
            active_profile: self.active_profile,
            toggle_profiles: self.toggle_profiles,
            curr_fan_mode: self.power_profile,
            bat_charge_limit: self.bat_charge_limit,
            kbd_led_brightness: self.kbd_led_brightness,
            kbd_backlight_mode: self.kbd_backlight_mode,
            kbd_backlight_modes: self.kbd_backlight_modes,
            power_profiles: self.power_profiles,
        }
    }
}

/// The configuration of version 3.0.1.
#[derive(Debug)]
pub struct ConfigV301<Profiles, Mode> {
    pub gfx_managed: bool,
    pub gfx_nv_mode_is_dedicated: bool,
    pub active_profile: String,
    pub toggle_profiles: Vec<String>,
    /// Not stored: a configuration that was read from disk holds 0 here.
    pub curr_fan_mode: u8,
    pub bat_charge_limit: u8,
    pub kbd_led_brightness: u8,
    pub kbd_backlight_mode: u8,
    pub kbd_backlight_modes: Vec<Mode>,
    pub power_profiles: Profiles,
}

impl<Profiles, Mode> ConfigV301<Profiles, Mode> {
    /// The current configuration with everything that this one holds. The
    /// graphics mode is hybrid, whether or not the dedicated mode was set.
    pub fn into_current(self) -> (current: Config<Profiles, Mode>)
        ensures
            current == (Config {
                gfx_mode: GfxVendors::Hybrid,
                gfx_managed: self.gfx_managed,
                active_profile: self.active_profile,
                toggle_profiles: self.toggle_profiles,
                curr_fan_mode: self.curr_fan_mode,
                bat_charge_limit: self.bat_charge_limit,
                kbd_led_brightness: self.kbd_led_brightness,
                kbd_backlight_mode: self.kbd_backlight_mode,
                kbd_backlight_modes: self.kbd_backlight_modes,
                power_profiles: self.power_profiles,
            }),
    {
        Config {
            gfx_mode: GfxVendors::Hybrid,
            gfx_managed: self.gfx_managed,
            active_profile: self.active_profile,
            toggle_profiles: self.toggle_profiles,
            curr_fan_mode: self.curr_fan_mode,
            bat_charge_limit: self.bat_charge_limit,
            kbd_led_brightness: self.kbd_led_brightness,
            kbd_backlight_mode: self.kbd_backlight_mode,
            kbd_backlight_modes: self.kbd_backlight_modes,
            power_profiles: self.power_profiles,
        }
    }
}

} // verus!
