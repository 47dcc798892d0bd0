//! The decisions of the platform controller that need no hardware: what the
//! firmware's boot-sound variable says, what is written back to it, which
//! functions a machine supports, and what to do when the machine wakes up.
//!
//! Reading and writing the firmware variable, the GPU multiplexer and the panel
//! overdrive switch is the caller's business; it hands in what it read and
//! carries out what comes back.
use vstd::prelude::*;

verus! {

/// Which graphics device drives the display.
#[derive(Clone, Copy, Debug, PartialEq, Eq, Structural)]
pub enum GpuMode {
    /// The discrete GPU alone.
    Discrete,
    /// The integrated GPU, with the discrete one on demand.
    Optimus,
    /// The integrated GPU alone.
    Integrated,
    /// An external GPU.
    Egpu,
    /// The discrete GPU is handed to a virtual machine.
    Vfio,
    /// The discrete GPU drives the display through the multiplexer.
    Ultimate,
    /// The mode could not be read.
    Error,
    /// The machine has no such switch.
    NotSupported,
}

impl GpuMode {
    /// The value of the GPU multiplexer for a mode: 0 for the discrete GPU, 1 for
    /// every other mode.
    pub open spec fn mux(self) -> u8 {
        if self == GpuMode::Discrete {
            0
        } else {
            1
        }
    }

    /// The mode that a value of the GPU multiplexer stands for: 0 is the discrete
    /// GPU, every other value is Optimus.
    pub open spec fn of_mux(value: u8) -> GpuMode {
        if value == 0 {
            GpuMode::Discrete
        } else {
            GpuMode::Optimus
        }
    }

    /// The value to write to the GPU multiplexer for this mode.
    pub fn to_mux(&self) -> (value: u8)
        ensures
            value == self.mux(),
    {
        match self {
            GpuMode::Discrete => 0,
            _ => 1,
        }
    }

    /// The mode that a value read from the GPU multiplexer stands for.
    pub fn from_mux(value: u8) -> (mode: Self)
        ensures
            mode == Self::of_mux(value),
    {
        if value == 0 {
            GpuMode::Discrete
        } else {
            GpuMode::Optimus
        }
    }

    /// The mode to report for an attempt to read the GPU multiplexer: the mode
    /// that the value stands for, or `Error` where the read failed.
    pub fn from_read(read: Option<u8>) -> (mode: Self)
        ensures
            mode == match read {
                Some(value) => Self::of_mux(value),
                None => GpuMode::Error,
            },
    {
        match read {
            Some(value) => Self::from_mux(value),
            None => GpuMode::Error,
        }
    }
}

/// What is written to the multiplexer for a mode reads back as that mode, for the
/// two modes that the multiplexer knows.
pub proof fn lemma_mux_round_trip(mode: GpuMode)
    requires
        mode == GpuMode::Discrete || mode == GpuMode::Optimus,
    ensures
        GpuMode::of_mux(mode.mux()) == mode,
{
}

/// What a look at the platform's switches found.
#[derive(Clone, Copy, Debug, PartialEq, Eq, Structural)]
pub struct PlatformProbe {
    /// There is a panel overdrive switch.
    pub panel_od: bool,
    /// There is a switch that disables the discrete GPU.
    pub dgpu_disable: bool,
    /// There is a switch that enables an external GPU.
    pub egpu_enable: bool,
    /// There is a GPU multiplexer.
    pub gpu_mux_mode: bool,
}

/// The firmware functions that a machine supports.
#[derive(Clone, Copy, Debug, PartialEq, Eq, Structural)]
pub struct RogBiosSupportedFunctions {
    pub post_sound: bool,
    pub dgpu_only: bool,
    pub panel_overdrive: bool,
    pub dgpu_disable: bool,
    pub egpu_enable: bool,
}

/// The functions that a machine supports, from a look at the platform's switches
/// and at the boot-sound variable. Where the platform could not be opened, none of
/// its switches counts as present.
pub fn supported_functions(probe: Option<PlatformProbe>, post_sound: bool) -> (supported:
    RogBiosSupportedFunctions)
    ensures
        supported.post_sound == post_sound,
        probe matches Some(p) ==> {
            &&& supported.dgpu_only == p.gpu_mux_mode
            &&& supported.panel_overdrive == p.panel_od
            &&& supported.dgpu_disable == p.dgpu_disable
            &&& supported.egpu_enable == p.egpu_enable
        },
        probe is None ==> {
            &&& !supported.dgpu_only
            &&& !supported.panel_overdrive
            &&& !supported.dgpu_disable
            &&& !supported.egpu_enable
        },
{
    let mut panel_overdrive: bool = false;
    let mut dgpu_disable: bool = false;
    let mut egpu_enable: bool = false;
    let mut dgpu_only: bool = false;
    if let Some(platform) = probe {
        panel_overdrive = platform.panel_od;
        dgpu_disable = platform.dgpu_disable;
        egpu_enable = platform.egpu_enable;
        dgpu_only = platform.gpu_mux_mode;
    }
    RogBiosSupportedFunctions { post_sound, dgpu_only, panel_overdrive, dgpu_disable, egpu_enable }
}

/// A byte read as a signed number: values from 128 on stand for the negative
/// numbers from -128 on.
pub open spec fn signed(byte: u8) -> int {
    if byte < 128 {
        byte as int
    } else {
        byte as int - 256
    }
}

/// The boot-sound setting that the firmware variable holds: its last byte, read
/// as a signed number.
pub fn boot_sound(data: &[u8]) -> (setting: i8)
    requires
        data@.len() > 0,
    ensures
        setting == signed(data@[data@.len() - 1]),
{
    let last: u8 = data[data.len() - 1];
    if last < 128 {
        last as i8
    } else {
        (last as i16 - 256) as i8
    }
}

/// The boot-sound setting to report for an attempt to read the firmware variable:
/// the setting that it holds, or -1 where nothing could be read. A variable that
/// was read holds at least one byte.
pub fn post_boot_sound(read: Option<&[u8]>) -> (setting: i8)
    requires
        read matches Some(data) ==> data@.len() > 0,
    ensures
        setting == match read {
            Some(data) => signed(data@[data@.len() - 1]),
            None => -1,
        },
{
    match read {
        Some(data) => boot_sound(data),
        None => -1,
    }
}

/// Puts the boot-sound setting into what was read from the firmware variable, for
/// writing back: the last byte becomes 1 for on and 0 for off, and every other
/// byte stays.
pub fn set_boot_sound(data: &mut Vec<u8>, on: bool)
    requires
        old(data)@.len() > 0,
    ensures
        final(data)@ == old(data)@.update(old(data)@.len() - 1, if on {
            1u8
        } else {
            0u8
        }),
{
    let idx: usize = data.len() - 1;
    if on {
        data.set(idx, 1);
    } else {
        data.set(idx, 0);
    }
}

/// The panel overdrive setting to apply when the controller is reloaded: the one
/// in the configuration, or off where the configuration is held by someone else.
pub fn panel_od_on_reload(config: Option<bool>) -> (enable: bool)
    ensures
        enable == match config {
            Some(panel_od) => panel_od,
            None => false,
        },
{
    match config {
        Some(panel_od) => panel_od,
        None => false,
    }
}

/// What to do on a notice that the machine goes to sleep or shuts down (`start`)
/// or has come back (`!start`): on coming back, apply the panel overdrive setting
/// of the configuration, if the configuration can be had; in every other case, do
/// nothing.
pub fn panel_od_on_resume(start: bool, config: Option<bool>) -> (apply: Option<bool>)
    ensures
        apply == if start {
            None
        } else {
            config
        },
{
    if !start {
        config
    } else {
        None
    }
}

} // verus!
