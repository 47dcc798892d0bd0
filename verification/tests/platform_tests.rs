use asusctl::platform::boot_sound;
use asusctl::platform::panel_od_on_reload;
use asusctl::platform::panel_od_on_resume;
use asusctl::platform::post_boot_sound;
use asusctl::platform::set_boot_sound;
use asusctl::platform::supported_functions;
use asusctl::platform::GpuMode;
use asusctl::platform::PlatformProbe;
use asusctl::platform::RogBiosSupportedFunctions;

#[test]
fn boot_sound_is_the_last_byte() {
    assert_eq!(boot_sound(&[7, 0, 0, 0, 1]), 1);
    assert_eq!(boot_sound(&[7, 0, 0, 0, 0]), 0);
    assert_eq!(boot_sound(&[1]), 1);
    assert_eq!(boot_sound(&[1, 127]), 127);
}

#[test]
fn boot_sound_byte_is_read_as_signed() {
    assert_eq!(boot_sound(&[0, 128]), -128);
    assert_eq!(boot_sound(&[0, 255]), -1);
    assert_eq!(boot_sound(&[0, 200]), -56);
}

#[test]
fn unreadable_boot_sound_is_minus_one() {
    assert_eq!(post_boot_sound(None), -1);
    assert_eq!(post_boot_sound(Some(&[7, 0, 0, 0, 1])), 1);
    assert_eq!(post_boot_sound(Some(&[7, 0, 0, 0, 0])), 0);
}

#[test]
fn setting_boot_sound_changes_only_the_last_byte() {
    let mut data = vec![7, 0, 0, 0, 0];
    set_boot_sound(&mut data, true);
    assert_eq!(data, vec![7, 0, 0, 0, 1]);
    set_boot_sound(&mut data, true);
    assert_eq!(data, vec![7, 0, 0, 0, 1]);
    set_boot_sound(&mut data, false);
    assert_eq!(data, vec![7, 0, 0, 0, 0]);
    let mut one = vec![9];
    set_boot_sound(&mut one, true);
    assert_eq!(one, vec![1]);
    assert_eq!(boot_sound(&one), 1);
}

#[test]
fn supported_functions_follow_the_probe() {
    let probe = PlatformProbe { panel_od: true, dgpu_disable: false, egpu_enable: true, gpu_mux_mode: false };
    assert_eq!(
        supported_functions(Some(probe), true),
        RogBiosSupportedFunctions {
            post_sound: true,
            dgpu_only: false,
            panel_overdrive: true,
            dgpu_disable: false,
            egpu_enable: true,
        }
    );
    let other = PlatformProbe { panel_od: false, dgpu_disable: true, egpu_enable: false, gpu_mux_mode: true };
    assert_eq!(
        supported_functions(Some(other), false),
        RogBiosSupportedFunctions {
            post_sound: false,
            dgpu_only: true,
            panel_overdrive: false,
            dgpu_disable: true,
            egpu_enable: false,
        }
    );
}

#[test]
fn without_platform_only_the_boot_sound_counts() {
    assert_eq!(
        supported_functions(None, true),
        RogBiosSupportedFunctions {
            post_sound: true,
            dgpu_only: false,
            panel_overdrive: false,
            dgpu_disable: false,
            egpu_enable: false,
        }
    );
    assert!(!supported_functions(None, false).post_sound);
}

#[test]
fn gpu_mode_and_multiplexer() {
    assert_eq!(GpuMode::Discrete.to_mux(), 0);
    assert_eq!(GpuMode::Optimus.to_mux(), 1);
    assert_eq!(GpuMode::Integrated.to_mux(), 1);
    assert_eq!(GpuMode::Error.to_mux(), 1);
    assert_eq!(GpuMode::from_mux(0), GpuMode::Discrete);
    assert_eq!(GpuMode::from_mux(1), GpuMode::Optimus);
    assert_eq!(GpuMode::from_mux(255), GpuMode::Optimus);
    assert_eq!(GpuMode::from_mux(GpuMode::Discrete.to_mux()), GpuMode::Discrete);
    assert_eq!(GpuMode::from_mux(GpuMode::Optimus.to_mux()), GpuMode::Optimus);
    assert_eq!(GpuMode::from_read(Some(0)), GpuMode::Discrete);
    assert_eq!(GpuMode::from_read(Some(1)), GpuMode::Optimus);
    assert_eq!(GpuMode::from_read(None), GpuMode::Error);
}

#[test]
fn panel_overdrive_on_reload_and_resume() {
    assert!(panel_od_on_reload(Some(true)));
    assert!(!panel_od_on_reload(Some(false)));
    assert!(!panel_od_on_reload(None));
    assert_eq!(panel_od_on_resume(false, Some(true)), Some(true));
    assert_eq!(panel_od_on_resume(false, Some(false)), Some(false));
    assert_eq!(panel_od_on_resume(false, None), None);
    assert_eq!(panel_od_on_resume(true, Some(true)), None);
    assert_eq!(panel_od_on_resume(true, None), None);
}
