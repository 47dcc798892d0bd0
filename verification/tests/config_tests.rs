use asusctl::config_old::ConfigV212;
use asusctl::config_old::ConfigV222;
use asusctl::config_old::ConfigV301;
use asusctl::config_old::GfxVendors;

#[test]
fn config_v212_is_carried_over() {
    let old = ConfigV212 {
        gfx_managed: true,
        bat_charge_limit: 80,
        active_profile: String::from("normal"),
        toggle_profiles: vec![String::from("normal"), String::from("boost")],
        power_profiles: vec![(String::from("normal"), 1u8)],
        power_profile: 2,
        kbd_led_brightness: 3,
        kbd_backlight_mode: 4,
        kbd_backlight_modes: vec![5u16, 6],
    };
    let current = old.into_current();
    assert_eq!(current.gfx_mode, GfxVendors::Hybrid);
    assert!(current.gfx_managed);
    assert_eq!(current.active_profile, "normal");
    assert_eq!(current.toggle_profiles, vec!["normal", "boost"]);
    assert_eq!(current.curr_fan_mode, 2);
    assert_eq!(current.bat_charge_limit, 80);
    assert_eq!(current.kbd_led_brightness, 3);
    assert_eq!(current.kbd_backlight_mode, 4);
    assert_eq!(current.kbd_backlight_modes, vec![5, 6]);
    assert_eq!(current.power_profiles, vec![(String::from("normal"), 1)]);
}

#[test]
fn config_v222_is_carried_over() {
    let old = ConfigV222 {
        gfx_managed: false,
        bat_charge_limit: 100,
        active_profile: String::from("silent"),
        toggle_profiles: Vec::new(),
        power_profiles: 17u32,
        power_profile: 0,
        kbd_led_brightness: 1,
        kbd_backlight_mode: 2,
        kbd_backlight_modes: vec![String::from("static")],
    };
    let current = old.into_current();
    assert_eq!(current.gfx_mode, GfxVendors::Hybrid);
    assert!(!current.gfx_managed);
    assert_eq!(current.active_profile, "silent");
    assert!(current.toggle_profiles.is_empty());
    assert_eq!(current.curr_fan_mode, 0);
    assert_eq!(current.bat_charge_limit, 100);
    assert_eq!(current.kbd_led_brightness, 1);
    assert_eq!(current.kbd_backlight_mode, 2);
    assert_eq!(current.kbd_backlight_modes, vec![String::from("static")]);
    assert_eq!(current.power_profiles, 17);
}

#[test]
fn config_v301_is_carried_over() {
    for dedicated in [false, true] {
        let old = ConfigV301 {
            gfx_managed: true,
            gfx_nv_mode_is_dedicated: dedicated,
            active_profile: String::from("boost"),
            toggle_profiles: vec![String::from("boost")],
            curr_fan_mode: 9,
            bat_charge_limit: 60,
            kbd_led_brightness: 0,
            kbd_backlight_mode: 255,
            kbd_backlight_modes: Vec::<u8>::new(),
            power_profiles: (),
        };
        let current = old.into_current();
        assert_eq!(current.gfx_mode, GfxVendors::Hybrid);
        assert!(current.gfx_managed);
        assert_eq!(current.active_profile, "boost");
        assert_eq!(current.toggle_profiles, vec!["boost"]);
        assert_eq!(current.curr_fan_mode, 9);
        assert_eq!(current.bat_charge_limit, 60);
        assert_eq!(current.kbd_led_brightness, 0);
        assert_eq!(current.kbd_backlight_mode, 255);
        assert!(current.kbd_backlight_modes.is_empty());
    }
}
