use corrosion::{get_bool, get_movie_file, make_emulator_settings, setting_or, settings_with, Settings};

fn defaults() -> Settings {
    Settings {
        jit: false,
        graphics_enabled: true,
        sound_enabled: true,
        trace_cpu: false,
        disassemble_functions: false,
    }
}

#[test]
fn default_settings_values() {
    assert_eq!(Settings::default(), defaults());
}

#[test]
fn setting_or_prefers_found_value() {
    assert_eq!(setting_or(Some(false), true), false);
    assert_eq!(setting_or(Some(true), false), true);
    assert_eq!(setting_or(None, true), true);
}

#[test]
fn settings_with_replaces_found_values() {
    let s = settings_with(defaults(), Some(true), None, Some(false), None, Some(true));
    assert_eq!(
        s,
        Settings {
            jit: true,
            graphics_enabled: true,
            sound_enabled: false,
            trace_cpu: false,
            disassemble_functions: true,
        }
    );
}

#[test]
fn empty_config_gives_defaults() {
    let config = config::Config::builder().build().unwrap();
    assert_eq!(make_emulator_settings(&config), defaults());
    assert_eq!(get_bool(&config, "debug.mousepick", false), false);
    assert_eq!(get_bool(&config, "debug.mousepick", true), true);
}

#[test]
fn config_values_override_defaults() {
    let config = config::Config::builder()
        .set_override("jit", true)
        .unwrap()
        .set_override("sound_enabled", false)
        .unwrap()
        .set_override("debug.trace_cpu", true)
        .unwrap()
        .set_override("graphics_enabled", "maybe")
        .unwrap()
        .build()
        .unwrap();
    assert_eq!(
        make_emulator_settings(&config),
        Settings {
            jit: true,
            graphics_enabled: true,
            sound_enabled: false,
            trace_cpu: true,
            disassemble_functions: false,
        }
    );
    assert_eq!(get_bool(&config, "jit", false), true);
}

fn args(a: &[&str]) -> Vec<String> {
    a.iter().map(|s| s.to_string()).collect()
}

#[test]
fn movie_file_follows_flag() {
    assert_eq!(get_movie_file(&args(&["emu", "rom.nes", "--movie", "run.fm2"])), Some("run.fm2".to_string()));
    assert_eq!(
        get_movie_file(&args(&["emu", "--movie", "a.fm2", "--movie", "b.fm2"])),
        Some("a.fm2".to_string())
    );
}

#[test]
fn movie_file_absent() {
    assert_eq!(get_movie_file(&args(&[])), None);
    assert_eq!(get_movie_file(&args(&["emu", "rom.nes"])), None);
    assert_eq!(get_movie_file(&args(&["emu", "rom.nes", "--movie"])), None);
}

#[test]
fn config_values_convert_to_booleans() {
    let config = config::Config::builder()
        .set_override("jit", "yes")
        .unwrap()
        .set_override("graphics_enabled", "OFF")
        .unwrap()
        .set_override("sound_enabled", 0)
        .unwrap()
        .set_override("debug.disassemble_functions", 7)
        .unwrap()
        .build()
        .unwrap();
    assert_eq!(
        make_emulator_settings(&config),
        Settings {
            jit: true,
            graphics_enabled: false,
            sound_enabled: false,
            trace_cpu: false,
            disassemble_functions: true,
        }
    );
    assert_eq!(get_bool(&config, "graphics_enabled", true), false);
    assert_eq!(get_bool(&config, "debug", true), true);
}
