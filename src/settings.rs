use vstd::prelude::*;

verus! {

#[verifier::external_type_specification]
#[verifier::external_body]
pub struct ExConfig(config::Config);

/// What `config::Config::get_bool` finds for `key` in `config`.
pub uninterp spec fn config_bool(c: config::Config, key: Seq<char>) -> Option<bool>;

/// Relies on config::Config::get_bool: the value under `key` in the merged
/// configuration, converted to a boolean: a boolean as it is, a number as
/// true when nonzero, and the strings "1", "true", "on", "yes" and "0",
/// "false", "off", "no" in any letter case. Its result depends on the
/// configuration and the key alone;
/// its error (no such key, a malformed key, or a value that does not
/// convert) becomes `None`.
#[verifier::external_body]
fn lookup_bool(config: &config::Config, key: &str) -> (r: Option<bool>)
    ensures
        r == config_bool(*config, key@),
{
    config.get_bool(key).ok()
}

/// What the emulator is built with; fixed for its lifetime.
#[derive(Clone, Copy, Debug, PartialEq, Eq, Structural)]
pub struct Settings {
    pub jit: bool,
    pub graphics_enabled: bool,
    pub sound_enabled: bool,
    pub trace_cpu: bool,
    pub disassemble_functions: bool,
}

/// The settings when the configuration says nothing: graphics and sound on,
/// the JIT and both debug logs off.
pub open spec fn default_settings() -> Settings {
    Settings {
        jit: false,
        graphics_enabled: true,
        sound_enabled: true,
        trace_cpu: false,
        disassemble_functions: false,
    }
}

/// The value found in the configuration, or `default` where none was.
pub open spec fn found_or(found: Option<bool>, default: bool) -> bool {
    match found {
        Some(b) => b,
        None => default,
    }
}

impl Default for Settings {
    fn default() -> (r: Settings)
        ensures
            r == default_settings(),
    {
        Settings {
            jit: false,
            graphics_enabled: true,
            sound_enabled: true,
            trace_cpu: false,
            disassemble_functions: false,
        }
    }
}

/// The value found in the configuration, or `default` where none was.
pub fn setting_or(found: Option<bool>, default: bool) -> (r: bool)
    ensures
        r == found_or(found, default),
{
    match found {
        Some(b) => b,
        None => default,
    }
}

/// The boolean under `key` in `config`, or `default` where it holds none.
pub fn get_bool(config: &config::Config, key: &str, default: bool) -> (r: bool)
    ensures
        r == found_or(config_bool(*config, key@), default),
{
    setting_or(lookup_bool(config, key), default)
}

/// `defaults` with each setting replaced by the value found for it, where
/// one was found.
pub fn settings_with(
    defaults: Settings,
    jit: Option<bool>,
    graphics_enabled: Option<bool>,
    sound_enabled: Option<bool>,
    trace_cpu: Option<bool>,
    disassemble_functions: Option<bool>,
) -> (r: Settings)
    ensures
        r == (Settings {
            jit: found_or(jit, defaults.jit),
            graphics_enabled: found_or(graphics_enabled, defaults.graphics_enabled),
            sound_enabled: found_or(sound_enabled, defaults.sound_enabled),
            trace_cpu: found_or(trace_cpu, defaults.trace_cpu),
            disassemble_functions: found_or(disassemble_functions, defaults.disassemble_functions),
        }),
{
    Settings {
        jit: setting_or(jit, defaults.jit),
        graphics_enabled: setting_or(graphics_enabled, defaults.graphics_enabled),
        sound_enabled: setting_or(sound_enabled, defaults.sound_enabled),
        trace_cpu: setting_or(trace_cpu, defaults.trace_cpu),
        disassemble_functions: setting_or(disassemble_functions, defaults.disassemble_functions),
    }
}

/// The settings that `config` asks for: `jit`, `graphics_enabled`,
/// `sound_enabled`, `debug.trace_cpu` and `debug.disassemble_functions`,
/// each falling back to its default where the configuration holds none.
pub fn make_emulator_settings(config: &config::Config) -> (r: Settings)
    ensures
        r == (Settings {
            jit: found_or(config_bool(*config, "jit"@), default_settings().jit),
            graphics_enabled: found_or(
                config_bool(*config, "graphics_enabled"@),
                default_settings().graphics_enabled,
            ),
            sound_enabled: found_or(
                config_bool(*config, "sound_enabled"@),
                default_settings().sound_enabled,
            ),
            trace_cpu: found_or(
                config_bool(*config, "debug.trace_cpu"@),
                default_settings().trace_cpu,
            ),
            disassemble_functions: found_or(
                config_bool(*config, "debug.disassemble_functions"@),
                default_settings().disassemble_functions,
            ),
        }),
{
    let defaults = Settings::default();
    let jit = lookup_bool(config, "jit");
    let g = lookup_bool(config, "graphics_enabled");
    let s = lookup_bool(config, "sound_enabled");
    let t = lookup_bool(config, "debug.trace_cpu");
    let d = lookup_bool(config, "debug.disassemble_functions");
    settings_with(defaults, jit, g, s, t, d)
}

} // verus!
