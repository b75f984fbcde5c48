use rounal::config::{Color, Config, DebugLevel, Options, Palette, Priority};
use rounal::styles::Styler;
use rounal::system::{Active, Load, Preset, State, Sub};
use rounal::util::{
    get_active_color_str, get_load_color_str, get_preset_color_str, get_state_color_str,
    get_sub_color_str, map_to_priority_str, PadStr,
};

fn config(level: &str) -> Config {
    Config {
        palette: Palette {
            red: [200, 1, 2],
            black: [0, 0, 0],
            blue: [3, 4, 250],
            white: [255, 255, 254],
            gray: [128, 128, 128],
            green: [5, 201, 6],
        },
        priority: Priority {
            emerg: [211, 10, 39],
            alert: [198, 19, 22],
            err: [206, 70, 6],
            warn: [235, 82, 5],
            notice: [1, 2, 3],
            info: [4, 5, 6],
            debug: [7, 8, 9],
            unknown: [10, 11, 12],
        },
        options: Options {
            description: true,
            yank: "y".to_string(),
            initial_priority: 4,
            debug_level: level.to_string(),
            command_format: String::new(),
        },
    }
}

#[test]
fn level_names_any_case() {
    assert_eq!(config("DEBUG").options.to_level_filter(), DebugLevel::Debug);
    assert_eq!(config("Warn").options.to_level_filter(), DebugLevel::Warn);
    assert_eq!(config("error").options.to_level_filter(), DebugLevel::Error);
    assert_eq!(config("info").options.to_level_filter(), DebugLevel::Info);
    assert_eq!(config("TRACE").options.to_level_filter(), DebugLevel::Trace);
    assert_eq!(config("verbose").options.to_level_filter(), DebugLevel::Off);
    assert_eq!(config("").options.to_level_filter(), DebugLevel::Off);
}

#[test]
fn palette_lookup() {
    let c = config("info");
    assert_eq!(c.get_palette_color("red"), Color::Rgb(200, 1, 2));
    assert_eq!(c.get_palette_color("blue"), Color::Rgb(3, 4, 250));
    assert_eq!(c.get_palette_color("green"), Color::Rgb(5, 201, 6));
    assert_eq!(c.get_palette_color("gray"), Color::Rgb(128, 128, 128));
    assert_eq!(c.get_palette_color("black"), Color::Rgb(0, 0, 0));
    assert_eq!(c.get_palette_color("white"), Color::Rgb(255, 255, 254));
    assert_eq!(c.get_palette_color("yellow"), Color::White);
    assert_eq!(c.get_palette_color("Red"), Color::White);
}

#[test]
fn priority_colour_lookup() {
    let c = config("info");
    assert_eq!(c.get_priority_color("emerg"), Color::Rgb(211, 10, 39));
    assert_eq!(c.get_priority_color("warn"), Color::Rgb(235, 82, 5));
    assert_eq!(c.get_priority_color("debug"), Color::Rgb(7, 8, 9));
    assert_eq!(c.get_priority_color("unknown"), Color::Rgb(10, 11, 12));
    assert_eq!(c.get_priority_color("warning"), Color::White);
    for p in 0..=9u8 {
        let name = map_to_priority_str(&p);
        if (1..=7).contains(&p) {
            assert_ne!(c.get_priority_color(name), Color::White);
        } else {
            assert_eq!(name, "unknown");
        }
    }
}

#[test]
fn priority_names() {
    let expected = ["unknown", "emerg", "alert", "err", "warn", "notice", "info", "debug", "unknown"];
    for (p, name) in expected.iter().enumerate() {
        assert_eq!(map_to_priority_str(&(p as u8)), *name);
    }
}

#[test]
fn state_colour_names() {
    assert_eq!(get_state_color_str(&State::Alias), "green");
    assert_eq!(get_state_color_str(&State::Transient), "blue");
    assert_eq!(get_state_color_str(&State::Masked), "red");
    assert_eq!(get_state_color_str(&State::Unknown), "white");
    assert_eq!(get_load_color_str(&Load::Loaded), "green");
    assert_eq!(get_load_color_str(&Load::NotFound), "red");
    assert_eq!(get_load_color_str(&Load::Unknown), "white");
    assert_eq!(get_active_color_str(&Active::Active), "green");
    assert_eq!(get_active_color_str(&Active::InActive), "blue");
    assert_eq!(get_active_color_str(&Active::Unknown), "white");
    assert_eq!(get_sub_color_str(&Sub::Activating), "green");
    assert_eq!(get_sub_color_str(&Sub::Reloading), "blue");
    assert_eq!(get_sub_color_str(&Sub::Failed), "red");
    assert_eq!(get_sub_color_str(&Sub::Exited), "white");
    assert_eq!(get_preset_color_str(&Preset::Enabled), "green");
    assert_eq!(get_preset_color_str(&Preset::Empty), "white");
}

#[test]
fn padding_to_width() {
    assert_eq!("ab".pad_with(5), "ab   ");
    assert_eq!("abcdef".pad_with(3), "abcdef");
    assert_eq!("\u{25cf}x".pad_with(4), "\u{25cf}x  ");
    assert_eq!("".pad_with(0), "");
}

#[test]
fn styler_keeps_the_configuration() {
    let c = config("warn");
    let s = Styler::new(&c);
    assert_eq!(s.config.options.initial_priority, 4);
    assert_eq!(s.config.get_palette_color("red"), Color::Rgb(200, 1, 2));
}
