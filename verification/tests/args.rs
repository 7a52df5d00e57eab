use color_nope::{force_from_args, ColorNope, Force, Platform, Stream};

fn args(values: &[&str]) -> Vec<String> {
    values.iter().map(|value| value.to_string()).collect()
}

#[test]
fn no_arguments_give_no_override() {
    assert_eq!(force_from_args(&[]), None);
}

#[test]
fn other_arguments_give_no_override() {
    assert_eq!(force_from_args(&args(&["prog", "--verbose", "file.txt"])), None);
}

#[test]
fn the_flag_gives_force_off() {
    assert_eq!(force_from_args(&args(&["prog", "--no-color"])), Some(Force::Off));
}

#[test]
fn the_flag_is_found_at_any_position() {
    assert_eq!(force_from_args(&args(&["--no-color"])), Some(Force::Off));
    assert_eq!(force_from_args(&args(&["--no-color", "a", "b"])), Some(Force::Off));
    assert_eq!(force_from_args(&args(&["a", "--no-color", "b"])), Some(Force::Off));
    assert_eq!(force_from_args(&args(&["a", "b", "--no-color"])), Some(Force::Off));
    assert_eq!(force_from_args(&args(&["--no-color", "--no-color"])), Some(Force::Off));
}

#[test]
fn only_the_exact_flag_counts() {
    for near in [
        "",
        "--no-colo",
        "--no-colors",
        "--no-color=always",
        "--no-color ",
        " --no-color",
        "-no-color",
        "no-color",
        "--NO-COLOR",
        "--no-colour",
        "--no_color",
        "--color",
    ] {
        assert_eq!(force_from_args(&args(&["prog", near])), None, "{:?}", near);
    }
}

#[test]
fn snapshot_without_flag_has_no_override() {
    let decision = ColorNope::from_env(
        Some("xterm".to_string()),
        None,
        &args(&["prog", "--verbose"]),
    );
    assert_eq!(decision.enable_color_when(Platform::Unix, true), true);
    assert_eq!(decision.enable_color_when(Platform::Unix, false), false);
}

#[test]
fn snapshot_with_flag_forces_color_off() {
    let decision = ColorNope::from_env(
        Some("xterm".to_string()),
        None,
        &args(&["prog", "--no-color"]),
    );
    for platform in [Platform::Unix, Platform::Windows] {
        assert_eq!(decision.enable_color_when(platform, true), false);
        assert_eq!(decision.enable_color_when(platform, false), false);
        assert_eq!(decision.enable_color_for(platform, Stream::Stdout), false);
        assert_eq!(decision.enable_color_for(platform, Stream::Stderr), false);
    }
}

#[test]
fn snapshot_keeps_term_and_no_color() {
    let none: Vec<String> = Vec::new();
    let dumb = ColorNope::from_env(Some("dumb".to_string()), None, &none);
    assert_eq!(dumb.enable_color_when(Platform::Unix, true), false);
    let unset = ColorNope::from_env(None, None, &none);
    assert_eq!(unset.enable_color_when(Platform::Unix, true), false);
    assert_eq!(unset.enable_color_when(Platform::Windows, true), true);
    let no_color = ColorNope::from_env(Some("xterm".to_string()), Some(String::new()), &none);
    assert_eq!(no_color.enable_color_when(Platform::Windows, true), false);
}

#[test]
fn snapshot_equals_explicit_construction() {
    let with_flag = args(&["prog", "--no-color"]);
    let without_flag = args(&["prog"]);
    for term in [None, Some("xterm".to_string()), Some("dumb".to_string())] {
        for no_color in [None, Some("1".to_string())] {
            let off = ColorNope::from_env(term.clone(), no_color.clone(), &with_flag);
            let explicit_off = ColorNope::new(term.clone(), no_color.clone(), Some(Force::Off));
            let plain = ColorNope::from_env(term.clone(), no_color.clone(), &without_flag);
            let explicit_plain = ColorNope::new(term.clone(), no_color.clone(), None);
            for platform in [Platform::Unix, Platform::Windows] {
                for tty in [false, true] {
                    assert_eq!(
                        off.enable_color_when(platform, tty),
                        explicit_off.enable_color_when(platform, tty)
                    );
                    assert_eq!(
                        plain.enable_color_when(platform, tty),
                        explicit_plain.enable_color_when(platform, tty)
                    );
                }
            }
        }
    }
}
