use lsd_colors::color::{Colors, Elem};

const ALL_ELEMS: [Elem; 22] = [
    Elem::File,
    Elem::SymLink,
    Elem::BrokenSymLink,
    Elem::Dir,
    Elem::Pipe,
    Elem::BlockDevice,
    Elem::CharDevice,
    Elem::Socket,
    Elem::Special,
    Elem::Read,
    Elem::Write,
    Elem::Exec,
    Elem::ExecSticky,
    Elem::NoAccess,
    Elem::DayOld,
    Elem::HourOld,
    Elem::Older,
    Elem::User,
    Elem::Group,
    Elem::FileLarge,
    Elem::FileMedium,
    Elem::FileSmall,
];

#[test]
fn lookup_returns_for_every_variant() {
    let map = Colors::get_colour_map();
    for elem in ALL_ELEMS.iter() {
        let idx = map.get(elem);
        assert!(usize::from(idx) < 256);
    }
}

#[test]
fn fixed_mapping_regression() {
    let map = Colors::get_colour_map();
    assert_eq!(map.get(&Elem::User), 230);
    assert_eq!(map.get(&Elem::Group), 187);
    assert_eq!(map.get(&Elem::Read), 40);
    assert_eq!(map.get(&Elem::Write), 192);
    assert_eq!(map.get(&Elem::Exec), 124);
    assert_eq!(map.get(&Elem::ExecSticky), 13);
    assert_eq!(map.get(&Elem::NoAccess), 168);
    assert_eq!(map.get(&Elem::File), 184);
    assert_eq!(map.get(&Elem::Dir), 33);
    assert_eq!(map.get(&Elem::Pipe), 44);
    assert_eq!(map.get(&Elem::SymLink), 44);
    assert_eq!(map.get(&Elem::BrokenSymLink), 124);
    assert_eq!(map.get(&Elem::BlockDevice), 44);
    assert_eq!(map.get(&Elem::CharDevice), 44);
    assert_eq!(map.get(&Elem::Socket), 44);
    assert_eq!(map.get(&Elem::Special), 44);
    assert_eq!(map.get(&Elem::HourOld), 40);
    assert_eq!(map.get(&Elem::DayOld), 42);
    assert_eq!(map.get(&Elem::Older), 36);
    assert_eq!(map.get(&Elem::FileSmall), 229);
    assert_eq!(map.get(&Elem::FileMedium), 216);
    assert_eq!(map.get(&Elem::FileLarge), 172);
}

#[test]
fn nonregular_nodes_share_one_color() {
    let map = Colors::get_colour_map();
    let shared = map.get(&Elem::SymLink);
    assert_eq!(map.get(&Elem::Pipe), shared);
    assert_eq!(map.get(&Elem::BlockDevice), shared);
    assert_eq!(map.get(&Elem::CharDevice), shared);
    assert_eq!(map.get(&Elem::Socket), shared);
    assert_eq!(map.get(&Elem::Special), shared);
}

#[test]
fn broken_symlink_shares_exec_color() {
    let map = Colors::get_colour_map();
    assert_eq!(map.get(&Elem::BrokenSymLink), map.get(&Elem::Exec));
}

#[test]
fn disabled_is_passthrough_for_every_variant() {
    let colors = Colors::with_enabled(false);
    for elem in ALL_ELEMS.iter() {
        let out = colors.colorize("report.txt".to_string(), elem);
        assert_eq!(out, "report.txt");
    }
}

#[test]
fn disabled_passes_empty_string_through() {
    let colors = Colors::with_enabled(false);
    let out = colors.colorize(String::new(), &Elem::Dir);
    assert_eq!(out, "");
}

#[test]
fn disabled_passes_escape_like_bytes_through() {
    let colors = Colors::with_enabled(false);
    let tricky = "\u{1b}[31mred?\u{1b}[0m".to_string();
    let out = colors.colorize(tricky.clone(), &Elem::NoAccess);
    assert_eq!(out, tricky);
}

#[test]
fn no_terminal_scenario_emits_no_escape_bytes() {
    let colors = Colors::with_enabled(false);
    let out = colors.colorize("report.txt".to_string(), &Elem::File);
    assert_eq!(out, "report.txt");
    assert!(!out.contains('\u{1b}'));
}

#[test]
fn terminal_scenario_styles_with_file_index() {
    let colors = Colors::with_enabled(true);
    let out = colors.colorize("report.txt".to_string(), &Elem::File);
    assert_eq!(out, "\u{1b}[38;5;184mreport.txt\u{1b}[0m");
}

#[test]
fn enabled_output_matches_renderer() {
    let colors = Colors::with_enabled(true);
    let out = colors.colorize("report.txt".to_string(), &Elem::Dir);
    let direct = ansi_term::Colour::Fixed(33).paint("report.txt").to_string();
    assert_eq!(out, direct);
}

#[test]
fn enabled_output_differs_from_input() {
    let colors = Colors::with_enabled(true);
    let out = colors.colorize("report.txt".to_string(), &Elem::File);
    assert_ne!(out, "report.txt");
    assert!(out.contains('\u{1b}'));
}

#[test]
fn enabled_output_stripped_equals_input() {
    let colors = Colors::with_enabled(true);
    for elem in ALL_ELEMS.iter() {
        let out = colors.colorize("report.txt".to_string(), elem);
        let mut stripped = String::new();
        let mut in_escape = false;
        for c in out.chars() {
            if in_escape {
                if c == 'm' {
                    in_escape = false;
                }
            } else if c == '\u{1b}' {
                in_escape = true;
            } else {
                stripped.push(c);
            }
        }
        assert_eq!(stripped, "report.txt");
    }
}

#[test]
fn same_decision_renders_identically() {
    let first = Colors::with_enabled(true);
    let second = Colors::with_enabled(true);
    for elem in ALL_ELEMS.iter() {
        assert_eq!(
            first.colorize("report.txt".to_string(), elem),
            second.colorize("report.txt".to_string(), elem)
        );
    }
    let third = Colors::with_enabled(false);
    let fourth = Colors::with_enabled(false);
    for elem in ALL_ELEMS.iter() {
        assert_eq!(
            third.colorize("report.txt".to_string(), elem),
            fourth.colorize("report.txt".to_string(), elem)
        );
    }
}

#[test]
fn probed_facade_renders_plain_or_styled() {
    let colors = Colors::new();
    let out = colors.colorize("report.txt".to_string(), &Elem::File);
    assert!(out == "report.txt" || out == "\u{1b}[38;5;184mreport.txt\u{1b}[0m");
}
