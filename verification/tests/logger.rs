use adore::logger::{assemble, log_line, origin, Filter, Level};
use adore::text::to_decimal;

#[test]
fn the_default_filter_drops_the_graphics_and_windowing_layers() {
    assert_eq!(Filter::default().filter, vec!["wgpu_core", "wgpu_hal", "naga", "calloop", "winit"]);
}

#[test]
fn a_filter_is_built_up_and_cleared() {
    let filter = Filter::new(&["a", "b"]);
    assert_eq!(filter.filter, vec!["a", "b"]);
    let filter = filter.add("c");
    assert_eq!(filter.filter, vec!["a", "b", "c"]);
    assert!(filter.clear().filter.is_empty());
    assert!(Filter::new(&[]).filter.is_empty());
}

#[test]
fn a_log_line_shows_level_origin_and_message() {
    let line = log_line(Level::Error, Some("game::world"), Some(42), "it broke");
    assert_eq!(line, "\x1b[1;31mError\x1b[0;39;49m\x1b[37m <game::world(42)>:\x1b[0;39;49m it broke\n");
    let line = log_line(Level::Info, None, None, "");
    assert_eq!(line, "\x1b[1;32mInfo\x1b[0;39;49m\x1b[37m <?(0)>:\x1b[0;39;49m \n");
}

#[test]
fn each_level_has_its_name_and_colour() {
    let shown: Vec<(&str, String)> = [Level::Error, Level::Warn, Level::Info, Level::Debug, Level::Trace]
        .iter()
        .map(|level| (level.name(), level.paint()))
        .collect();
    assert_eq!(
        shown,
        vec![
            ("Error", String::from("\x1b[1;31mError\x1b[0;39;49m")),
            ("Warn", String::from("\x1b[1;33mWarn\x1b[0;39;49m")),
            ("Info", String::from("\x1b[1;32mInfo\x1b[0;39;49m")),
            ("Debug", String::from("\x1b[1;37mDebug\x1b[0;39;49m")),
            ("Trace", String::from("\x1b[1;36mTrace\x1b[0;39;49m")),
        ]
    );
}

#[test]
fn the_origin_names_module_and_line() {
    assert_eq!(origin(Some("a::b"), Some(7)), " <a::b(7)>:");
    assert_eq!(origin(None, Some(4294967295)), " <?(4294967295)>:");
    assert_eq!(origin(Some(""), None), " <(0)>:");
}

#[test]
fn a_log_line_is_put_together_in_order() {
    assert_eq!(assemble(String::from("L"), "O", "M"), "LO M\n");
    assert_eq!(assemble(String::new(), "", ""), " \n");
}

#[test]
fn numbers_are_written_in_decimal() {
    for n in [0u32, 7, 9, 10, 11, 99, 100, 101, 1234567890, 4294967295] {
        assert_eq!(to_decimal(n), n.to_string());
    }
}
