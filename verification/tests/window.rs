use adore::raw::{self, Context, ContextConfig, PresentMode, RenderAction, RenderEvent};
use adore::{
    centered, Action, Adore, AdoreConfig, Amber, AmberConfig, Event, Input, Position, PressType, Size, Window,
    WindowConfig,
};

#[test]
fn a_key_is_just_pressed_then_pressed_then_just_released_then_released() {
    let mut input = Input::new();
    assert_eq!(input.key(30).pt, PressType::Unknown);
    assert!(!input.key_pressed(30));
    assert!(input.key_released(30));
    input.process_key(Some(30), true);
    assert_eq!(input.key(30).pt, PressType::JustPressed);
    assert!(input.key_pressed(30) && input.key_just_pressed(30));
    assert!(!input.key_released(30) && !input.key_just_released(30));
    assert!(input.keys_changed());
    input.process_key(Some(30), true);
    assert_eq!(input.key(30).pt, PressType::Pressed);
    assert!(input.key_pressed(30) && !input.key_just_pressed(30));
    input.process_key(Some(30), false);
    assert_eq!(input.key(30).pt, PressType::JustReleased);
    assert!(input.key_released(30) && input.key_just_released(30));
    input.process_key(Some(30), false);
    assert_eq!(input.key(30).pt, PressType::Released);
    assert!(input.key_released(30) && !input.key_just_released(30));
    assert_eq!(input.key(31).pt, PressType::Unknown);
}

#[test]
fn a_first_release_is_a_just_release() {
    let mut input = Input::new();
    input.process_key(Some(4), false);
    assert_eq!(input.key(4).pt, PressType::JustReleased);
}

#[test]
fn a_key_without_a_name_changes_nothing() {
    let mut input = Input::new();
    input.process_key(None, true);
    assert!(!input.keys_changed());
    assert!(input.keys().is_empty());
}

#[test]
fn a_mouse_button_is_just_pressed_at_every_press() {
    let mut input = Input::new();
    assert!(input.mouse_button_released(0) && !input.mouse_button_pressed(0));
    input.process_mouse_button(0, true);
    input.process_mouse_button(0, true);
    assert_eq!(input.mouse_button(0).pt, PressType::JustPressed);
    assert!(input.mouse_button_pressed(0) && input.mouse_button_just_pressed(0));
    assert!(!input.mouse_button_released(0) && !input.mouse_button_just_released(0));
    input.process_mouse_button(0, false);
    assert!(input.mouse_button_released(0) && input.mouse_button_just_released(0));
    assert!(!input.mouse_button_pressed(1));
    assert!(!input.keys_changed());
}

#[test]
fn a_reset_settles_what_just_happened() {
    let mut input = Input::new();
    input.process_key(Some(1), true);
    input.process_key(Some(2), false);
    input.process_key(Some(3), true);
    input.process_key(Some(3), true);
    input.process_mouse_button(7, true);
    input.process_mouse_button(8, false);
    input.set_mouse_position();
    input.process_mouse_motion();
    input.process_mouse_wheel();
    assert!(input.mouse_position_changed() && input.mouse_motion_changed() && input.mouse_scroll_changed());
    input.reset();
    assert_eq!(input.key(1).pt, PressType::Pressed);
    assert_eq!(input.key(2).pt, PressType::Released);
    assert_eq!(input.key(3).pt, PressType::Pressed);
    assert_eq!(input.mouse_button(7).pt, PressType::Pressed);
    assert_eq!(input.mouse_button(8).pt, PressType::Released);
    assert!(!input.keys_changed());
    assert!(!input.mouse_position_changed() && !input.mouse_motion_changed() && !input.mouse_scroll_changed());
    let mut codes = input.keys();
    codes.sort();
    assert_eq!(codes, vec![1, 2, 3]);
}

#[test]
fn consuming_releases_everything_of_its_kind() {
    let mut input = Input::new();
    input.process_key(Some(1), true);
    input.process_mouse_button(7, true);
    input.consume_keys();
    assert_eq!(input.key(1).pt, PressType::Released);
    assert_eq!(input.mouse_button(7).pt, PressType::JustPressed);
    assert!(!input.keys_changed());
    input.consume_mouse();
    assert_eq!(input.mouse_button(7).pt, PressType::Released);
    assert_eq!(input.key(9).pt, PressType::Unknown);
}

#[test]
fn the_window_tells_the_event_loop_what_to_do() {
    let mut window = Window::new("game", 800, 600, true);
    assert_eq!(window.size(), (800, 600));
    assert_eq!(window.title(), "game");
    assert!(window.resizable());
    assert_eq!(window.run(Event::CloseRequested), Action::Exit);
    assert_eq!(window.run(Event::AboutToWait), Action::RequestRedraw);
    assert_eq!(window.run(Event::Other), Action::Proceed);
    assert_eq!(window.run(Event::Resized(Size { width: 10, height: 20 })), Action::Proceed);
    assert_eq!(window.size(), (10, 20));
    assert_eq!(window.run(Event::RedrawRequested), Action::Frame { exit: false, size: Size { width: 10, height: 20 } });
    adore::abort(&mut window);
    assert_eq!(window.run(Event::RedrawRequested), Action::Frame { exit: true, size: Size { width: 10, height: 20 } });
}

#[test]
fn the_window_hands_input_events_on() {
    let mut window = Window::new("game", 800, 600, false);
    assert_eq!(window.run(Event::KeyboardInput { key: Some(5), pressed: true }), Action::Proceed);
    assert_eq!(window.run(Event::MouseInput { button: 1, pressed: false }), Action::Proceed);
    window.run(Event::CursorMoved);
    window.run(Event::MouseMotion);
    {
        let input = adore::input(&window);
        assert!(input.key_just_pressed(5));
        assert!(input.mouse_button_just_released(1));
        assert!(input.mouse_position_changed() && input.mouse_motion_changed());
        assert!(!input.mouse_scroll_changed());
    }
    window.run(Event::MouseWheel);
    assert!(adore::input(&window).mouse_scroll_changed());
    adore::input_mut(&mut window).reset();
    assert!(adore::input(&window).key_pressed(5) && !adore::input(&window).key_just_pressed(5));
    adore::set_title(&mut window, String::from("FPS: 60"));
    assert_eq!(window.title(), "FPS: 60");
}

#[test]
fn a_size_without_area_does_not_configure_the_surface() {
    let mut context = Context::new((640, 480));
    assert_eq!(context.size(), (640, 480));
    assert_eq!(context.present_mode(), PresentMode::AutoNoVsync);
    assert!(!raw::reset(&mut context, ContextConfig { width: 0, height: 100, vsync: true }));
    assert!(!raw::reset(&mut context, ContextConfig { width: 100, height: 0, vsync: true }));
    assert_eq!(context.size(), (640, 480));
    assert_eq!(context.present_mode(), PresentMode::AutoNoVsync);
    assert!(raw::reset(&mut context, ContextConfig { width: 100, height: 200, vsync: true }));
    assert_eq!(context.size(), (100, 200));
    assert_eq!(context.present_mode(), PresentMode::AutoVsync);
    assert!(context.reset(ContextConfig { width: 1, height: 1, vsync: false }));
    assert_eq!(context.present_mode(), PresentMode::AutoNoVsync);
}

#[test]
fn a_frame_is_held_from_its_acquisition_until_it_is_drawn() {
    let mut context = Context::new((640, 480));
    assert!(!raw::frame(&context));
    assert_eq!(raw::render(&mut context, RenderEvent::Lost), RenderAction::Skip);
    assert!(!raw::frame(&context));
    assert_eq!(raw::render(&mut context, RenderEvent::Drawn), RenderAction::Skip);
    assert_eq!(raw::render(&mut context, RenderEvent::Acquired), RenderAction::Draw);
    assert!(raw::frame(&context));
    assert_eq!(raw::render(&mut context, RenderEvent::Drawn), RenderAction::Present);
    assert!(!raw::frame(&context));
}

#[test]
fn the_engine_configures_the_surface_when_the_size_is_new() {
    let mut engine = Adore::new(AdoreConfig::default());
    let size = Size { width: 1280, height: 720 };
    assert_eq!(engine.run(size), Some(ContextConfig { width: 1280, height: 720, vsync: false }));
    assert_eq!(engine.run(size), None);
    assert_eq!(engine.run(Size { width: 1, height: 720 }), Some(ContextConfig { width: 1, height: 720, vsync: false }));
    assert_eq!(engine.run(Size { width: 0, height: 0 }), Some(ContextConfig { width: 0, height: 0, vsync: false }));
    assert_eq!(engine.window().size(), (1280, 720));
    let mut shell = Amber::new(AmberConfig::default());
    assert_eq!(shell.run(Size { width: 0, height: 0 }), None);
    assert_eq!(shell.run(size), Some(ContextConfig { width: 1280, height: 720, vsync: false }));
}

#[test]
fn the_default_window_is_the_size_of_the_default_viewport() {
    let config = WindowConfig::default();
    assert_eq!((config.title, config.width, config.height, config.resizable), ("Adore", 1280, 720, true));
}

#[test]
fn a_window_is_centered_on_its_monitor_if_it_fits() {
    let monitor = Size { width: 1920, height: 1080 };
    assert_eq!(centered(monitor, Size { width: 1280, height: 720 }), Some(Position { x: 320, y: 180 }));
    assert_eq!(centered(monitor, Size { width: 1921, height: 1081 }), Some(Position { x: 0, y: 0 }));
    assert_eq!(centered(monitor, Size { width: 1922, height: 1080 }), None);
    assert_eq!(centered(monitor, Size { width: 1920, height: 1082 }), None);
    assert_eq!(centered(Size { width: 3, height: 5 }, Size { width: 1, height: 1 }), Some(Position { x: 1, y: 2 }));
}

#[test]
fn the_first_srgb_format_is_taken_or_else_the_first() {
    assert_eq!(raw::pick_format(&[]), None);
    assert_eq!(raw::pick_format(&[false]), Some(0));
    assert_eq!(raw::pick_format(&[false, true, true]), Some(1));
    assert_eq!(raw::pick_format(&[true, false]), Some(0));
    assert_eq!(raw::pick_format(&[false, false, false]), Some(0));
    assert_eq!(raw::pick_format(&[false, false, true]), Some(2));
}

#[test]
fn only_features_that_the_adapter_has_are_asked_for() {
    assert_eq!(raw::request_features(0b1011, 0b0110), 0b0010);
    assert_eq!(raw::request_features(0b1011, 0), 0);
    assert_eq!(raw::request_features(0, 0b1111), 0);
    assert_eq!(raw::request_features(u64::MAX, 0b1001), 0b1001);
}
