use cobia::application::{Engine, EngineAction};
use cobia::event::types::input::{
    Key, KeyboardEvent, ModifierChangeEvent, ModifierKey, ModifierStateKeeper, MouseButton,
    MouseButtonEvent, MouseEvent, MouseMovedEvent, MouseWheelRollEvent, PhaseWheelScroll,
    StateAction, TextInputEvent, ALT, CONTROL, CONTROL_ALT_SHIFT, NULL_MOD, SHIFT, SUPER,
};
use cobia::event::types::window::{ResolutionChangeEvent, WindowEvent};
use cobia::event::types::CEvent;
use cobia::event::{
    convert_window_event, keyboard_event_converter, modifier_event_converter, EventQueue,
    EventSystem, Ime, ModifiersState, MouseScrollDelta, TouchPhase, WEvent, WinitMouseButton,
    WinitWindowEvent,
};
use cobia::renderer::surface::CSurface;
use cobia::renderer::vulkan::swapchain::{ExtentWarning, Recreation};
use cobia::renderer::vulkan::surface::Extent2D;
use cobia::renderer::vulkan::failure::{VlkCause, VlkFailure};
use cobia::renderer::{FrameDecision, RenderingSys};
use cobia::error_handler::{ERendering, EVlkApi};

fn mods(ctrl: bool, alt: bool, shift: bool, logo: bool) -> ModifiersState {
    ModifiersState { ctrl, alt, shift, logo }
}

fn modifier_code(event: CEvent) -> u8 {
    match event {
        CEvent::ModifierStateChange(e) => e.get_value(),
        other => panic!("unexpected {:?}", other),
    }
}

#[test]
fn one_modifier_is_reported_at_a_time() {
    assert_eq!(modifier_code(modifier_event_converter(mods(true, true, true, true))), CONTROL);
    assert_eq!(modifier_code(modifier_event_converter(mods(false, true, true, true))), ALT);
    assert_eq!(modifier_code(modifier_event_converter(mods(false, false, true, true))), SHIFT);
    assert_eq!(modifier_code(modifier_event_converter(mods(false, false, false, true))), SUPER);
    assert_eq!(modifier_code(modifier_event_converter(mods(false, false, false, false))), NULL_MOD);
    assert_eq!(ModifierChangeEvent::new(CONTROL_ALT_SHIFT).name(), "Control Alt Shift");
    assert_eq!(ModifierChangeEvent::new(NULL_MOD).name(), "No Mod enable");
    assert_eq!(ModifierChangeEvent::new(200).name(), "Unknown");
    let mut keeper = ModifierStateKeeper::init();
    assert!(keeper.no_modifier());
    keeper.update(&ModifierChangeEvent::new(SHIFT));
    assert!(keeper.shift() && !keeper.ctrl() && !keeper.alt() && !keeper.superk());
    assert!(!keeper.ctrl_alt() && !keeper.ctrl_shift() && !keeper.shift_alt() && !keeper.ctrl_alt_shift());
    assert_ne!(ModifierKey::Shift, ModifierKey::Null);
}

#[test]
fn window_events_become_engine_events() {
    assert!(matches!(convert_window_event(WinitWindowEvent::CloseRequested), CEvent::Window(WindowEvent::Close)));
    assert!(matches!(convert_window_event(WinitWindowEvent::Resized(80, 60)), CEvent::Window(WindowEvent::Resize(80, 60))));
    assert!(matches!(convert_window_event(WinitWindowEvent::Occluded(true)), CEvent::Window(WindowEvent::FullHidden)));
    assert!(matches!(convert_window_event(WinitWindowEvent::Occluded(false)), CEvent::Window(WindowEvent::PartiallyHidden)));
    assert!(matches!(convert_window_event(WinitWindowEvent::Moved(-3, 4)), CEvent::Window(WindowEvent::PositionChange(-3, 4))));
    assert!(matches!(convert_window_event(WinitWindowEvent::Destroyed), CEvent::Window(WindowEvent::Delete)));
    assert!(matches!(convert_window_event(WinitWindowEvent::DroppedFile("a".to_string())), CEvent::Window(WindowEvent::DropFile(ref p)) if p == "a"));
    assert!(matches!(convert_window_event(WinitWindowEvent::HoveredFile("b".to_string())), CEvent::Window(WindowEvent::FileOver(ref p)) if p == "b"));
    assert!(matches!(convert_window_event(WinitWindowEvent::HoveredFileCancelled), CEvent::Window(WindowEvent::FileEscaped)));
    assert!(matches!(convert_window_event(WinitWindowEvent::Focused(true)), CEvent::Window(WindowEvent::FocusGain)));
    assert!(matches!(convert_window_event(WinitWindowEvent::Focused(false)), CEvent::Window(WindowEvent::FocusLost)));
    assert!(matches!(convert_window_event(WinitWindowEvent::CursorLeft), CEvent::Mouse(MouseEvent::MouseEscape)));
    assert!(matches!(convert_window_event(WinitWindowEvent::CursorEntered), CEvent::Mouse(MouseEvent::MouseEntered)));
    assert!(matches!(convert_window_event(WinitWindowEvent::ReceivedCharacter('q')), CEvent::ReceivedChar('q')));
    assert!(matches!(convert_window_event(WinitWindowEvent::Other), CEvent::Unknown));
    assert_eq!(modifier_code(convert_window_event(WinitWindowEvent::ModifiersChanged(mods(false, true, false, false)))), ALT);
    match convert_window_event(WinitWindowEvent::CursorMoved(1.5f64.to_bits(), 2.5f64.to_bits())) {
        CEvent::Mouse(MouseEvent::MouseMovement(m)) => {
            assert_eq!(m, MouseMovedEvent::new(1.5f64.to_bits(), 2.5f64.to_bits()));
            assert_eq!(f64::from_bits(m.x), 1.5);
        }
        other => panic!("unexpected {:?}", other),
    }
}

#[test]
fn keys_buttons_and_wheel_become_engine_events() {
    assert!(matches!(
        keyboard_event_converter(Some(Key::Escape), StateAction::Press),
        CEvent::Keyboard(KeyboardEvent { key: Key::Escape, action: StateAction::Press })
    ));
    assert!(matches!(
        convert_window_event(WinitWindowEvent::KeyboardInput(None, StateAction::Release)),
        CEvent::Keyboard(KeyboardEvent { key: Key::Unknown, action: StateAction::Release })
    ));
    for (button, expected) in [
        (WinitMouseButton::Left, MouseButton::Left),
        (WinitMouseButton::Right, MouseButton::Right),
        (WinitMouseButton::Middle, MouseButton::Wheel),
        (WinitMouseButton::Other, MouseButton::Unknown),
    ] {
        match convert_window_event(WinitWindowEvent::MouseInput(StateAction::Press, button)) {
            CEvent::Mouse(MouseEvent::MouseButton(e)) => assert_eq!(e, MouseButtonEvent::new(expected, StateAction::Press)),
            other => panic!("unexpected {:?}", other),
        }
    }
    for (phase, expected) in [
        (TouchPhase::Started, PhaseWheelScroll::Started),
        (TouchPhase::Moved, PhaseWheelScroll::Moved),
        (TouchPhase::Ended, PhaseWheelScroll::Stopped),
        (TouchPhase::Cancelled, PhaseWheelScroll::Canceled),
    ] {
        let delta = MouseScrollDelta::LineDelta(1.0f32.to_bits(), (-2.0f32).to_bits());
        match convert_window_event(WinitWindowEvent::MouseWheel(delta, phase)) {
            CEvent::Mouse(MouseEvent::MouseWheelRoll(e)) => {
                assert_eq!(e, MouseWheelRollEvent::new(expected, 1.0f32.to_bits(), (-2.0f32).to_bits()))
            }
            other => panic!("unexpected {:?}", other),
        }
    }
    assert!(matches!(convert_window_event(WinitWindowEvent::MouseWheel(MouseScrollDelta::PixelDelta, TouchPhase::Moved)), CEvent::Ignored));
}

#[test]
fn text_input_is_taken_and_empty_preedit_ignored() {
    assert!(matches!(convert_window_event(WinitWindowEvent::Ime(Ime::Enabled)), CEvent::TextInputModeEnabled));
    assert!(matches!(convert_window_event(WinitWindowEvent::Ime(Ime::Disabled)), CEvent::TextInputModeDisabled));
    assert!(matches!(convert_window_event(WinitWindowEvent::Ime(Ime::Preedit(String::new(), Some((1, 2))))), CEvent::Ignored));
    match convert_window_event(WinitWindowEvent::Ime(Ime::Preedit("ni".to_string(), Some((1, 2))))) {
        CEvent::TextInput(TextInputEvent { content, position }) => {
            assert_eq!(content, "ni");
            assert_eq!(position, Some((1, 2)));
        }
        other => panic!("unexpected {:?}", other),
    }
    match convert_window_event(WinitWindowEvent::Ime(Ime::Commit("你".to_string()))) {
        CEvent::TextInput(e) => {
            assert_eq!(e.content, "你");
            assert_eq!(e.position, None);
        }
        other => panic!("unexpected {:?}", other),
    }
}

#[test]
fn names_of_keys_buttons_and_actions() {
    assert_eq!(Key::A.name(), "A");
    assert_eq!(Key::N7.name(), "7");
    assert_eq!(Key::PgUp.name(), "Page Up");
    assert_eq!(Key::NpMult.name(), "NumPad Multiple");
    assert_eq!(Key::BrwsForward.name(), "Browse Fow");
    assert_eq!(Key::Backslash.name(), "/");
    assert_eq!(Key::Slash.name(), "Slash");
    assert_eq!(Key::OpenBrace.name(), "{");
    assert_eq!(Key::QuotationMarks.name(), "'");
    assert_eq!(Key::Unknown.name(), "Unknown");
    assert_eq!(StateAction::Press.name(), "Press");
    assert_eq!(StateAction::Release.name(), "Release");
    assert_eq!(MouseButton::Wheel.name(), "Wheel");
    assert_eq!(PhaseWheelScroll::Canceled.name(), "Canceled");
    let r = ResolutionChangeEvent::new(2.0f64.to_bits(), (800, 600));
    assert_eq!((f64::from_bits(r.scale_fact), r.new_inner_width, r.new_inner_height), (2.0, 800, 600));
}

#[test]
fn full_queue_lets_the_oldest_half_go() {
    let mut queue = EventQueue::init(Some(4));
    assert!(queue.get_last_event().is_none());
    for c in ['a', 'b', 'c', 'd'] {
        queue.add_event(CEvent::ReceivedChar(c));
    }
    assert_eq!(queue.len(), 4);
    queue.add_event(CEvent::ReceivedChar('e'));
    assert_eq!(queue.len(), 3);
    assert!(matches!(queue.get_last_event(), Some(CEvent::ReceivedChar('e'))));
    queue.add_event(CEvent::ReceivedChar('f'));
    assert_eq!(queue.len(), 4);
    queue.add_event(CEvent::Suspended);
    assert_eq!(queue.len(), 3);
    assert!(matches!(queue.get_last_event(), Some(CEvent::Suspended)));
    let mut default = EventQueue::init(None);
    for _ in 0..10_001 {
        default.add_event(CEvent::Resumed);
    }
    assert_eq!(default.len(), 5001);
}

#[test]
fn event_system_queues_all_but_ignored_events() {
    let mut sys = EventSystem::new();
    sys.run_return(WEvent::LoopDestroyed);
    assert!(sys.get_last_event().is_none());
    sys.run_return(WEvent::Suspended);
    assert!(matches!(sys.get_last_event(), Some(CEvent::Suspended)));
    sys.run_return(WEvent::Resumed);
    assert!(matches!(sys.get_last_event(), Some(CEvent::Resumed)));
    sys.run_return(WEvent::RedrawEventsCleared);
    assert!(matches!(sys.get_last_event(), Some(CEvent::RedrawClear)));
    sys.run_return(WEvent::Other);
    assert!(matches!(sys.get_last_event(), Some(CEvent::Unknown)));
    sys.run_return(WEvent::WindowEvent(WinitWindowEvent::Ime(Ime::Preedit(String::new(), None))));
    assert!(matches!(sys.get_last_event(), Some(CEvent::Unknown)));
    sys.check_last_event();
    assert!(!sys.should_close());
    sys.run_return(WEvent::WindowEvent(WinitWindowEvent::CloseRequested));
    sys.check_last_event();
    assert!(sys.should_close());
}

fn engine() -> Engine {
    Engine::init(RenderingSys::new(CSurface::new(Ok(1)).unwrap()))
}

#[test]
fn resize_rebuilds_the_window_and_the_next_redraw_recreates_the_swapchain() {
    let mut e = engine();
    assert!(matches!(e.filter_last_event(), EngineAction::Idle));
    e.take_event(WEvent::RedrawEventsCleared);
    assert!(matches!(e.filter_last_event(), EngineAction::Redraw { recreate_swapchain: false }));
    e.take_event(WEvent::WindowEvent(WinitWindowEvent::Resized(1280, 70_000)));
    match e.filter_last_event() {
        EngineAction::RebuildWindow(request) => {
            assert_eq!(request.title, "Cobia Engine");
            assert_eq!((request.width, request.height), (1280, (70_000u32 % 65_536) as u16));
        }
        other => panic!("unexpected {:?}", other),
    }
    e.take_event(WEvent::RedrawEventsCleared);
    assert!(matches!(e.filter_last_event(), EngineAction::Redraw { recreate_swapchain: true }));
    let skipped = Recreation::Skipped(ExtentWarning {
        provided: Extent2D { width: 1, height: 1 },
        min_supported: Extent2D { width: 2, height: 2 },
        max_supported: Extent2D { width: 3, height: 3 },
    });
    assert!(e.rendering_sys().swapchain_recreated(Ok(skipped)).is_ok());
    assert!(matches!(e.filter_last_event(), EngineAction::Redraw { recreate_swapchain: false }));
    assert!(!e.should_close());
    e.take_event(WEvent::WindowEvent(WinitWindowEvent::CloseRequested));
    assert!(matches!(e.filter_last_event(), EngineAction::Idle));
    assert!(e.should_close());
}

#[test]
fn rendering_system_keeps_one_frame_in_flight() {
    let mut sys = RenderingSys::new(CSurface::new(Ok(1)).unwrap());
    assert!(!sys.need_to_recreate_swapchain());
    assert_eq!(sys.begin_frame(false), FrameDecision::Submit);
    assert_eq!(sys.begin_frame(false), FrameDecision::Wait);
    assert_eq!(sys.begin_frame(false), FrameDecision::Wait);
    assert_eq!(sys.begin_frame(true), FrameDecision::Submit);
    assert_eq!(sys.begin_frame(false), FrameDecision::Wait);
    sys.free_gpu_resource();
    assert_eq!(sys.begin_frame(false), FrameDecision::Submit);

    sys.set_recreate_swapchain(true);
    let failure = VlkFailure { kind: EVlkApi::SwapchainChange, cause: VlkCause::DriverRejected("lost".to_string()) };
    assert!(sys.swapchain_recreated(Err(failure)).is_err());
    assert!(sys.should_recreate_swapchain());
    assert!(sys.swapchain_recreated(Ok(Recreation::Replaced(vec![]))).is_ok());
    assert!(!sys.should_recreate_swapchain());
}

#[test]
fn window_keeps_title_and_size_across_rebuilds() {
    let request = CSurface::default_request();
    assert_eq!((request.title.as_str(), request.width, request.height), ("Cobia Engine", 1000, 1000));
    let mut sys = RenderingSys::new(CSurface::new(Ok(1)).unwrap());
    let request = sys.set_window_title("demo");
    assert_eq!((request.title.as_str(), request.width, request.height), ("demo", 1000, 1000));
    let request = sys.set_window_size(640, 480);
    assert_eq!((request.title.as_str(), request.width, request.height), ("demo", 640, 480));
    assert!(sys.window_rebuilt(Ok(2)).is_ok());
    assert_eq!(sys.window_rebuilt(Err("no display".to_string())), Err((ERendering::Surface, "no display".to_string())));
    let mut surface = CSurface::new(Ok(5)).unwrap();
    assert_eq!(surface.get_surface(), 5);
    assert!(surface.change_vk_surface(Ok(6)).is_ok());
    assert_eq!(surface.get_surface(), 6);
    assert!(surface.change_vk_surface(Err("x".to_string())).is_err());
    assert_eq!(surface.get_surface(), 6);
    assert_eq!(surface.set_title("t").title, "t");
    assert_eq!(CSurface::new(Err("no".to_string())).map(|s| s.get_surface()), Err((ERendering::Surface, "no".to_string())));
}

#[test]
fn events_are_worded() {
    let words = |e: CEvent| e.describe();
    assert_eq!(words(CEvent::Any).as_deref(), Some("Any"));
    assert_eq!(words(CEvent::Ignored).as_deref(), Some("Ignored"));
    assert_eq!(words(CEvent::Unknown).as_deref(), Some("Unknown"));
    assert_eq!(words(CEvent::Suspended).as_deref(), Some("Os Suspend"));
    assert_eq!(words(CEvent::Resumed).as_deref(), Some("Os Resumed"));
    assert_eq!(words(CEvent::RedrawRequest).as_deref(), Some("Redraw Request"));
    assert_eq!(words(CEvent::RedrawClear).as_deref(), Some("Redraw Clear"));
    assert_eq!(words(CEvent::ReceivedChar('é')).as_deref(), Some("Receive char : é"));
    assert_eq!(words(CEvent::TextInputModeEnabled).as_deref(), Some("Text input mode enabled"));
    assert_eq!(words(CEvent::TextInputModeDisabled).as_deref(), Some("Text input mode disabled"));
    assert_eq!(
        words(CEvent::ModifierStateChange(ModifierChangeEvent::new(CONTROL))).as_deref(),
        Some("Modifier state: Control")
    );
    assert_eq!(
        words(CEvent::Keyboard(KeyboardEvent::new(Key::F5, StateAction::Release))).as_deref(),
        Some("Keyboard: Key: F5 Action: Release")
    );
    assert_eq!(
        words(CEvent::TextInput(TextInputEvent::new("abc".to_string(), Some((3, 14))))).as_deref(),
        Some(" Text Input at column: 3 row: 14 content: abc")
    );
    assert_eq!(
        words(CEvent::TextInput(TextInputEvent::new("abc".to_string(), None))).as_deref(),
        Some("Text Input at unknown position content: abc")
    );
    assert_eq!(
        words(CEvent::Mouse(MouseEvent::MouseButton(MouseButtonEvent::new(MouseButton::Left, StateAction::Press)))).as_deref(),
        Some("Mouse: Button: Left Action: Press")
    );
    assert_eq!(words(CEvent::Mouse(MouseEvent::MouseEscape)).as_deref(), Some("Mouse: Escaped the window surface"));
    assert_eq!(words(CEvent::Mouse(MouseEvent::MouseEntered)).as_deref(), Some("Mouse: Entered the window surface"));
    assert_eq!(words(CEvent::Mouse(MouseEvent::MouseMovement(MouseMovedEvent::new(0, 0)))), None);
    assert_eq!(
        words(CEvent::Mouse(MouseEvent::MouseWheelRoll(MouseWheelRollEvent::new(PhaseWheelScroll::Moved, 0, 0)))),
        None
    );
}

#[test]
fn window_events_are_worded() {
    let words = |e: WindowEvent| CEvent::Window(e).describe();
    assert_eq!(
        words(WindowEvent::PositionChange(-12, i32::MIN)).as_deref(),
        Some("Window: Position change at x: -12 px y: -2147483648 px ")
    );
    assert_eq!(words(WindowEvent::PositionChange(0, 7)).as_deref(), Some("Window: Position change at x: 0 px y: 7 px "));
    assert_eq!(words(WindowEvent::Resize(800, 600)).as_deref(), Some("Window: Resize to width: 800 px height: 600 px"));
    assert_eq!(words(WindowEvent::Close).as_deref(), Some("Window: Closing Window call"));
    assert_eq!(words(WindowEvent::Delete).as_deref(), Some("Window: Window will be destroy"));
    assert_eq!(words(WindowEvent::FullHidden).as_deref(), Some("Window: Window Fully hidden"));
    assert_eq!(words(WindowEvent::PartiallyHidden).as_deref(), Some("Window: Window Partially hidden"));
    assert_eq!(
        words(WindowEvent::DropFile("a.png".to_string())).as_deref(),
        Some("Window: File 'a.png' have been dropped on the window")
    );
    assert_eq!(words(WindowEvent::FileOver("a.png".to_string())).as_deref(), Some("Window: File 'a.png' is over the window"));
    assert_eq!(words(WindowEvent::FileEscaped).as_deref(), Some("Window: The last file has escaped the window"));
    assert_eq!(words(WindowEvent::FocusGain).as_deref(), Some("Window: Gain focus of the window"));
    assert_eq!(words(WindowEvent::FocusLost).as_deref(), Some("Window: Loose focus of the window"));
    assert_eq!(words(WindowEvent::ResolutionChange(ResolutionChangeEvent::new(0, (1, 1)))), None);
}
