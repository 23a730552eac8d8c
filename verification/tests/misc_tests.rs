use keystone::base::{is_ok, kResultFalse, kResultOk, kResultTrue};
use keystone::edit_controller::{ComponentHandler, ControllerCall, EditController, ParameterInfo};
use keystone::error::{Error, ErrorKind};
use keystone::events::{Event, EventData, EventList, EventTypes, NoteOffEvent, NoteOnEvent};
use keystone::host::{Host, HostApplication};
use keystone::painter::{rgb, rgba, PaintObject, Painter};
use keystone::parameters::{ParamValueQueue, ParameterChanges};
use keystone::stream::ByteStream;
use keystone::strmap::StrMap;
use keystone::text::{encode_terminated, encode_utf16, is_ascii_alphanumeric, str_eq, to_ascii_lowercase};
use keystone::time::{Timing, TimingContext};
use keystone::utils::{file_time_minutes, Size};
use keystone::view::{is_equal, PlugFrame, View, ViewCall, ViewRect};
use keystone::window::{hi_byte, hi_word, lo_byte, lo_word, Action, Fit, Window, WindowCall};

#[test]
fn status_codes() {
    assert_eq!(kResultOk, 0);
    assert_eq!(kResultTrue, 0);
    assert_eq!(kResultFalse, 1);
    assert!(is_ok(kResultOk));
    assert!(!is_ok(kResultFalse));
    assert!(!is_ok(-1));
}

#[test]
fn error_carries_kind_and_message() {
    let e = Error::new(ErrorKind::QueueFull, "event list overflow");
    assert_eq!(e.kind(), ErrorKind::QueueFull);
    assert_eq!(e.message(), "event list overflow");
    let copy = e.duplicate();
    assert_eq!(copy.kind(), ErrorKind::QueueFull);
    assert_eq!(copy.message(), e.message());
}

#[test]
fn file_time_is_in_whole_minutes() {
    assert_eq!(file_time_minutes(0), 0);
    assert_eq!(file_time_minutes(59), 0);
    assert_eq!(file_time_minutes(60), 1);
    assert_eq!(file_time_minutes(1_710_000_000), 28_500_000);
    assert_eq!(file_time_minutes(u64::MAX), (u64::MAX / 60) as i64);
}

#[test]
fn character_helpers() {
    assert!(is_ascii_alphanumeric('a') && is_ascii_alphanumeric('Z') && is_ascii_alphanumeric('5'));
    assert!(!is_ascii_alphanumeric('_') && !is_ascii_alphanumeric('é') && !is_ascii_alphanumeric(' '));
    assert_eq!(to_ascii_lowercase('Q'), 'q');
    assert_eq!(to_ascii_lowercase('q'), 'q');
    assert_eq!(to_ascii_lowercase('É'), 'É');
    assert_eq!(to_ascii_lowercase('['), '[');
    assert!(str_eq("abc", "abc"));
    assert!(!str_eq("abc", "abd"));
    assert!(!str_eq("abc", "ab"));
    assert!(str_eq("", ""));
}

#[test]
fn utf16_encoding() {
    assert_eq!(encode_utf16("Key"), vec![0x4B, 0x65, 0x79]);
    assert_eq!(encode_utf16("é€"), "é€".encode_utf16().collect::<Vec<u16>>());
    assert_eq!(encode_utf16("a𝄞b"), vec![0x61, 0xD834, 0xDD1E, 0x62]);
    assert_eq!(encode_utf16(""), Vec::<u16>::new());
    assert_eq!(encode_terminated("ab", 128), vec![0x61, 0x62, 0]);
    assert_eq!(encode_terminated("abcdef", 4), vec![0x61, 0x62, 0x63, 0]);
    assert_eq!(encode_terminated("abc", 4), vec![0x61, 0x62, 0x63, 0]);
    assert_eq!(encode_terminated("abc", 1), vec![0]);
    let long = "x".repeat(300);
    let buffer = encode_terminated(&long, 128);
    assert_eq!(buffer.len(), 128);
    assert_eq!(buffer[126], 0x78);
    assert_eq!(buffer[127], 0);
}

#[test]
fn host_answers_with_its_name() {
    let host = Host::new().unwrap();
    let (status, name) = host.application().get_name();
    assert_eq!(status, kResultOk);
    let mut expected: Vec<u16> = "Keystone".encode_utf16().collect();
    expected.push(0);
    assert_eq!(name, expected);
    assert_eq!(host.application().create_instance(), kResultFalse);
    assert_eq!(host.application().is_pluginterface_supported(), kResultFalse);
    assert!(host.get_context(kResultOk).is_ok());
    let e = host.get_context(kResultFalse).unwrap_err();
    assert_eq!(e.message(), "unable to get host context");
    let app = HostApplication::new();
    assert!(app.get_context(kResultOk).is_ok());
    let mut host = host;
    host.dispose();
}

#[test]
fn event_constructors() {
    assert_eq!(
        EventList::new_note_on_event(60, 0.8f32.to_bits()),
        EventData::NoteOn(NoteOnEvent {
            channel: 0,
            pitch: 60,
            tuning: 0,
            velocity: 0.8f32.to_bits(),
            length: 0,
            note_id: -1
        })
    );
    assert_eq!(
        EventList::new_note_off_event(61),
        EventData::NoteOff(NoteOffEvent { channel: 0, pitch: 61, velocity: 0, note_id: -1, tuning: 0 })
    );
    let data = EventList::new_note_off_event(61);
    assert_eq!(
        EventList::new_event(data, EventTypes::kNoteOffEvent),
        Event { bus_index: 0, sample_offset: 0, ppq_position: 0, flags: 0, type_: 1, event: data }
    );
    assert_eq!(EventTypes::kNoteOnEvent.code(), 0);
    assert_eq!(EventTypes::kScaleEvent.code(), 7);
    assert_eq!(EventTypes::kLegacyMIDICCOutEvent.code(), 65535);
}

#[test]
fn event_list_queue() {
    let mut list = EventList::new();
    assert_eq!(list.get_event_count(), 0);
    assert!(list.get_event(0).is_none());
    let first = EventList::new_event(EventList::new_note_on_event(60, 1), EventTypes::kNoteOnEvent);
    let second = EventList::new_event(EventList::new_note_off_event(60), EventTypes::kNoteOffEvent);
    list.push_event(first).unwrap();
    list.push_event(second).unwrap();
    assert_eq!(list.get_event_count(), 2);
    assert_eq!(list.get_event(0), Some(first));
    assert_eq!(list.get_event(1), Some(first));
    assert!(list.get_event(2).is_none());
    assert!(list.get_event(-1).is_none());
    assert_eq!(list.add_event(&first), kResultFalse);
    list.clear().unwrap();
    assert_eq!(list.get_event_count(), 0);
}

#[test]
fn parameter_queues_are_empty() {
    let queue = ParamValueQueue::new();
    assert_eq!(queue.get_parameter_id(), 0);
    assert_eq!(queue.get_point_count(), 0);
    assert_eq!(queue.get_point(0), kResultFalse);
    assert_eq!(queue.add_point(0), kResultFalse);
    let changes = ParameterChanges::new();
    assert_eq!(changes.get_parameter_count(), 0);
    assert!(changes.get_parameter_data(0).is_some());
    assert!(changes.get_parameter_data(1).is_none());
    assert!(changes.get_parameter_data(-1).is_none());
    assert_eq!(changes.add_parameter_data(42).0, 0);
}

#[test]
fn byte_stream_refuses_everything() {
    let stream = ByteStream::new();
    assert_eq!(stream.read(16), kResultFalse);
    assert_eq!(stream.write(16), kResultFalse);
    assert_eq!(stream.seek(0, 0), kResultFalse);
    assert_eq!(stream.tell(), kResultFalse);
}

#[test]
fn timing_context() {
    let mut t = Timing::new().unwrap();
    assert_eq!(t.system_time, 0);
    assert_eq!(f64::from_bits(t.tempo), 120.0);
    t.update(Some(1_500)).unwrap();
    assert_eq!(t.system_time, 1_500);
    t.update(Some((1u128 << 64) + 9)).unwrap();
    assert_eq!(t.system_time, 9);
    t.update(None).unwrap();
    assert_eq!(t.system_time, 0);
    assert_eq!(TimingContext::default().system_time, 0);
}

#[test]
fn component_handler_refuses_edits() {
    let handler = ComponentHandler::new();
    assert_eq!(handler.begin_edit(1), kResultFalse);
    assert_eq!(handler.end_edit(1), kResultFalse);
    assert_eq!(handler.perform_edit(1, 0.5f64.to_bits()), kResultFalse);
    assert_eq!(handler.restart_component(0), kResultFalse);
}

#[test]
fn edit_controller_lifecycle() {
    let mut own = EditController::new(true);
    assert!(own.initialize(kResultOk).is_ok());
    let e = own.initialize(kResultFalse).unwrap_err();
    assert_eq!(e.kind(), ErrorKind::InitializationFailed);
    assert_eq!(own.terminate().unwrap(), vec![ControllerCall::Terminate]);
    assert_eq!(own.dispose(), vec![ControllerCall::Terminate]);
    assert!(!own.is_instance);
    assert!(own.dispose().is_empty());
    let mut shared = EditController::new(false);
    assert!(shared.initialize(kResultFalse).is_ok());
    assert!(shared.terminate().unwrap().is_empty());
    assert!(shared.dispose().is_empty());
}

#[test]
fn edit_controller_judges_answers() {
    let c = EditController::new(false);
    assert!(c.set_component_state(kResultOk).is_ok());
    assert_eq!(c.set_component_state(kResultFalse).unwrap_err().message(), "failed to get edit controller state");
    assert_eq!(c.set_state(kResultFalse).unwrap_err().kind(), ErrorKind::CallFailed);
    assert!(c.get_state(kResultOk).is_ok());
    assert_eq!(c.set_param_normalized(kResultFalse).unwrap_err().message(), "failed to set component handler");
    assert!(c.set_param_normalized(kResultOk).is_ok());
    assert!(c.set_component_handler(kResultOk).is_ok());
    assert_eq!(c.set_component_handler(3).unwrap_err().kind(), ErrorKind::CallFailed);
    assert_eq!(c.get_param_value_by_string(kResultOk, 0.25f64.to_bits()).unwrap(), 0.25f64.to_bits());
    assert_eq!(
        c.get_param_value_by_string(kResultFalse, 0).unwrap_err().message(),
        "failed to get param value by string"
    );
    let info = ParameterInfo {
        id: 7,
        title: vec![0x41, 0],
        short_title: vec![0],
        units: vec![0],
        step_count: 0,
        default_normalized_value: 0,
        unit_id: 0,
        flags: 1,
    };
    assert_eq!(c.get_parameter_info(kResultOk, info).ok().unwrap().id, 7);
    let info = ParameterInfo {
        id: 7,
        title: vec![],
        short_title: vec![],
        units: vec![],
        step_count: 0,
        default_normalized_value: 0,
        unit_id: 0,
        flags: 1,
    };
    assert_eq!(c.get_parameter_info(kResultFalse, info).err().unwrap().message(), "failed to get edit parameter info");
}

#[test]
fn edit_controller_texts() {
    let c = EditController::new(false);
    let buffer: Vec<u16> = "12.5 dB".encode_utf16().collect();
    assert_eq!(c.get_param_string_by_value(kResultOk, &buffer).unwrap(), "12.5 dB");
    let mut padded = buffer.clone();
    padded.resize(128, 0);
    let text = c.get_param_string_by_value(kResultOk, &padded).unwrap();
    assert_eq!(text.chars().count(), 128);
    assert!(text.starts_with("12.5 dB\0"));
    assert_eq!(c.get_param_string_by_value(kResultOk, &vec![0xD834, 0xDD1E]).unwrap(), "𝄞");
    let e = c.get_param_string_by_value(kResultOk, &vec![0x41, 0xD800]).unwrap_err();
    assert_eq!(e.message(), "failed to get param string by value");
    assert!(c.get_param_string_by_value(kResultFalse, &buffer).is_err());
    assert_eq!(EditController::param_string_buffer("0.5"), vec![0x30, 0x2E, 0x35, 0]);
    assert_eq!(EditController::param_string_buffer(&"y".repeat(200)).len(), 128);
}

#[test]
fn view_rectangles() {
    let a = ViewRect { left: 0, top: 0, right: 100, bottom: 50 };
    let b = ViewRect { left: 0, top: 0, right: 100, bottom: 51 };
    assert!(is_equal(&a, &a));
    assert!(!is_equal(&a, &b));
    assert_eq!(ViewRect::default(), ViewRect { left: 0, top: 0, right: 0, bottom: 0 });
}

#[test]
fn plug_frame_guards_against_reentry() {
    let mut frame = PlugFrame::new();
    let size = ViewRect { left: 10, top: 20, right: 110, bottom: 70 };
    assert!(frame.begin_resize());
    assert!(!frame.begin_resize());
    assert_eq!(frame.resize_view(size), (kResultOk, None));
    frame.attach();
    assert!(frame.begin_resize());
    assert_eq!(frame.resize_view(size), (kResultOk, Some(Size::new(100, 50))));
    assert!(frame.begin_resize());
    frame.detach();
    assert_eq!(frame.resize_view(size), (kResultOk, None));
}

#[test]
fn view_attach_detach_and_sizes() {
    let (mut view, call) = View::new().unwrap();
    assert_eq!(call, ViewCall::SetFrame(true));
    assert_eq!(view.attach(kResultFalse).unwrap_err().message(), "failed to attach view to window");
    assert!(view.attach(kResultOk).is_ok());
    assert_eq!(view.detach(kResultFalse).unwrap_err().message(), "failed to remove view to window");
    assert!(view.detach(kResultOk).is_ok());
    assert_eq!(view.release(), vec![ViewCall::SetFrame(false), ViewCall::Release]);
    assert!(view.can_resize(kResultTrue));
    assert!(!view.can_resize(kResultFalse));
    let reported = ViewRect { left: 5, top: 6, right: 640, bottom: 480 };
    assert_eq!(view.get_size(reported), Size::new(640, 480));
    let same = ViewRect { left: 0, top: 0, right: 800, bottom: 600 };
    assert_eq!(view.on_size(800, 600, kResultTrue, same).unwrap(), None);
    assert_eq!(view.on_size(800, 600, kResultFalse, same).unwrap(), Some(ViewCall::OnSize(same)));
    assert_eq!(view.on_size(801, 600, kResultTrue, same).unwrap(), Some(ViewCall::OnSize(ViewRect { right: 801, ..same })));
    let wanted = Size::new(300, 200);
    let current = ViewRect { left: 10, top: 10, right: 410, bottom: 310 };
    assert_eq!(view.constrain_size(&wanted, kResultFalse, current), Some(Size::new(400, 300)));
    assert_eq!(view.constrain_size(&wanted, kResultTrue, current), None);
    assert_eq!(view.constrain_size(&Size::new(400, 300), kResultFalse, current), None);
}

#[test]
fn window_words_and_bytes() {
    assert_eq!(lo_word(0x1234_5678), 0x5678);
    assert_eq!(hi_word(0x1234_5678), 0x1234);
    assert_eq!(lo_byte(0xABCD), 0xCD);
    assert_eq!(hi_byte(0xABCD), 0xAB);
    assert_eq!(lo_word(u32::MAX), 0xFFFF);
    assert_eq!(hi_word(u32::MAX), 0xFFFF);
}

#[test]
fn window_views_and_sizes() {
    assert_eq!(Window::new(false).err().unwrap().message(), "failed to create window");
    let mut window = Window::new(true).unwrap();
    assert!(window.handle());
    assert_eq!(window.stop_timer().unwrap(), WindowCall::StopTimer);
    assert!(window.detach_view().unwrap().is_empty());
    let (view, _) = View::new().unwrap();
    window.attach_view(view).unwrap();
    let (second, _) = View::new().unwrap();
    assert_eq!(window.attach_view(second).unwrap_err().kind(), ErrorKind::PreconditionFailed);
    assert_eq!(
        window.detach_view().unwrap(),
        vec![
            WindowCall::View(ViewCall::Removed),
            WindowCall::View(ViewCall::SetFrame(false)),
            WindowCall::View(ViewCall::Release),
        ]
    );
    assert!(window.resize(640, 480, Size::new(800, 600)));
    assert!(!window.resize(800, 600, Size::new(800, 600)));
    let (third, _) = View::new().unwrap();
    window.attach_view(third).unwrap();
    assert_eq!(window.dispose().len(), 6);
    assert!(!window.handle());
    assert!(window.dispose().is_empty());
    assert_eq!(window.stop_timer().unwrap_err().message(), "invalid window handle");
    assert_eq!(Window::fit(true, Size::new(800, 600), Size::new(10, 10)), Fit::ViewToWindow(800, 600));
    assert_eq!(Window::fit(false, Size::new(800, 600), Size::new(320, 240)), Fit::WindowToView(320, 240));
    assert_eq!(Window::fit(false, Size::new(800, 600), Size::new(16, 240)), Fit::Keep);
    assert_eq!(
        Window::constrain_sizing(100, 50, Size::new(816, 639), Size::new(800, 600), Size::new(400, 300)),
        (516, 389)
    );
}

#[test]
fn window_messages() {
    let mut window = Window::new(true).unwrap();
    assert_eq!(window.on_event(0x0001, 0, 0), Action::Default);
    assert_eq!(window.on_event(0x0014, 0, 0), Action::Answer(1));
    assert_eq!(window.on_event(0x000F, 0, 0), Action::Paint);
    assert_eq!(window.on_event(0x0005, 0, 0), Action::ResizeView);
    assert_eq!(window.on_event(0x0214, 0, 0), Action::ConstrainSizing);
    assert_eq!(window.on_event(0x0401, 640, 480), Action::ResizeWindow(640, 480));
    assert_eq!(window.on_event(0x0010, 0, 0), Action::CloseWindow);
    assert_eq!(window.on_event(0x0002, 0, 0), Action::Quit);
    assert_eq!(window.on_event(0x0113, 0, 0), Action::Answer(0));
    assert_eq!(window.on_event(0x9999, 0, 0), Action::Default);
    assert_eq!(window.on_event(0x02E0, 0, 0), Action::ScaleForWindow);
    assert_eq!(window.on_event(0x02E4, 144, 0), Action::ScaleForDpi);
    assert!(window.dpi_changing);
    assert!(!window.resize(1200, 900, Size::new(800, 600)));
    assert_eq!(window.dpi_changed_size, Size::new(1200, 900));
    assert_eq!(window.on_event(0x02E4, 144, 0), Action::ScaleForDpiAndPropose);
    assert_eq!(window.on_event(0x02E0, 0, 0), Action::ApplySuggestedRect);
    assert!(!window.dpi_changing);
    assert_eq!(window.dpi_changed_size, Size::new(0, 0));
}

#[test]
fn painter_colors_and_objects() {
    assert_eq!(rgb(0x11, 0x22, 0x33), 0x0033_2211);
    assert_eq!(rgb(32, 32, 32), 0x0020_2020);
    assert_eq!(rgba(0x11, 0x22, 0x33, 0x44), 0x4433_2211);
    assert_eq!(rgba(0xff, 0xff, 0xff, 0xff), u32::MAX);
    let mut object = PaintObject::from(true);
    assert!(!object.is_null());
    assert!(object.delete());
    assert!(!object.delete());
    assert!(PaintObject::null().is_null());
    let mut painter = Painter::new();
    assert!(!painter.dispose());
    assert!(painter.begin());
    painter.end();
    assert!(!painter.begin());
    painter.end();
    assert!(painter.dispose());
    assert!(!painter.dispose());
}

#[test]
fn string_map_keeps_insertion_order() {
    let mut map: StrMap<u64> = StrMap::new();
    assert!(map.is_empty());
    map.insert("b".to_string(), 1);
    map.insert("a".to_string(), 2);
    map.insert("b".to_string(), 3);
    assert_eq!(map.len(), 2);
    assert_eq!(map.key_at(0), "b");
    assert_eq!(*map.value_at(0), 3);
    assert_eq!(map.find("a"), Some(1));
    assert!(map.contains_key("a"));
    assert_eq!(map.get("c"), None);
    assert_eq!(map.remove("b"), Some(3));
    assert_eq!(map.remove("b"), None);
    assert_eq!(map.key_at(0), "a");
    map.clear();
    assert_eq!(map.len(), 0);
}
