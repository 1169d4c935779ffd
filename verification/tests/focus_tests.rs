use wayice::focus::{
    AxisFrame, ButtonEvent, ButtonState, Delivery, DecorationHandle, ForeignHandle,
    GestureBeginEvent, GestureEndEvent, GesturePinchUpdateEvent, GestureSwipeUpdateEvent,
    InputEvent, KeyState, KeyboardFocusTarget, LayerHandle, ModifiersState, MotionEvent,
    PointerFocusTarget, PopupHandle, RelativeMotionEvent, SinkId, SurfaceHandle, TouchDownEvent,
    TouchMotionEvent, TouchOrientationEvent, TouchShapeEvent, TouchUpEvent, WindowHandle,
    WindowSurface,
};

fn surface(id: u64, client: u64) -> SurfaceHandle {
    SurfaceHandle {
        id,
        client,
        alive: true,
    }
}

fn foreign(id: u64, client: u64, backing: Option<SurfaceHandle>) -> ForeignHandle {
    ForeignHandle {
        id,
        surface: backing,
        client,
        alive: true,
    }
}

#[test]
fn alive_follows_the_wrapped_handle() {
    let t = PointerFocusTarget::WlSurface(surface(1, 10));
    assert!(t.alive());
    let dead = PointerFocusTarget::WlSurface(SurfaceHandle {
        id: 1,
        client: 10,
        alive: false,
    });
    assert!(!dead.alive());

    let k = KeyboardFocusTarget::Popup(PopupHandle {
        surface: surface(2, 10),
    });
    assert!(k.alive());
}

#[test]
fn liveness_never_returns_after_teardown() {
    let mut t = KeyboardFocusTarget::Window(WindowHandle {
        surface: WindowSurface::Wayland(surface(3, 11)),
    });
    assert!(t.alive());
    t.retire();
    assert!(!t.alive());
    t.retire();
    assert!(!t.alive());

    let mut p = PointerFocusTarget::X11Surface(foreign(4, 12, None));
    assert!(p.alive());
    p.retire();
    assert!(!p.alive());
    p.retire();
    assert!(!p.alive());

    let mut d = PointerFocusTarget::SSD(DecorationHandle {
        id: 5,
        surface: None,
        alive: true,
    });
    d.retire();
    assert!(!d.alive());
}

#[test]
fn popup_keyboard_target_converts_to_its_backing_surface() {
    let s = surface(7, 20);
    let k = KeyboardFocusTarget::Popup(PopupHandle { surface: s });
    let p = PointerFocusTarget::from(k);
    assert_eq!(p, PointerFocusTarget::WlSurface(s));
}

#[test]
fn window_conversion_keeps_the_underlying_surface_kind() {
    let s = surface(8, 21);
    let native = KeyboardFocusTarget::Window(WindowHandle {
        surface: WindowSurface::Wayland(s),
    });
    assert_eq!(
        PointerFocusTarget::from(native),
        PointerFocusTarget::WlSurface(s)
    );

    let f = foreign(9, 22, Some(s));
    let foreign_window = KeyboardFocusTarget::Window(WindowHandle {
        surface: WindowSurface::Foreign(f),
    });
    assert_eq!(
        PointerFocusTarget::from(foreign_window),
        PointerFocusTarget::X11Surface(f)
    );
}

#[test]
fn layer_and_popup_wrap_one_to_one() {
    let s = surface(10, 23);
    assert_eq!(
        KeyboardFocusTarget::from(LayerHandle { surface: s }),
        KeyboardFocusTarget::LayerSurface(LayerHandle { surface: s })
    );
    assert_eq!(
        KeyboardFocusTarget::from(PopupHandle { surface: s }),
        KeyboardFocusTarget::Popup(PopupHandle { surface: s })
    );
    assert_eq!(
        PointerFocusTarget::from(PopupHandle { surface: s }),
        PointerFocusTarget::WlSurface(s)
    );
    assert_eq!(
        PointerFocusTarget::from(s),
        PointerFocusTarget::WlSurface(s)
    );
}

#[test]
fn decoration_identity_degrades_to_no_match() {
    let bare = PointerFocusTarget::SSD(DecorationHandle {
        id: 30,
        surface: None,
        alive: true,
    });
    assert!(!bare.same_client_as(10));
    assert_eq!(bare.wl_surface(), None);

    let resolved = PointerFocusTarget::SSD(DecorationHandle {
        id: 31,
        surface: Some(surface(12, 10)),
        alive: true,
    });
    assert!(resolved.same_client_as(10));
    assert!(!resolved.same_client_as(11));
}

#[test]
fn identity_resolves_through_the_backing_surface() {
    let s = surface(13, 40);
    let t = PointerFocusTarget::WlSurface(s);
    assert!(t.same_client_as(40));
    assert!(!t.same_client_as(41));
    assert_eq!(t.wl_surface(), Some(s));

    let k = KeyboardFocusTarget::LayerSurface(LayerHandle { surface: s });
    assert!(k.same_client_as(40));
    assert_eq!(k.wl_surface(), Some(s));

    let orphan = KeyboardFocusTarget::Window(WindowHandle {
        surface: WindowSurface::Foreign(foreign(14, 42, None)),
    });
    assert_eq!(orphan.wl_surface(), None);
    assert!(!orphan.same_client_as(42));
}

#[test]
fn into_surface_resolves_the_backing_surface() {
    let s = surface(15, 43);
    assert_eq!(PointerFocusTarget::WlSurface(s).into_surface(), s);
    assert_eq!(
        PointerFocusTarget::X11Surface(foreign(16, 43, Some(s))).into_surface(),
        s
    );
}

#[test]
fn pointer_events_are_forwarded_unmodified() {
    let t = PointerFocusTarget::WlSurface(surface(20, 50));
    let ev = MotionEvent {
        location_x: 640,
        location_y: 480,
        serial: 7,
        time: 1000,
    };
    assert_eq!(
        t.enter(&ev),
        Delivery {
            sink: SinkId::Surface(20),
            event: InputEvent::PointerEnter(ev),
        }
    );
    assert_eq!(
        t.motion(&ev),
        Delivery {
            sink: SinkId::Surface(20),
            event: InputEvent::PointerMotion(ev),
        }
    );

    let button = ButtonEvent {
        serial: 8,
        time: 1001,
        button: 272,
        state: ButtonState::Pressed,
    };
    let f = PointerFocusTarget::X11Surface(foreign(21, 50, None));
    assert_eq!(
        f.button(&button),
        Delivery {
            sink: SinkId::Foreign(21),
            event: InputEvent::Button(button),
        }
    );

    let d = PointerFocusTarget::SSD(DecorationHandle {
        id: 22,
        surface: None,
        alive: true,
    });
    let axis = AxisFrame {
        time: 1002,
        horizontal: 0,
        vertical: -120,
    };
    assert_eq!(
        d.axis(axis),
        Delivery {
            sink: SinkId::Decoration(22),
            event: InputEvent::Axis(axis),
        }
    );
    assert_eq!(
        d.frame(),
        Delivery {
            sink: SinkId::Decoration(22),
            event: InputEvent::PointerFrame,
        }
    );
}

#[test]
fn touch_events_are_forwarded_unmodified() {
    let t = PointerFocusTarget::WlSurface(surface(23, 51));
    let down = TouchDownEvent {
        serial: 9,
        time: 2000,
        slot: 0,
        location_x: 5,
        location_y: 6,
    };
    assert_eq!(
        t.down(&down, 77),
        Delivery {
            sink: SinkId::Surface(23),
            event: InputEvent::TouchDown {
                event: down,
                seq: 77,
            },
        }
    );
    assert_eq!(
        t.cancel(78),
        Delivery {
            sink: SinkId::Surface(23),
            event: InputEvent::TouchCancel { seq: 78 },
        }
    );
}

#[test]
fn gesture_and_relative_events_are_forwarded_unmodified() {
    let t = PointerFocusTarget::WlSurface(surface(26, 53));
    let begin = GestureBeginEvent {
        serial: 1,
        time: 10,
        fingers: 3,
    };
    let end = GestureEndEvent {
        serial: 2,
        time: 20,
        cancelled: true,
    };
    assert_eq!(
        t.gesture_swipe_begin(&begin).event,
        InputEvent::GestureSwipeBegin(begin)
    );
    assert_eq!(
        t.gesture_swipe_update(&GestureSwipeUpdateEvent {
            time: 11,
            delta_x: 4,
            delta_y: -4,
        })
        .event,
        InputEvent::GestureSwipeUpdate(GestureSwipeUpdateEvent {
            time: 11,
            delta_x: 4,
            delta_y: -4,
        })
    );
    assert_eq!(
        t.gesture_swipe_end(&end).event,
        InputEvent::GestureSwipeEnd(end)
    );
    assert_eq!(
        t.gesture_pinch_begin(&begin).event,
        InputEvent::GesturePinchBegin(begin)
    );
    let pinch = GesturePinchUpdateEvent {
        time: 12,
        delta_x: 1,
        delta_y: 2,
        scale: 1500,
        rotation: -90,
    };
    assert_eq!(
        t.gesture_pinch_update(&pinch).event,
        InputEvent::GesturePinchUpdate(pinch)
    );
    assert_eq!(
        t.gesture_pinch_end(&end).event,
        InputEvent::GesturePinchEnd(end)
    );
    assert_eq!(
        t.gesture_hold_begin(&begin).event,
        InputEvent::GestureHoldBegin(begin)
    );
    assert_eq!(
        t.gesture_hold_end(&end).event,
        InputEvent::GestureHoldEnd(end)
    );
    let rel = RelativeMotionEvent {
        delta_x: -3,
        delta_y: 9,
        utime: 123456,
    };
    assert_eq!(t.relative_motion(&rel).event, InputEvent::RelativeMotion(rel));
    assert_eq!(t.leave(3, 30).event, InputEvent::PointerLeave {
        serial: 3,
        time: 30,
    });
    assert_eq!(t.relative_motion(&rel).sink, SinkId::Surface(26));
}

#[test]
fn remaining_touch_events_are_forwarded_unmodified() {
    let t = PointerFocusTarget::X11Surface(foreign(27, 54, None));
    let up = TouchUpEvent {
        serial: 5,
        time: 40,
        slot: 1,
    };
    assert_eq!(t.up(&up, 80).event, InputEvent::TouchUp { event: up, seq: 80 });
    let motion = TouchMotionEvent {
        time: 41,
        slot: 1,
        location_x: 7,
        location_y: 8,
    };
    assert_eq!(
        t.touch_motion(&motion, 81).event,
        InputEvent::TouchMotion {
            event: motion,
            seq: 81,
        }
    );
    assert_eq!(
        t.touch_frame(82).event,
        InputEvent::TouchFrame { seq: 82 }
    );
    let shape = TouchShapeEvent {
        time: 42,
        slot: 1,
        major: 10,
        minor: 5,
    };
    assert_eq!(
        t.shape(&shape, 83).event,
        InputEvent::TouchShape {
            event: shape,
            seq: 83,
        }
    );
    let orientation = TouchOrientationEvent {
        time: 43,
        slot: 1,
        orientation: 45,
    };
    assert_eq!(
        t.orientation(&orientation, 84).event,
        InputEvent::TouchOrientation {
            event: orientation,
            seq: 84,
        }
    );
    assert_eq!(t.up(&up, 80).sink, SinkId::Foreign(27));
}

#[test]
fn modifier_changes_are_forwarded_unmodified() {
    let s = surface(28, 55);
    let layer = KeyboardFocusTarget::LayerSurface(LayerHandle { surface: s });
    let mods = ModifiersState {
        ctrl: true,
        alt: false,
        shift: true,
        logo: false,
        caps_lock: false,
        num_lock: true,
    };
    assert_eq!(
        layer.modifiers(mods, 13),
        Delivery {
            sink: SinkId::Surface(28),
            event: InputEvent::Modifiers {
                modifiers: mods,
                serial: 13,
            },
        }
    );
}

#[test]
fn keyboard_events_route_by_the_underlying_surface_kind() {
    let s = surface(24, 52);
    let native = KeyboardFocusTarget::Window(WindowHandle {
        surface: WindowSurface::Wayland(s),
    });
    assert_eq!(
        native.key(30, KeyState::Pressed, 10, 3000),
        Delivery {
            sink: SinkId::Surface(24),
            event: InputEvent::Key {
                key: 30,
                state: KeyState::Pressed,
                serial: 10,
                time: 3000,
            },
        }
    );

    let f = foreign(25, 52, Some(s));
    let foreign_window = KeyboardFocusTarget::Window(WindowHandle {
        surface: WindowSurface::Foreign(f),
    });
    assert_eq!(
        foreign_window.enter(vec![30, 31], 11),
        Delivery {
            sink: SinkId::Foreign(25),
            event: InputEvent::KeyboardEnter {
                keys: vec![30, 31],
                serial: 11,
            },
        }
    );

    let popup = KeyboardFocusTarget::Popup(PopupHandle { surface: s });
    assert_eq!(
        popup.leave(12),
        Delivery {
            sink: SinkId::Surface(24),
            event: InputEvent::KeyboardLeave { serial: 12 },
        }
    );
}
