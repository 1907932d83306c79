use lapce_core::geometry::{Point, Rect, Size, Vec2};
use lapce_core::scroll::{
    BarHeldState, BarHoveredState, BoxConstraints, ClipBox, ClipBoxNew, LapcePadding,
    LapceScroll, LapceScrollNew, ScrollAction, ScrollBarStyle, ScrollComponent,
    ScrollComponentNew, ScrollEvent, ScrollLifeCycle, Viewport, ViewportNew,
    SCROLLBAR_MIN_SIZE,
};

fn style() -> ScrollBarStyle {
    ScrollBarStyle { bar_width: 10, bar_pad: 0, max_opacity: 700, fade_delay_millis: 350 }
}

fn port_tall() -> Viewport {
    // A 100x100 view into content 100 wide and 400 tall.
    Viewport {
        content_size: Size { width: 100, height: 400 },
        rect: Rect { x0: 0, y0: 0, x1: 100, y1: 100 },
    }
}

#[test]
fn clamp_keeps_good_origin() {
    let port = port_tall();
    let p = port.clamp_view_origin(Point { x: 0, y: 150 });
    assert_eq!(p, Point { x: 0, y: 150 });
}

#[test]
fn clamp_pins_to_content_edge() {
    let port = port_tall();
    let p = port.clamp_view_origin(Point { x: 50, y: 1000 });
    // No room horizontally (content as wide as the view), 300 rows below.
    assert_eq!(p, Point { x: 0, y: 300 });
}

#[test]
fn clamp_small_content_gives_zero() {
    let port = Viewport {
        content_size: Size { width: 10, height: 10 },
        rect: Rect { x0: 0, y0: 0, x1: 100, y1: 100 },
    };
    let p = port.clamp_view_origin(Point { x: 40, y: -3 });
    assert_eq!(p, Point { x: 0, y: 0 });
}

#[test]
fn pan_to_clamps_and_reports_change() {
    let mut port = port_tall();
    assert!(port.pan_to(Point { x: 0, y: 1000 }));
    assert_eq!(port.rect, Rect { x0: 0, y0: 300, x1: 100, y1: 400 });
    // Already at the bottom: no further change.
    assert!(!port.pan_to(Point { x: 0, y: 1000 }));
}

#[test]
fn pan_by_at_edge_does_not_move() {
    let mut port = port_tall();
    assert!(port.pan_by(Vec2 { x: 0, y: 50 }));
    assert_eq!(port.rect.y0, 50);
    assert!(!port.pan_by(Vec2 { x: -5, y: 0 }));
    assert_eq!(port.rect.y0, 50);
    assert_eq!(port.rect.x0, 0);
}

#[test]
fn force_pan_ignores_content() {
    let mut port = port_tall();
    assert!(port.force_pan_to(Point { x: -30, y: 900 }));
    assert_eq!(port.rect, Rect { x0: -30, y0: 900, x1: 70, y1: 1000 });
}

#[test]
fn pan_to_visible_moves_the_least() {
    let mut port = ViewportNew {
        content_size: Size { width: 400, height: 400 },
        rect: Rect { x0: 0, y0: 0, x1: 100, y1: 100 },
    };
    // A row just below the view: the view slides down to its bottom edge.
    assert!(port.pan_to_visible(Rect { x0: 10, y0: 120, x1: 20, y1: 130 }));
    assert_eq!(port.rect, Rect { x0: 0, y0: 30, x1: 100, y1: 130 });
    // Already visible: nothing happens.
    assert!(!port.pan_to_visible(Rect { x0: 10, y0: 40, x1: 20, y1: 50 }));
}

#[test]
fn vertical_bar_not_shown_when_all_visible() {
    let comp = ScrollComponent::new();
    let port = Viewport {
        content_size: Size { width: 100, height: 100 },
        rect: Rect { x0: 0, y0: 0, x1: 100, y1: 100 },
    };
    assert_eq!(comp.calc_vertical_bar_bounds(&port, &style()), None);
}

#[test]
fn vertical_bar_bounds_at_top() {
    let comp = ScrollComponent::new();
    let port = port_tall();
    // A quarter visible would give 25 pixels; the minimum length wins.
    let bounds = comp.calc_vertical_bar_bounds(&port, &style()).unwrap();
    assert_eq!(SCROLLBAR_MIN_SIZE, 45);
    assert_eq!(bounds, Rect { x0: 90, y0: 0, x1: 100, y1: 45 });
}

#[test]
fn vertical_bar_bounds_scrolled() {
    let comp = ScrollComponent::new();
    let mut port = port_tall();
    assert!(port.pan_to(Point { x: 0, y: 150 }));
    // Track room is 100 - 45 - 10 = 45; half scrolled: ceil(45*150/300) = 23.
    let bounds = comp.calc_vertical_bar_bounds(&port, &style()).unwrap();
    assert_eq!(bounds, Rect { x0: 90, y0: 173, x1: 100, y1: 218 });
}

#[test]
fn horizontal_bar_bounds() {
    let comp = ScrollComponent::new();
    let port = Viewport {
        content_size: Size { width: 400, height: 100 },
        rect: Rect { x0: 0, y0: 0, x1: 100, y1: 100 },
    };
    let bounds = comp.calc_horizontal_bar_bounds(&port, &style()).unwrap();
    assert_eq!(bounds, Rect { x0: 0, y0: 90, x1: 45, y1: 100 });
}

#[test]
fn point_hits_vertical_bar_stretches_to_edge() {
    let comp = ScrollComponent::new();
    let port = port_tall();
    // On the bar.
    assert!(comp.point_hits_vertical_bar(&port, Point { x: 95, y: 20 }, &style()));
    // Off the bar vertically.
    assert!(!comp.point_hits_vertical_bar(&port, Point { x: 95, y: 60 }, &style()));
    // Inside the content area.
    assert!(!comp.point_hits_vertical_bar(&port, Point { x: 50, y: 20 }, &style()));
}

#[test]
fn is_hovered_means_some_bar() {
    assert!(!BarHoveredState::Neither.is_hovered());
    assert!(BarHoveredState::Vertical.is_hovered());
    assert!(BarHoveredState::Horizontal.is_hovered());
}

#[test]
fn hover_then_press_then_drag_then_release() {
    let mut comp = ScrollComponent::new();
    let mut port = port_tall();
    let st = style();

    // Moving onto the vertical bar marks it hovered and shows the bars.
    let acts = comp.event(&mut port, &ScrollEvent::MouseMove(Point { x: 95, y: 20 }), &st);
    assert!(matches!(comp.hovered, BarHoveredState::Vertical));
    assert_eq!(comp.opacity, 700);
    assert_eq!(acts, vec![ScrollAction::RequestPaint, ScrollAction::SetHandled]);

    // Pressing grabs the bar, remembering the offset within it.
    let acts = comp.event(&mut port, &ScrollEvent::MouseDown(Point { x: 95, y: 20 }), &st);
    match comp.held {
        BarHeldState::Vertical(grab) => assert_eq!(grab, 20),
        _ => panic!("vertical bar should be held"),
    }
    assert_eq!(acts, vec![ScrollAction::SetActive(true), ScrollAction::SetHandled]);

    // Dragging 10 pixels down the track pans 40 content pixels (the
    // content is four times the view).
    let acts = comp.event(&mut port, &ScrollEvent::MouseMove(Point { x: 95, y: 30 }), &st);
    assert_eq!(port.rect.y0, 40);
    assert_eq!(acts, vec![ScrollAction::SetHandled, ScrollAction::RequestPaint]);

    // Releasing away from the bar lets go and starts the fade.
    let acts = comp.event(&mut port, &ScrollEvent::MouseUp(Point { x: 50, y: 50 }), &st);
    assert!(matches!(comp.held, BarHeldState::Neither));
    assert_eq!(
        acts,
        vec![
            ScrollAction::SetActive(false),
            ScrollAction::RequestFadeTimer(350),
            ScrollAction::SetHandled
        ]
    );
}

#[test]
fn fade_timer_then_anim_frames() {
    let mut comp = ScrollComponent::new();
    let mut port = port_tall();
    let st = style();
    comp.reset_scrollbar_fade(&st);
    comp.set_fade_timer(7);
    assert_eq!(comp.opacity, 700);

    // A stranger's timer is ignored.
    let acts = comp.event(&mut port, &ScrollEvent::Timer(9), &st);
    assert!(acts.is_empty());

    // Our timer schedules the animation.
    let acts = comp.event(&mut port, &ScrollEvent::Timer(7), &st);
    assert_eq!(comp.timer_id, 0);
    assert_eq!(acts, vec![ScrollAction::RequestAnimFrame, ScrollAction::SetHandled]);

    // A frame 100ms later fades by 200 thousandths and keeps animating.
    let acts = comp.event(&mut port, &ScrollEvent::AnimFrame(100_000_000), &st);
    assert_eq!(comp.opacity, 500);
    assert_eq!(acts.first(), Some(&ScrollAction::RequestAnimFrame));
    // The bar region is repainted.
    assert!(acts.iter().any(|a| matches!(a, ScrollAction::RequestPaintRect(_))));
}

#[test]
fn wheel_scrolls_and_resets_fade() {
    let mut comp = ScrollComponent::new();
    let mut port = port_tall();
    let st = style();
    let acts = comp.handle_scroll(&mut port, false, &ScrollEvent::Wheel(Vec2 { x: 0, y: 60 }),
        &st);
    assert_eq!(port.rect.y0, 60);
    assert_eq!(comp.opacity, 700);
    assert_eq!(
        acts,
        vec![
            ScrollAction::RequestPaint,
            ScrollAction::SetHandled,
            ScrollAction::RequestFadeTimer(350)
        ]
    );

    // A handled event is left alone.
    let acts = comp.handle_scroll(&mut port, true, &ScrollEvent::Wheel(Vec2 { x: 0, y: 60 }),
        &st);
    assert!(acts.is_empty());
    assert_eq!(port.rect.y0, 60);
}

#[test]
fn lifecycle_size_shows_bars() {
    let mut comp = ScrollComponent::new();
    let st = style();
    let acts = comp.lifecycle(&ScrollLifeCycle::Size(Size { width: 10, height: 10 }), &st);
    assert_eq!(comp.opacity, 700);
    assert_eq!(acts, vec![ScrollAction::RequestPaint, ScrollAction::RequestFadeTimer(350)]);
    let acts = comp.lifecycle(&ScrollLifeCycle::Other, &st);
    assert!(acts.is_empty());
}

#[test]
fn new_component_fades_by_ticks() {
    let mut comp = ScrollComponentNew::new();
    let mut port = ViewportNew {
        content_size: Size { width: 100, height: 400 },
        rect: Rect { x0: 0, y0: 0, x1: 100, y1: 100 },
    };
    let st = style();

    // The wheel pans and always asks for paint, fade and the handled mark.
    let acts = comp.handle_scroll(&mut port, false, &ScrollEvent::Wheel(Vec2 { x: 0, y: 30 }),
        &st);
    assert_eq!(port.rect.y0, 30);
    assert_eq!(
        acts,
        vec![
            ScrollAction::RequestPaint,
            ScrollAction::RequestFadeTimer(500),
            ScrollAction::SetHandled
        ]
    );
    comp.set_fade_timer(3);

    // The fade-delay timer starts the tick timer.
    let acts = comp.event(&mut port, &ScrollEvent::Timer(3), &st);
    assert_eq!(comp.timer_id, 0);
    assert_eq!(
        acts,
        vec![ScrollAction::RequestFadeTickTimer(20), ScrollAction::SetHandled]
    );
    comp.set_fade_interval(4);

    // Each tick takes one step of opacity and repaints the bar.
    let acts = comp.event(&mut port, &ScrollEvent::Timer(4), &st);
    assert_eq!(comp.opacity, 680);
    assert_eq!(acts.first(), Some(&ScrollAction::RequestFadeTickTimer(20)));
    assert!(acts.iter().any(|a| matches!(a, ScrollAction::RequestPaintRect(_))));
}

#[test]
fn box_constraints_constrain_and_shrink() {
    let bc = BoxConstraints::new(
        Size { width: 10, height: 10 },
        Size { width: 100, height: 100 },
    );
    assert_eq!(
        bc.constrain(Size { width: 500, height: 5 }),
        Size { width: 100, height: 10 }
    );
    let shrunk = bc.shrink(Size { width: 30, height: 120 });
    assert_eq!(shrunk.min, Size { width: 0, height: 0 });
    assert_eq!(shrunk.max, Size { width: 70, height: 0 });
}

#[test]
fn clip_box_layout_fits_view_and_clamps() {
    let mut clip = ClipBox::new();
    let bc = BoxConstraints::new(
        Size { width: 0, height: 0 },
        Size { width: 100, height: 100 },
    );
    let size = clip.layout(&bc, Size { width: 100, height: 400 });
    assert_eq!(size, Size { width: 100, height: 100 });
    assert_eq!(clip.content_size(), Size { width: 100, height: 400 });

    // Scroll to the bottom, then shrink the content: the offset is
    // clamped back in.
    clip.pan_to(Point { x: 0, y: 300 });
    let size = clip.layout(&bc, Size { width: 100, height: 150 });
    assert_eq!(size, Size { width: 100, height: 100 });
    assert_eq!(clip.viewport_origin(), Point { x: 0, y: 50 });
}

#[test]
fn clip_box_constrain_flags() {
    let clip = ClipBox::new().constrain_horizontal(true);
    let limits = clip.max_child_sizes(Size { width: 100, height: 100 });
    assert_eq!(limits, (Some(100), None));
    let mut clip = ClipBoxNew::new();
    clip.set_constrain_vertical(true);
    assert_eq!(clip.viewport(), ViewportNew::new());
}

#[test]
fn scroll_container_ensure_visible() {
    let mut scroll = LapceScroll::new();
    let bc = BoxConstraints::new(
        Size { width: 0, height: 0 },
        Size { width: 100, height: 100 },
    );
    scroll.layout(&bc, Size { width: 100, height: 400 });

    // A line below the fold: scroll down just enough plus the margin.
    let changed = scroll.ensure_visible(
        Size { width: 100, height: 100 },
        &Rect { x0: 0, y0: 180, x1: 100, y1: 200 },
        &(0, 10),
    );
    assert!(changed);
    assert_eq!(scroll.offset(), Vec2 { x: 0, y: 110 });

    // Already in view: nothing moves.
    let changed = scroll.ensure_visible(
        Size { width: 100, height: 100 },
        &Rect { x0: 0, y0: 150, x1: 100, y1: 160 },
        &(0, 10),
    );
    assert!(!changed);
}

#[test]
fn scroll_new_layout_reports_viewport_change() {
    let mut scroll = LapceScrollNew::new().vertical();
    let st = style();
    let bc = BoxConstraints::new(
        Size { width: 0, height: 0 },
        Size { width: 100, height: 100 },
    );
    let (size, changed) = scroll.layout(&bc, Size { width: 100, height: 400 }, &st);
    assert_eq!(size, Size { width: 100, height: 100 });
    assert!(changed);
    assert_eq!(scroll.component_mut().opacity, 700);

    // The same layout again changes nothing.
    let (_, changed) = scroll.layout(&bc, Size { width: 100, height: 400 }, &st);
    assert!(!changed);
}

#[test]
fn padding_layout_adds_the_insets() {
    let pad = LapcePadding::new(5, 10, 15, 20);
    let (origin, size) = pad.layout(Size { width: 100, height: 50 });
    assert_eq!(origin, Point { x: 5, y: 10 });
    assert_eq!(size, Size { width: 120, height: 80 });
    let bc = BoxConstraints::new(
        Size { width: 0, height: 0 },
        Size { width: 100, height: 100 },
    );
    let child_bc = pad.child_constraints(&bc);
    assert_eq!(child_bc.max, Size { width: 80, height: 70 });
}

#[test]
fn bars_to_paint_follow_opacity() {
    let mut comp = ScrollComponent::new();
    let mut port = port_tall();
    assert!(port.pan_to(Point { x: 0, y: 150 }));
    let st = style();

    // Faded out: nothing to paint.
    assert_eq!(comp.bars_to_paint(&port, &st), None);

    // Visible: the vertical bar, moved back into viewport coordinates.
    comp.reset_scrollbar_fade(&st);
    let (vertical, horizontal) = comp.bars_to_paint(&port, &st).unwrap();
    assert_eq!(vertical, Some(Rect { x0: 90, y0: 23, x1: 100, y1: 68 }));
    assert_eq!(horizontal, None);
}
