use aim2go::config::CrosshairType;
use aim2go::config::OverlayConfig;
use aim2go::config::Rgb;
use aim2go::overlay::CrosshairShape;
use aim2go::overlay::GeometryError;
use aim2go::overlay::SurfaceAction;
use aim2go::overlay::SurfaceMessage;
use aim2go::overlay::SurfaceState;
use aim2go::overlay::WindowRect;
use aim2go::overlay::create_overlay;
use aim2go::overlay::draw_commands;
use aim2go::overlay::overlay_placement;

fn overlay_config(kind: CrosshairType, size: u8) -> OverlayConfig {
    OverlayConfig {
        render: vec!["Crosshair".to_string()],
        crosshair_type: kind,
        crosshair_size: size,
        crosshair_color: Rgb { red: 255, green: 0, blue: 255 },
        class_radial_size: 100,
        class_radial_position: Vec::new(),
        hud_ascii: "default".to_string(),
    }
}

#[test]
fn dot_is_centered_with_configured_radius() {
    let cmd = draw_commands(800, 600, &overlay_config(CrosshairType::Dot, 4));
    match cmd.shape {
        CrosshairShape::Dot { cx, cy, radius } => {
            assert_eq!((cx, cy), (400, 300));
            assert_eq!(radius, 4);
        }
        other => panic!("expected a dot, got {:?}", other),
    }
    assert_eq!(cmd.color, Rgb { red: 255, green: 0, blue: 255 });
}

#[test]
fn cross_strokes_span_twice_the_size() {
    let cmd = draw_commands(801, 601, &overlay_config(CrosshairType::Cross, 5));
    match cmd.shape {
        CrosshairShape::Cross { horizontal, vertical, stroke } => {
            assert_eq!(
                (horizontal.x1, horizontal.y1, horizontal.x2, horizontal.y2),
                (395, 300, 405, 300)
            );
            assert_eq!((vertical.x1, vertical.y1, vertical.x2, vertical.y2), (400, 295, 400, 305));
            assert_eq!(horizontal.x2 - horizontal.x1, 10);
            assert_eq!(vertical.y2 - vertical.y1, 10);
            assert_eq!(stroke, 2);
        }
        other => panic!("expected a cross, got {:?}", other),
    }
}

#[test]
fn placement_matches_target_rectangle() {
    let rect = WindowRect { left: 10, top: 20, right: 810, bottom: 620 };
    let p = overlay_placement(&rect);
    assert_eq!((p.x, p.y, p.width, p.height), (10, 20, 800, 600));
}

#[test]
fn creation_without_geometry_fails() {
    let r = create_overlay(None, overlay_config(CrosshairType::Dot, 4));
    assert_eq!(r.err(), Some(GeometryError));
}

#[test]
fn creation_with_inverted_geometry_fails() {
    let rect = WindowRect { left: 100, top: 0, right: 0, bottom: 100 };
    let r = create_overlay(Some(rect), overlay_config(CrosshairType::Dot, 4));
    assert_eq!(r.err(), Some(GeometryError));
}

#[test]
fn creation_tracks_target_geometry() {
    let rect = WindowRect { left: -5, top: 7, right: 795, bottom: 607 };
    let s = create_overlay(Some(rect), overlay_config(CrosshairType::Dot, 4)).expect("created");
    assert_eq!((s.placement.x, s.placement.y), (-5, 7));
    assert_eq!((s.placement.width, s.placement.height), (800, 600));
    assert_eq!(s.state, SurfaceState::Created);
}

#[test]
fn paint_then_destroy_walks_the_lifecycle() {
    let rect = WindowRect { left: 0, top: 0, right: 800, bottom: 600 };
    let mut s = create_overlay(Some(rect), overlay_config(CrosshairType::Dot, 4)).expect("created");

    let action = s.handle_message(&SurfaceMessage::Other);
    assert_eq!(action, SurfaceAction::Ignore);
    assert_eq!(s.state, SurfaceState::Created);

    let action = s.handle_message(&SurfaceMessage::Paint { width: 800, height: 600 });
    match action {
        SurfaceAction::Draw(cmd) => match cmd.shape {
            CrosshairShape::Dot { cx, cy, radius } => {
                assert_eq!((cx, cy, radius), (400, 300, 4));
            }
            other => panic!("expected a dot, got {:?}", other),
        },
        other => panic!("expected a draw action, got {:?}", other),
    }
    assert_eq!(s.state, SurfaceState::Visible);

    let action = s.handle_message(&SurfaceMessage::Destroy);
    assert_eq!(action, SurfaceAction::Quit);
    assert_eq!(s.state, SurfaceState::Destroyed);
}
