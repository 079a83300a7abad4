use cosmic_widgets::{
    container, style_for_layer, BorrowConflict, ContainerStyle, Horizontal, Layer, Length,
    Padding, Pass, Point, Popover, Rectangle, Size, Slot, Stage, Vertical,
};

#[derive(Debug, PartialEq)]
enum Elem {
    Spacer { width: f32, height: f32 },
    LabeledBox { label: String, width: f32, height: f32 },
}

fn spacer() -> Elem {
    Elem::Spacer { width: 0.0, height: 0.0 }
}

fn labeled_box() -> Elem {
    Elem::LabeledBox { label: "popup".to_string(), width: 50.0, height: 20.0 }
}

#[test]
fn layer_selects_matching_style() {
    assert_eq!(style_for_layer(Layer::Background), ContainerStyle::Background);
    assert_eq!(style_for_layer(Layer::Primary), ContainerStyle::Primary);
    assert_eq!(style_for_layer(Layer::Secondary), ContainerStyle::Secondary);
    for l in [Layer::Background, Layer::Primary, Layer::Secondary] {
        let c = container(1u8).layer(l);
        assert_eq!(c.layer, Some(l));
        assert_eq!(c.style, style_for_layer(l));
    }
}

#[test]
fn new_container_has_plain_settings() {
    let c = container("x");
    assert_eq!(c.content, "x");
    assert_eq!(c.layer, None);
    assert_eq!(c.style, ContainerStyle::Transparent);
    assert_eq!(c.padding, Padding { top: 0, right: 0, bottom: 0, left: 0 });
    assert_eq!(c.width, Length::Shrink);
    assert_eq!(c.height, Length::Shrink);
    assert_eq!(c.max_width, u32::MAX);
    assert_eq!(c.max_height, u32::MAX);
    assert_eq!(c.align_x, Horizontal::Left);
    assert_eq!(c.align_y, Vertical::Top);
}

#[test]
fn builders_set_one_setting_each() {
    let c = container(7u32)
        .padding(Padding::new(4))
        .width(Length::Fill)
        .height(Length::Units(30))
        .max_width(200)
        .max_height(100)
        .align_x(Horizontal::Right)
        .align_y(Vertical::Bottom);
    assert_eq!(c.padding, Padding { top: 4, right: 4, bottom: 4, left: 4 });
    assert_eq!(c.width, Length::Fill);
    assert_eq!(c.height, Length::Units(30));
    assert_eq!(c.max_width, 200);
    assert_eq!(c.max_height, 100);
    assert_eq!(c.align_x, Horizontal::Right);
    assert_eq!(c.align_y, Vertical::Bottom);
    assert_eq!(c.layer, None);
    let c = c.center_x().center_y();
    assert_eq!(c.align_x, Horizontal::Center);
    assert_eq!(c.align_y, Vertical::Center);
    assert_eq!(c.width, Length::Fill);
    let c = c.style(ContainerStyle::Primary);
    assert_eq!(c.style, ContainerStyle::Primary);
    assert_eq!(c.layer, None);
}

#[test]
fn style_after_layer_keeps_layer() {
    let c = container(()).layer(Layer::Primary).style(ContainerStyle::Transparent);
    assert_eq!(c.layer, Some(Layer::Primary));
    assert_eq!(c.style, ContainerStyle::Transparent);
}

#[test]
fn layer_applies_to_own_draw_only() {
    for l in [Layer::Background, Layer::Primary, Layer::Secondary] {
        for inherited in [Layer::Background, Layer::Primary, Layer::Secondary] {
            let layered = container(0u8).layer(l);
            let sibling = container(1u8);
            assert_eq!(layered.draw_layer(inherited), l);
            assert_eq!(sibling.draw_layer(inherited), inherited);
            assert_eq!(layered.draw_layer(inherited), l);
        }
    }
}

#[test]
fn children_are_content_then_popup() {
    assert_eq!(Popover::<Elem>::child_slots(), vec![Slot::Content, Slot::Popup]);
    let p = Popover::new(spacer(), labeled_box());
    let states = p.children(|e: &Elem| match e {
        Elem::Spacer { .. } => "spacer".to_string(),
        Elem::LabeledBox { label, .. } => label.clone(),
    });
    assert_eq!(states, vec!["spacer".to_string(), "popup".to_string()]);
    let p = Popover::new(10i32, 20i32);
    assert_eq!(p.children(|e: &i32| *e * 2), vec![20, 40]);
}

#[test]
fn diff_targets_are_stable() {
    let p = Popover::new(1u8, 2u8);
    let first: Vec<u8> = p.diff_targets().into_iter().copied().collect();
    let second: Vec<u8> = p.diff_targets().into_iter().copied().collect();
    assert_eq!(first, vec![1, 2]);
    assert_eq!(first, second);
}

#[test]
fn primary_passes_use_content_and_first_state() {
    let passes = [
        Pass::Width,
        Pass::Height,
        Pass::Layout,
        Pass::Operate,
        Pass::Event,
        Pass::MouseInteraction,
        Pass::Draw,
    ];
    for pass in passes {
        assert_eq!(Popover::<u8>::target(Stage::Primary, pass), (Slot::Content, 0));
        assert_eq!(Popover::<u8>::target(Stage::Overlay, pass), (Slot::Popup, 1));
    }
    assert_eq!(Popover::<u8>::state_index(Slot::Content), 0);
    assert_eq!(Popover::<u8>::state_index(Slot::Popup), 1);
}

#[test]
fn overlay_anchored_at_content_top_left() {
    let mut p = Popover::new('c', 'p');
    let bounds = Rectangle { x: 3.5f32, y: 7.25, width: 100.0, height: 40.0 };
    let pass = p.open_overlay(bounds).unwrap();
    assert_eq!(pass.anchor, Point { x: 3.5, y: 7.25 });
    assert_eq!(pass.popup, 'p');
    assert_eq!(pass.state_index(), 1);
    p.close_overlay(pass);
}

#[test]
fn second_overlay_conflicts() {
    let mut p = Popover::new(1u8, 2u8);
    let bounds = Rectangle { x: 0i32, y: 0, width: 5, height: 5 };
    let first = p.open_overlay(bounds).unwrap();
    assert!(p.is_overlay_open());
    assert_eq!(p.popup(), None);
    let second = p.open_overlay(bounds);
    assert!(matches!(second, Err(BorrowConflict)));
    assert!(p.is_overlay_open());
    p.close_overlay(first);
    assert!(!p.is_overlay_open());
    assert_eq!(p.popup(), Some(&2u8));
    let again = p.open_overlay(bounds).unwrap();
    assert_eq!(again.popup, 2);
    p.close_overlay(again);
}

#[test]
fn spacer_with_boxed_popup_scenario() {
    let mut p = Popover::new(spacer(), labeled_box());
    let frame = Rectangle { x: 10.0f32, y: 10.0, width: 0.0, height: 0.0 };
    let pass = p.open_overlay(frame).unwrap();
    assert_eq!(pass.anchor, Point { x: 10.0, y: 10.0 });
    let screen = Size { width: 800.0f32, height: 600.0 };
    let limits = pass.layout_limits(screen);
    assert_eq!(limits.min, screen);
    assert_eq!(limits.max, screen);
    let laid_out = Rectangle { x: 10.0f32, y: 10.0, width: 800.0, height: 600.0 };
    assert_eq!(pass.draw_viewport(laid_out), laid_out);
    assert_eq!(pass.popup, labeled_box());
    p.close_overlay(pass);
    assert_eq!(p.content, spacer());
}
