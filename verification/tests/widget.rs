use modifiernode::position::Position;
use modifiernode::signals::{DragPhase, ValueKind};
use modifiernode::widget::{ModifierNode, Propagation, TYPE_NAME};

#[test]
fn the_type_is_registered_under_its_name() {
    assert_eq!(TYPE_NAME, "ModifierNode");
}

#[test]
fn a_new_handle_is_put_together_as_described() {
    let node = ModifierNode::new();
    assert_eq!(node.image.name, "image");
    assert_eq!(node.image.icon_name, "modifiernode-default-symbolic");
    assert_eq!(node.css_class, "modifiernode");
    assert_eq!(node.cursor, "default");
    assert_eq!(node.gesture.name, "modifiernode_drag_gesture");
    assert_eq!(node.gesture.propagation, Propagation::Capture);
}

#[test]
fn the_default_handle_is_a_new_handle() {
    let node = ModifierNode::default();
    let new = ModifierNode::new();
    assert_eq!(node.image.name, new.image.name);
    assert_eq!(node.image.icon_name, new.image.icon_name);
    assert_eq!(node.css_class, new.css_class);
    assert_eq!(node.cursor, new.cursor);
    assert_eq!(node.gesture.name, new.gesture.name);
    assert_eq!(node.gesture.propagation, new.gesture.propagation);
}

#[test]
fn image_returns_the_image_of_the_handle() {
    let mut node = ModifierNode::new();
    let image = node.image();
    assert_eq!(image.name, "image");
    assert_eq!(image.icon_name, "modifiernode-default-symbolic");
    node.image.icon_name = "modifiernode-hover-symbolic";
    assert_eq!(node.image().icon_name, "modifiernode-hover-symbolic");
    assert_eq!(node.image().name, "image");
}

#[test]
fn position_new_keeps_both_coordinates() {
    let pos = Position::new(7.5f64, -0.125f64);
    assert_eq!(pos.x, 7.5);
    assert_eq!(pos.y, -0.125);
    let swapped = Position::new(pos.y, pos.x);
    assert_eq!(swapped.x, -0.125);
    assert_eq!(swapped.y, 7.5);
}

#[test]
fn drag_begin_claims_and_sends_where_it_began() {
    let emission = ModifierNode::on_drag(DragPhase::Begin, 12.5f64, 40.0f64);
    assert!(emission.claim);
    assert_eq!(emission.signal, "offset-begin");
    assert_eq!(emission.position.x, 12.5);
    assert_eq!(emission.position.y, 40.0);
}

#[test]
fn drag_update_sends_the_offset_without_claiming() {
    let emission = ModifierNode::on_drag(DragPhase::Update, -3.25f64, 8.0f64);
    assert!(!emission.claim);
    assert_eq!(emission.signal, "offset-update");
    assert_eq!(emission.position.x, -3.25);
    assert_eq!(emission.position.y, 8.0);
}

#[test]
fn drag_end_sends_the_last_offset_without_claiming() {
    let emission = ModifierNode::on_drag(DragPhase::End, 100.0f64, -250.75f64);
    assert!(!emission.claim);
    assert_eq!(emission.signal, "offset-end");
    assert_eq!(emission.position.x, 100.0);
    assert_eq!(emission.position.y, -250.75);
}

#[test]
fn a_drag_that_does_not_move_sends_zero_offsets() {
    let update = ModifierNode::on_drag(DragPhase::Update, 0.0f64, 0.0f64);
    assert_eq!(update.position.x, 0.0);
    assert_eq!(update.position.y, 0.0);
    let end = ModifierNode::on_drag(DragPhase::End, 0.0f64, 0.0f64);
    assert_eq!(end.position.x, 0.0);
    assert_eq!(end.position.y, 0.0);
}

#[test]
fn coordinates_are_not_mixed_up() {
    let emission = ModifierNode::on_drag(DragPhase::Update, 1.0f64, 2.0f64);
    assert_eq!(emission.position.x, 1.0);
    assert_eq!(emission.position.y, 2.0);
    assert_ne!(emission.position.x, emission.position.y);
}

#[test]
fn coordinates_pass_through_bit_for_bit() {
    let values = [
        0.0f64,
        -0.0,
        f64::MIN_POSITIVE,
        f64::MAX,
        f64::MIN,
        f64::INFINITY,
        f64::NEG_INFINITY,
        f64::NAN,
        1.0e-300,
    ];
    for phase in [DragPhase::Begin, DragPhase::Update, DragPhase::End] {
        for x in values {
            for y in values {
                let emission = ModifierNode::on_drag(phase, x, y);
                assert_eq!(emission.position.x.to_bits(), x.to_bits());
                assert_eq!(emission.position.y.to_bits(), y.to_bits());
            }
        }
    }
}

#[test]
fn any_coordinate_type_is_carried() {
    let emission = ModifierNode::on_drag(DragPhase::Begin, -7i32, i32::MAX);
    assert_eq!(emission.position.x, -7);
    assert_eq!(emission.position.y, i32::MAX);
    let emission = ModifierNode::on_drag(DragPhase::End, "left", "top");
    assert_eq!(emission.position.x, "left");
    assert_eq!(emission.position.y, "top");
}

#[test]
fn every_emission_is_one_that_the_table_accepts() {
    let table = ModifierNode::signals();
    for phase in [DragPhase::Begin, DragPhase::Update, DragPhase::End] {
        let emission = ModifierNode::on_drag(phase, 1.5f64, 2.5f64);
        let declared: Vec<_> = table.iter().filter(|spec| spec.name == emission.signal).collect();
        assert_eq!(declared.len(), 1);
        assert_eq!(declared[0].params, vec![ValueKind::Position]);
        assert_eq!(declared[0].returns, ValueKind::Unit);
    }
}

#[test]
fn an_emission_agrees_with_its_phase() {
    for phase in [DragPhase::Begin, DragPhase::Update, DragPhase::End] {
        let emission = ModifierNode::on_drag(phase, 0.5f64, 0.25f64);
        assert_eq!(emission.signal, phase.signal_name());
        assert_eq!(emission.claim, phase.claims_sequence());
        assert_eq!(emission.claim, phase == DragPhase::Begin);
    }
}
