use gate_core::color_code::ColorCode;
use gate_core::gate::Gate;
use gate_core::gate::Position;

#[test]
fn every_color_has_a_distinct_ordinal_below_size() {
    let all = [ColorCode::Red, ColorCode::Green, ColorCode::Blue, ColorCode::Purple];
    assert_eq!(ColorCode::size(), all.len());
    for (i, a) in all.iter().enumerate() {
        assert!(a.ordinal() < ColorCode::size());
        for (j, b) in all.iter().enumerate() {
            assert_eq!(a.ordinal() == b.ordinal(), i == j);
        }
    }
}

#[test]
fn default_color_is_red() {
    assert_eq!(ColorCode::default(), ColorCode::Red);
}

#[test]
fn default_gate_sits_at_origin_on_the_default_channel() {
    let g = Gate::default();
    assert_eq!(g.position, Position { x: 0, y: 0 });
    assert_eq!(g.color_code, ColorCode::Red);
}

#[test]
fn spawned_gate_rests_closed_at_its_placement() {
    let g = Gate { position: Position { x: 48, y: 160 }, color_code: ColorCode::Green };
    let e = g.spawn();
    assert_eq!(e.color_code, ColorCode::Green);
    assert_eq!(e.y, 160);
    assert_eq!(e.state.y_when_closed, 160);
    assert!(!e.state.is_open);
}
