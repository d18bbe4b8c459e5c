use gate_core::color_code::ColorCode;
use gate_core::gate::move_gates;
use gate_core::gate::update_gates_status;
use gate_core::gate::Crystal;
use gate_core::gate::CrystalState;
use gate_core::gate::Gate;
use gate_core::gate::Position;
use gate_core::gate::GRANULARITY;

#[test]
fn pressed_crystal_opens_and_lowers_its_gate_then_release_raises_it() {
    let mut crystals = vec![Crystal {
        color_code: ColorCode::Green,
        state: CrystalState { num_activators: 0 },
    }];
    let mut gates = vec![
        Gate { position: Position { x: 0, y: 100 }, color_code: ColorCode::Green }.spawn(),
    ];
    let open_y = 100 - GRANULARITY;

    // Nothing presses the crystal: its gate rests closed.
    for _ in 0..4 {
        update_gates_status(&crystals, &mut gates);
        move_gates(&mut gates, 4);
    }
    assert!(!gates[0].state.is_open);
    assert_eq!(gates[0].y, 100);

    // An activator steps on the crystal: the aggregator opens its gate on
    // the same tick, and the actuator walks it down to the open position.
    crystals[0].state.num_activators = 1;
    update_gates_status(&crystals, &mut gates);
    assert!(gates[0].state.is_open);
    move_gates(&mut gates, 4);
    assert_eq!(gates[0].y, 96);
    for _ in 0..6 {
        update_gates_status(&crystals, &mut gates);
        move_gates(&mut gates, 4);
    }
    assert_eq!(gates[0].y, open_y);

    // The activator steps off mid-travel back: the flag flips and the
    // motion reverses without any reset.
    crystals[0].state.num_activators = 0;
    update_gates_status(&crystals, &mut gates);
    assert!(!gates[0].state.is_open);
    move_gates(&mut gates, 4);
    assert_eq!(gates[0].y, open_y + 4);
    for _ in 0..6 {
        update_gates_status(&crystals, &mut gates);
        move_gates(&mut gates, 4);
    }
    assert_eq!(gates[0].y, 100);
}

#[test]
fn aggregation_then_motion_uses_the_flags_of_the_same_tick() {
    // The aggregator writes before the actuator reads: a gate freshly
    // opened moves on the very tick it was opened.
    let crystals = vec![Crystal {
        color_code: ColorCode::Red,
        state: CrystalState { num_activators: 2 },
    }];
    let mut gates = vec![
        Gate { position: Position { x: 0, y: 0 }, color_code: ColorCode::Red }.spawn(),
    ];
    update_gates_status(&crystals, &mut gates);
    move_gates(&mut gates, 1);
    assert_eq!(gates[0].y, -1);
}
