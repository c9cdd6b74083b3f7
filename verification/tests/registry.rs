//! The registry of state handlers.

use spica_engine::handlers::dispatch::build_state_handlers;

#[test]
fn every_registered_handler_binds_its_own_variant() {
    let registry = build_state_handlers();
    assert_eq!(registry.len(), 8);

    for factory in registry.values() {
        let sample = factory.state();
        let handler = factory.create(&sample);
        let _ = handler.complete_directly();
    }
}

#[test]
fn synchronous_states_complete_directly() {
    let registry = build_state_handlers();
    let direct = registry
        .values()
        .iter()
        .filter(|f| f.create(&f.state()).complete_directly())
        .count();
    assert_eq!(direct, 4);
}
