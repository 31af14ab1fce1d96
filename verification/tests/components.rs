use slashery::components::{SlashComponent, SlashComponents};
use slashery::error::ComponentsFromInteractionError;
use slashery::option::ComponentInteraction;

fn component(name: &str, aliases: &[&str]) -> SlashComponent {
    SlashComponent {
        name: name.to_string(),
        id_alias: aliases.iter().map(|alias| alias.to_string()).collect(),
    }
}

fn activate(id: &str) -> ComponentInteraction {
    ComponentInteraction { custom_id: id.to_string() }
}

fn a_and_b() -> SlashComponents {
    SlashComponents { components: vec![component("A", &["x", "y"]), component("B", &[])] }
}

#[test]
fn alias_dispatches_to_its_component() {
    assert_eq!(a_and_b().from_interaction(&activate("x")), Ok(0));
    assert_eq!(a_and_b().from_interaction(&activate("y")), Ok(0));
}

#[test]
fn canonical_name_dispatches_to_its_component() {
    assert_eq!(a_and_b().from_interaction(&activate("B")), Ok(1));
    assert_eq!(a_and_b().from_interaction(&activate("A")), Ok(0));
}

#[test]
fn unknown_id_is_unknown_component() {
    assert_eq!(
        a_and_b().from_interaction(&activate("z")),
        Err(ComponentsFromInteractionError::UnknownComponent { id: "z".to_string() })
    );
}

#[test]
fn ids_match_exactly_and_by_case() {
    for id in ["a", "b", "X", "xy", "", "A ", " B"] {
        assert_eq!(
            a_and_b().from_interaction(&activate(id)),
            Err(ComponentsFromInteractionError::UnknownComponent { id: id.to_string() })
        );
    }
}

#[test]
fn empty_set_knows_no_component() {
    let none = SlashComponents { components: vec![] };
    assert_eq!(
        none.from_interaction(&activate("A")),
        Err(ComponentsFromInteractionError::UnknownComponent { id: "A".to_string() })
    );
}

#[test]
fn component_id_is_the_canonical_name() {
    let set = a_and_b();
    assert_eq!(set.component_id(0), "A");
    assert_eq!(set.component_id(1), "B");
}

#[test]
fn component_id_routes_back_to_its_component() {
    let set = a_and_b();
    for variant in 0..set.components.len() {
        let id = set.component_id(variant).to_string();
        assert_eq!(set.from_interaction(&activate(&id)), Ok(variant));
    }
}

#[test]
fn earlier_component_shadows_a_later_one_of_the_same_id() {
    let set = SlashComponents {
        components: vec![component("A", &["B"]), component("B", &["k"]), component("C", &["k", "x"])],
    };
    assert_eq!(set.from_interaction(&activate("B")), Ok(0));
    assert_eq!(set.from_interaction(&activate("k")), Ok(1));
    assert_eq!(set.from_interaction(&activate("x")), Ok(2));
    assert_eq!(set.from_interaction(&activate("C")), Ok(2));
    assert_eq!(set.component_id(1), "B");
}

#[test]
fn goes_by_tests_name_and_aliases() {
    let a = component("A", &["x", "y"]);
    assert!(a.goes_by(&"A".to_string()));
    assert!(a.goes_by(&"x".to_string()));
    assert!(a.goes_by(&"y".to_string()));
    assert!(!a.goes_by(&"z".to_string()));
    assert!(!a.goes_by(&"".to_string()));
    assert!(!component("B", &[]).goes_by(&"x".to_string()));
}
