use eheh::environment::{Environment, Scope};
use eheh::object::{Integer, Object};

fn whole(value: i64) -> Object {
    Object::Integer(Integer::new(value))
}

fn value_of(object: Option<Object>) -> Option<i64> {
    match object {
        Some(Object::Integer(i)) => Some(i.value),
        Some(other) => panic!("unexpected {:?}", other),
        None => None,
    }
}

#[test]
fn a_fresh_environment_has_one_empty_scope() {
    let environment = Environment::new();
    assert_eq!(environment.scopes.len(), 1);
    assert_eq!(environment.current, 0);
    assert_eq!(environment.scopes[0].outer, None);
    assert!(!environment.has("x"));
    assert_eq!(value_of(environment.get("x")), None);
}

#[test]
fn names_are_bound_in_the_current_scope() {
    let mut environment = Environment::new();
    assert_eq!(value_of(environment.set("x".to_string(), whole(1))), None);
    assert_eq!(value_of(environment.set("y".to_string(), whole(2))), None);
    assert_eq!(value_of(environment.set("x".to_string(), whole(3))), Some(1));
    assert_eq!(value_of(environment.get("x")), Some(3));
    assert_eq!(value_of(environment.get("y")), Some(2));
    assert!(environment.has("x"));
    assert_eq!(environment.scopes[0].names.len(), 2);
    assert_eq!(value_of(environment.remove("x")), Some(3));
    assert_eq!(value_of(environment.remove("x")), None);
    assert!(!environment.has("x"));
    assert_eq!(value_of(environment.get("y")), Some(2));
}

#[test]
fn lookup_walks_outwards() {
    let mut environment = Environment::new();
    environment.set("a".to_string(), whole(1));
    environment.set("b".to_string(), whole(2));
    let middle = environment.extend(0);
    assert_eq!(middle, 1);
    environment.enter(middle);
    environment.set("b".to_string(), whole(20));
    let inner = environment.extend(middle);
    environment.enter(inner);
    environment.set("c".to_string(), whole(300));
    assert_eq!(value_of(environment.get("a")), Some(1));
    assert_eq!(value_of(environment.get("b")), Some(20));
    assert_eq!(value_of(environment.get("c")), Some(300));
    // binding and asking look at the current scope alone
    assert!(!environment.has("a"));
    assert!(environment.has("c"));
    assert_eq!(value_of(environment.remove("b")), None);
    environment.enter(0);
    assert_eq!(value_of(environment.get("b")), Some(2));
    assert_eq!(value_of(environment.get("c")), None);
}

#[test]
fn a_scope_is_a_mapping() {
    let mut scope = Scope::new(Some(4));
    assert_eq!(scope.outer, Some(4));
    let key = "k".to_string();
    assert_eq!(scope.find(&key), None);
    assert!(!scope.has(&key));
    assert_eq!(value_of(scope.set("k".to_string(), whole(1))), None);
    assert_eq!(value_of(scope.set("m".to_string(), whole(2))), None);
    assert_eq!(scope.find(&key), Some(0));
    assert_eq!(value_of(scope.get(&key)), Some(1));
    assert_eq!(value_of(scope.remove(&key)), Some(1));
    assert_eq!(scope.find(&"m".to_string()), Some(0));
    assert_eq!(value_of(scope.get(&key)), None);
}
