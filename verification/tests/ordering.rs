use param_order::error::PluginError;
use param_order::group::ParameterGroup;
use param_order::parameter::{ParameterDescriptor, ParameterRange};
use param_order::registry::ParameterRegistry;

fn param(key: &str) -> ParameterDescriptor {
    ParameterDescriptor::new(key, key, 0, ParameterRange::linear(0, 100)).unwrap()
}

fn group(name: &str, keys: &[&str]) -> ParameterGroup {
    let mut g = ParameterGroup::new(name);
    for key in keys {
        g.push_parameter(param(key));
    }
    g
}

fn keys_of(g: &ParameterGroup) -> Vec<String> {
    g.flatten().iter().map(|d| d.key().to_string()).collect()
}

fn nested_tree() -> ParameterGroup {
    let mut root = group("", &["one"]);
    root.push_group(group("inner", &["two", "three"]));
    root.push_parameter(param("four"));
    root
}

#[test]
fn nested_group_is_inlined_where_it_was_declared() {
    assert_eq!(keys_of(&nested_tree()), vec!["one", "two", "three", "four"]);
}

#[test]
fn order_does_not_depend_on_how_the_nested_group_is_built() {
    let mut wrapped = ParameterGroup::new("outer");
    let mut middle = ParameterGroup::new("middle");
    middle.push_group(group("a", &["two"]));
    middle.push_group(ParameterGroup::new("empty"));
    middle.push_group(group("b", &["three"]));
    wrapped.push_group(middle);
    let mut root = group("", &["one"]);
    root.push_group(wrapped);
    root.push_parameter(param("four"));
    assert_eq!(keys_of(&root), vec!["one", "two", "three", "four"]);
}

#[test]
fn empty_group_flattens_to_nothing() {
    let g = ParameterGroup::new("nothing");
    assert_eq!(g.name(), "nothing");
    assert!(g.flatten().is_empty());
    let mut nested = ParameterGroup::new("");
    nested.push_group(ParameterGroup::new("a"));
    nested.push_group(ParameterGroup::new("b"));
    assert!(nested.flatten().is_empty());
}

#[test]
fn flatten_lists_every_parameter_once() {
    let mut deep = group("deep", &["d1", "d2"]);
    deep.push_group(group("deeper", &["e1"]));
    let mut root = group("", &["a", "b"]);
    root.push_group(deep);
    root.push_group(group("side", &["s1", "s2", "s3"]));
    root.push_parameter(param("z"));
    let keys = keys_of(&root);
    assert_eq!(keys.len(), 9);
    assert_eq!(keys, vec!["a", "b", "d1", "d2", "e1", "s1", "s2", "s3", "z"]);
    for key in &keys {
        assert_eq!(keys.iter().filter(|k| *k == key).count(), 1);
    }
}

#[test]
fn flatten_keeps_duplicates_of_a_raw_group() {
    let g = group("", &["a", "a", "b"]);
    assert_eq!(keys_of(&g), vec!["a", "a", "b"]);
}

#[test]
fn flatten_is_the_same_every_time() {
    let root = nested_tree();
    let first = root.flatten();
    let second = root.flatten();
    assert_eq!(first.len(), second.len());
    for i in 0..first.len() {
        assert!(std::ptr::eq(first[i], second[i]));
    }
}

#[test]
fn find_gives_the_first_parameter_with_the_key() {
    let mut g = ParameterGroup::new("");
    g.push_parameter(ParameterDescriptor::new("a", "first", 1, ParameterRange::linear(0, 9)).unwrap());
    g.push_group(group("inner", &["b"]));
    g.push_parameter(ParameterDescriptor::new("a", "second", 2, ParameterRange::linear(0, 9)).unwrap());
    assert_eq!(g.find("a").unwrap().display_name(), "first");
    assert_eq!(g.find("b").unwrap().key(), "b");
    assert!(g.find("c").is_none());
    assert!(g.find("").is_none());
}

#[test]
fn assign_on_a_group_changes_the_first_match_only() {
    let mut g = group("", &["a"]);
    g.push_group(group("inner", &["b", "a"]));
    assert!(g.assign("a", 40));
    let values: Vec<i32> = g.flatten().iter().map(|d| d.value()).collect();
    assert_eq!(values, vec![40, 0, 0]);
    assert!(g.assign("b", 1000));
    let values: Vec<i32> = g.flatten().iter().map(|d| d.value()).collect();
    assert_eq!(values, vec![40, 100, 0]);
    assert!(!g.assign("c", 5));
    assert_eq!(keys_of(&g), vec!["a", "b", "a"]);
}

#[test]
fn registry_lists_in_declaration_order() {
    let registry = ParameterRegistry::new(nested_tree()).unwrap();
    let keys: Vec<&str> = registry.flattened_parameters().iter().map(|d| d.key()).collect();
    assert_eq!(keys, vec!["one", "two", "three", "four"]);
    assert_eq!(registry.len(), 4);
}

#[test]
fn empty_registry_is_fine() {
    let registry = ParameterRegistry::new(ParameterGroup::new("")).unwrap();
    assert_eq!(registry.len(), 0);
    assert!(registry.flattened_parameters().is_empty());
    assert_eq!(registry.lookup("one").err(), Some(PluginError::ParameterNotFound));
    assert!(registry.parameter_at(0).is_none());
}

#[test]
fn duplicate_key_fails_construction() {
    let outcome = ParameterRegistry::new(group("", &["a", "a"]));
    assert_eq!(outcome.err(), Some(PluginError::DuplicateParameterKey));
}

#[test]
fn duplicate_key_across_groups_fails_construction() {
    let mut root = group("", &["one"]);
    root.push_group(group("inner", &["two", "one"]));
    assert_eq!(ParameterRegistry::new(root).err(), Some(PluginError::DuplicateParameterKey));
    let mut far = group("", &["a", "b", "c"]);
    let mut mid = ParameterGroup::new("mid");
    mid.push_group(group("leaf", &["d", "c"]));
    far.push_group(mid);
    assert_eq!(ParameterRegistry::new(far).err(), Some(PluginError::DuplicateParameterKey));
}

#[test]
fn keys_that_differ_in_case_or_length_are_different() {
    let registry = ParameterRegistry::new(group("", &["a", "A", "aa", "b"])).unwrap();
    assert_eq!(registry.len(), 4);
}

#[test]
fn lookup_gives_the_entry_that_flatten_lists() {
    let registry = ParameterRegistry::new(nested_tree()).unwrap();
    let list = registry.flattened_parameters();
    for (index, key) in ["one", "two", "three", "four"].iter().enumerate() {
        let found = registry.lookup(key).unwrap();
        assert!(std::ptr::eq(found, list[index]));
        assert_eq!(found.key(), *key);
        assert_eq!(registry.index_of(key), Ok(index));
        assert!(std::ptr::eq(registry.parameter_at(index).unwrap(), list[index]));
    }
}

#[test]
fn lookup_of_absent_key_fails_with_parameter_not_found() {
    let registry = ParameterRegistry::new(nested_tree()).unwrap();
    assert_eq!(registry.lookup("five").err(), Some(PluginError::ParameterNotFound));
    assert_eq!(registry.lookup("").err(), Some(PluginError::ParameterNotFound));
    assert_eq!(registry.lookup("inner").err(), Some(PluginError::ParameterNotFound));
    assert_eq!(registry.lookup("One").err(), Some(PluginError::ParameterNotFound));
    assert_eq!(registry.index_of("five"), Err(PluginError::ParameterNotFound));
    assert_eq!(registry.value("five"), Err(PluginError::ParameterNotFound));
}

#[test]
fn parameter_at_ends_where_the_listing_ends() {
    let registry = ParameterRegistry::new(nested_tree()).unwrap();
    assert_eq!(registry.parameter_at(3).unwrap().key(), "four");
    assert!(registry.parameter_at(4).is_none());
    assert!(registry.parameter_at(usize::MAX).is_none());
}

#[test]
fn set_value_by_key_changes_that_parameter_only() {
    let mut registry = ParameterRegistry::new(nested_tree()).unwrap();
    assert_eq!(registry.set_value("three", 33), Ok(()));
    assert_eq!(registry.value("one"), Ok(0));
    assert_eq!(registry.value("two"), Ok(0));
    assert_eq!(registry.value("three"), Ok(33));
    assert_eq!(registry.value("four"), Ok(0));
    let keys: Vec<&str> = registry.flattened_parameters().iter().map(|d| d.key()).collect();
    assert_eq!(keys, vec!["one", "two", "three", "four"]);
    assert_eq!(registry.len(), 4);
}

#[test]
fn set_value_by_key_clamps() {
    let mut registry = ParameterRegistry::new(nested_tree()).unwrap();
    assert_eq!(registry.set_value("two", 101), Ok(()));
    assert_eq!(registry.value("two"), Ok(100));
    assert_eq!(registry.set_value("two", -1), Ok(()));
    assert_eq!(registry.value("two"), Ok(0));
    assert_eq!(registry.set_value("two", 100), Ok(()));
    assert_eq!(registry.value("two"), Ok(100));
}

#[test]
fn set_value_of_absent_key_changes_nothing() {
    let mut registry = ParameterRegistry::new(nested_tree()).unwrap();
    registry.set_value("one", 7).unwrap();
    assert_eq!(registry.set_value("five", 9), Err(PluginError::ParameterNotFound));
    let values: Vec<i32> = registry.flattened_parameters().iter().map(|d| d.value()).collect();
    assert_eq!(values, vec![7, 0, 0, 0]);
    assert_eq!(registry.len(), 4);
}

#[test]
fn regrouping_keeps_keys_resolvable() {
    let mut flat = ParameterRegistry::new(group("", &["one", "two", "three", "four"])).unwrap();
    let mut nested = ParameterRegistry::new(nested_tree()).unwrap();
    for (key, value) in [("four", 4), ("two", 2)] {
        flat.set_value(key, value).unwrap();
        nested.set_value(key, value).unwrap();
    }
    for key in ["one", "two", "three", "four"] {
        assert_eq!(flat.value(key), nested.value(key));
        assert_eq!(flat.index_of(key), nested.index_of(key));
    }
}
