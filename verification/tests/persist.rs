use spotify_banger::persist::PersistAtom;

#[test]
fn atom_compiles() {
    let test_atom: PersistAtom<Vec<String>, fn() -> Vec<String>> =
        PersistAtom::new("amogus", Vec::new);
    println!("{:?}", test_atom.init());
}

#[test]
fn atom_keeps_key_and_start() {
    let atom = PersistAtom::new("setting_auto_refresh", || false);
    assert_eq!(atom.key(), "setting_auto_refresh");
    assert!(!atom.init());
    let list: PersistAtom<Vec<String>, fn() -> Vec<String>> = PersistAtom::new("amogus", Vec::new);
    assert_eq!(list.key(), "amogus");
    assert!(list.init().is_empty());
}

#[test]
fn atom_prefers_what_is_stored() {
    let atom = PersistAtom::new("setting_auto_refresh", || false);
    assert!(atom.value_or_init(Some(true)));
    assert!(!atom.value_or_init(Some(false)));
    assert!(!atom.value_or_init(None));
    let list: PersistAtom<Vec<String>, fn() -> Vec<String>> = PersistAtom::new("amogus", Vec::new);
    assert_eq!(list.value_or_init(Some(vec!["sus".to_string()])), vec!["sus".to_string()]);
    assert_eq!(list.value_or_init(None), Vec::<String>::new());
}

#[test]
fn atom_is_copied_with_its_key() {
    let atom: PersistAtom<Vec<String>, fn() -> Vec<String>> = PersistAtom::new("amogus", Vec::new);
    let copy = atom;
    assert_eq!(atom.key(), copy.key());
    assert_eq!(atom.clone().init(), copy.init());
}
