use pyrth::registry::ModuleRegistry;

#[test]
fn repeated_label_gets_numbered_suffixes() {
    let mut reg: ModuleRegistry<u32> = ModuleRegistry::new();
    assert_eq!(reg.register_module("a".to_string(), 1), "a");
    assert_eq!(reg.register_module("a".to_string(), 2), "a_1");
    assert_eq!(reg.register_module("a".to_string(), 3), "a_2");
    assert_eq!(reg.module_count(), 3);
    assert_eq!(reg.module("a"), Some(&1));
    assert_eq!(reg.module("a_1"), Some(&2));
    assert_eq!(reg.module("a_2"), Some(&3));
    assert_eq!(reg.module("b"), None);
}

#[test]
fn labels_are_listed_in_order() {
    let mut reg: ModuleRegistry<u32> = ModuleRegistry::new();
    reg.register_module("zeta".to_string(), 1);
    reg.register_module("alpha".to_string(), 2);
    reg.register_module("alpha".to_string(), 3);
    reg.register_module("Beta".to_string(), 4);
    assert_eq!(
        reg.module_labels(),
        vec![
            "Beta".to_string(),
            "alpha".to_string(),
            "alpha_1".to_string(),
            "zeta".to_string()
        ]
    );
}

#[test]
fn explicit_suffixed_label_is_replaced_by_later_registration() {
    let mut reg: ModuleRegistry<u32> = ModuleRegistry::new();
    assert_eq!(reg.register_module("a_1".to_string(), 10), "a_1");
    assert_eq!(reg.register_module("a".to_string(), 1), "a");
    assert_eq!(reg.register_module("a".to_string(), 2), "a_1");
    assert_eq!(reg.module_count(), 2);
    assert_eq!(reg.module("a_1"), Some(&2));
}

#[test]
fn next_label_counts_without_keeping_a_result() {
    let mut reg: ModuleRegistry<u32> = ModuleRegistry::new();
    assert_eq!(reg.next_module_label("t".to_string()), "t");
    assert_eq!(reg.next_module_label("t".to_string()), "t_1");
    assert_eq!(reg.module_count(), 0);
    assert_eq!(reg.register_module("t".to_string(), 7), "t_2");
    assert_eq!(reg.module_labels(), vec!["t_2".to_string()]);
}

#[test]
fn large_counts_use_all_digits() {
    let mut reg: ModuleRegistry<u32> = ModuleRegistry::new();
    let mut last = String::new();
    for i in 0..12u32 {
        last = reg.register_module("m".to_string(), i);
    }
    assert_eq!(last, "m_11");
    assert_eq!(reg.module_count(), 12);
    assert_eq!(reg.module("m_10"), Some(&10));
}
