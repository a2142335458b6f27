use pulsar_core::image::Image;
use pulsar_core::interest::InterestMap;
use pulsar_core::monitor::{compute_policy, observe_new_process};
use pulsar_core::policy::PolicyDecision;
use pulsar_core::rules::{Rule, RuleMap};

fn img(path: &str) -> Image {
    Image::from_str(path).unwrap()
}

#[test]
fn set_then_read_returns_exact_raw_encoding() {
    let mut interest = InterestMap::new();
    let d = PolicyDecision { interesting: true, children_interesting: false };
    interest.set(42, d);
    assert_eq!(interest.get_raw(42), Some(d.as_raw()));
    assert_eq!(interest.get(42), Some(d));
}

#[test]
fn set_twice_last_write_wins() {
    let mut interest = InterestMap::new();
    interest.set(7, PolicyDecision { interesting: true, children_interesting: true });
    let late = PolicyDecision { interesting: false, children_interesting: false };
    interest.set(7, late);
    assert_eq!(interest.get_raw(7), Some(0));
    assert_eq!(interest.get(7), Some(late));
}

#[test]
fn clearing_interest_removes_every_key() {
    let mut interest = InterestMap::new();
    interest.set(1, PolicyDecision::default());
    interest.set(2, PolicyDecision::default());
    interest.clear();
    assert_eq!(interest.get_raw(1), None);
    assert_eq!(interest.get_raw(2), None);
}

#[test]
fn clearing_empty_tables_succeeds() {
    let mut interest = InterestMap::new();
    interest.clear();
    assert_eq!(interest.get_raw(1), None);
    let mut rules = RuleMap::target();
    rules.clear();
    assert_eq!(rules.lookup(&img("/bin/sh")), None);
}

#[test]
fn install_then_lookup_finds_the_rule_bit() {
    let mut map = RuleMap::whitelist();
    let rules = vec![
        Rule { image: img("/usr/bin/sshd"), with_children: true },
        Rule { image: img("/usr/bin/cron"), with_children: false },
    ];
    map.install(&rules);
    assert_eq!(map.lookup(&img("/usr/bin/sshd")), Some(true));
    assert_eq!(map.lookup(&img("/usr/bin/cron")), Some(false));
    assert_eq!(map.lookup(&img("/usr/bin/vim")), None);
}

#[test]
fn later_rule_for_same_image_overrides_earlier() {
    let mut map = RuleMap::target();
    map.install(&vec![Rule { image: img("/bin/sh"), with_children: false }]);
    map.install(&vec![Rule { image: img("/bin/sh"), with_children: true }]);
    assert_eq!(map.lookup(&img("/bin/sh")), Some(true));
}

#[test]
fn clearing_rules_removes_every_entry() {
    let mut map = RuleMap::whitelist();
    map.install(&vec![Rule { image: img("/bin/sh"), with_children: true }]);
    map.clear();
    assert_eq!(map.lookup(&img("/bin/sh")), None);
}

#[test]
fn whitelist_wins_over_target() {
    let mut whitelist = RuleMap::whitelist();
    let mut target = RuleMap::target();
    whitelist.install(&vec![Rule { image: img("/bin/sh"), with_children: false }]);
    target.install(&vec![Rule { image: img("/bin/sh"), with_children: true }]);
    let parent = Some(PolicyDecision::default());
    let d = compute_policy(&whitelist, &target, &img("/bin/sh"), parent);
    assert!(!d.interesting);
}

#[test]
fn whitelist_entry_for_children_turns_their_monitoring_off() {
    let mut whitelist = RuleMap::whitelist();
    let target = RuleMap::target();
    whitelist.install(&vec![Rule { image: img("/bin/sh"), with_children: true }]);
    let parent = Some(PolicyDecision { interesting: true, children_interesting: true });
    let d = compute_policy(&whitelist, &target, &img("/bin/sh"), parent);
    assert_eq!(d, PolicyDecision { interesting: false, children_interesting: false });
}

#[test]
fn target_entry_sets_children_bit_from_the_rule() {
    let whitelist = RuleMap::whitelist();
    let mut target = RuleMap::target();
    target.install(&vec![Rule { image: img("/bin/sh"), with_children: false }]);
    let parent = Some(PolicyDecision { interesting: false, children_interesting: true });
    let d = compute_policy(&whitelist, &target, &img("/bin/sh"), parent);
    assert_eq!(d, PolicyDecision { interesting: true, children_interesting: false });
}

#[test]
fn unmatched_image_inherits_both_fields_from_parent() {
    let whitelist = RuleMap::whitelist();
    let target = RuleMap::target();
    let parent = Some(PolicyDecision { interesting: true, children_interesting: false });
    let d = compute_policy(&whitelist, &target, &img("/bin/ls"), parent);
    assert_eq!(d, PolicyDecision { interesting: true, children_interesting: false });
}

#[test]
fn unmatched_image_without_parent_gets_the_default() {
    let whitelist = RuleMap::whitelist();
    let target = RuleMap::target();
    let d = compute_policy(&whitelist, &target, &img("/bin/ls"), None);
    assert_eq!(d, PolicyDecision { interesting: true, children_interesting: true });
}

#[test]
fn new_process_gets_an_entry_of_its_own() {
    let mut interest = InterestMap::new();
    let whitelist = RuleMap::whitelist();
    let target = RuleMap::target();
    let parent = PolicyDecision { interesting: true, children_interesting: false };
    interest.set(100, parent);
    observe_new_process(&mut interest, &whitelist, &target, 101, 100, &img("/bin/ls"));
    assert_eq!(interest.get(101), Some(parent));
    assert_eq!(interest.get(100), Some(parent));
}
