use noj_sandbox::{find_plugin, register_plugin, PluginList};

#[test]
fn nothing_registered_finds_nothing() {
    let list: PluginList<fn() -> u32> = PluginList::new();
    assert_eq!(find_plugin(&list), None);
}

#[test]
fn find_builds_with_the_registered_hook() {
    fn make() -> u32 {
        7
    }
    let mut list: PluginList<fn() -> u32> = PluginList::new();
    register_plugin(&mut list, make);
    assert_eq!(find_plugin(&list), Some(7));
    assert_eq!(find_plugin(&list), Some(7));
}

#[test]
fn last_registration_wins() {
    fn first() -> u32 {
        1
    }
    fn second() -> u32 {
        2
    }
    let mut list: PluginList<fn() -> u32> = PluginList::new();
    register_plugin(&mut list, first);
    register_plugin(&mut list, second);
    assert_eq!(find_plugin(&list), Some(2));
}
