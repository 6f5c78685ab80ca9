//! The view registry on its own: insertion, lookup, removal, fallback.

use way_cooler_core::registry::ViewRegistry;
use way_cooler_core::shell::Shell;
use way_cooler_core::view::View;
use way_cooler_core::xdg_v6::XdgV6;

fn shell(id: u64) -> Shell {
    Shell::XdgV6(XdgV6::from_surface(id))
}

#[test]
fn insert_reports_duplicates() {
    let mut reg = ViewRegistry::new();
    assert!(reg.insert(View::new(shell(1))));
    assert!(reg.insert(View::new(shell(2))));
    assert!(!reg.insert(View::new(shell(1))));
    assert_eq!(reg.len(), 2);
}

#[test]
fn find_by_shell_scans_in_order() {
    let mut reg = ViewRegistry::new();
    reg.insert(View::new(shell(1)));
    reg.insert(View::new(shell(2)));
    let found = reg.find_by_shell(shell(2)).expect("registered view");
    assert_eq!(found.shell, shell(2));
    assert!(reg.find_by_shell(shell(3)).is_none());
}

#[test]
fn remove_by_shell_is_idempotent() {
    let mut reg = ViewRegistry::new();
    reg.insert(View::new(shell(1)));
    reg.insert(View::new(shell(2)));
    reg.remove_by_shell(shell(1));
    assert_eq!(reg.len(), 1);
    reg.remove_by_shell(shell(1));
    assert_eq!(reg.len(), 1);
    assert_eq!(reg.entries[0].shell, shell(2));
}

#[test]
fn first_is_the_oldest_mapped_view() {
    let mut reg = ViewRegistry::new();
    assert!(reg.first().is_none());
    reg.insert(View::new(shell(1)));
    reg.insert(View::new(shell(2)));
    assert_eq!(reg.first().expect("non-empty").shell, shell(1));
}
