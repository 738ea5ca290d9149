use cmd::panic_hook::{
    panic_counter_name, set_panic_hook, HookRegistry, InstallAction, PanicLocation, PanicReport,
};

#[derive(Clone, Copy, Debug, PartialEq)]
enum Layer {
    Diagnostics,
    Platform,
}

fn request_install(registry: &mut HookRegistry, chain: &mut Vec<Layer>) {
    if set_panic_hook(registry) == InstallAction::Wrap {
        chain.insert(0, Layer::Diagnostics);
    }
}

#[test]
fn hook_is_installed_once() {
    let mut registry = HookRegistry::new();
    assert!(!registry.is_installed());
    assert_eq!(set_panic_hook(&mut registry), InstallAction::Wrap);
    assert!(registry.is_installed());
    assert_eq!(set_panic_hook(&mut registry), InstallAction::Skip);
    assert!(registry.is_installed());
    assert_eq!(set_panic_hook(&mut registry), InstallAction::Skip);
    assert!(registry.is_installed());
}

#[test]
fn installing_twice_leaves_one_chain() {
    let mut registry = HookRegistry::new();
    let mut chain = vec![Layer::Platform];
    request_install(&mut registry, &mut chain);
    let once = chain.clone();
    request_install(&mut registry, &mut chain);
    assert_eq!(chain, once);
    assert_eq!(chain, vec![Layer::Diagnostics, Layer::Platform]);
    assert_eq!(chain.iter().filter(|l| **l == Layer::Platform).count(), 1);
    assert_eq!(chain.iter().filter(|l| **l == Layer::Diagnostics).count(), 1);
}

#[test]
fn report_holds_its_parts() {
    let location = PanicLocation { file: "src/main.rs".to_string(), line: 42, column: 7 };
    let report =
        PanicReport::new("index out of bounds".to_string(), "0: main".to_string(), Some(location));
    assert_eq!(report.message, "index out of bounds");
    assert_eq!(report.backtrace, "0: main");
    let location = report.location.unwrap();
    assert_eq!(location.file, "src/main.rs");
    assert_eq!(location.line, 42);
    assert_eq!(location.column, 7);
}

#[test]
fn report_without_a_location() {
    let report = PanicReport::new("boom".to_string(), String::new(), None);
    assert_eq!(report.message, "boom");
    assert_eq!(report.backtrace, "");
    assert!(report.location.is_none());
}

#[test]
fn captured_report_keeps_message_and_location() {
    let location = PanicLocation { file: "src/lib.rs".to_string(), line: 3, column: 1 };
    let report = PanicReport::capture("boom".to_string(), Some(location));
    assert_eq!(report.message, "boom");
    let location = report.location.unwrap();
    assert_eq!(location.file, "src/lib.rs");
    assert_eq!(location.line, 3);
    assert_eq!(location.column, 1);

    let bare = PanicReport::capture("again".to_string(), None);
    assert_eq!(bare.message, "again");
    assert!(bare.location.is_none());
}

#[test]
fn panics_are_counted_under_one_name() {
    assert_eq!(panic_counter_name(), "panic_counter");
}
