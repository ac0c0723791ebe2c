use safe_file::{
    collect, copy_file, create_dir, remove_file, rename, DeviceRequest, HandleRegistry,
    LockStrategy, OpenAction, OpenEvent, OpenMode, Registration, SafeFile,
};

fn adopted(action: OpenAction<String>) -> (u64, SafeFile, Option<u64>) {
    match action {
        OpenAction::Adopt { id, file, replaced } => (id, file, replaced),
        other => panic!("expected an adopted handle, found {:?}", other),
    }
}

#[test]
fn empty_registry_has_no_candidate() {
    let registry = HandleRegistry::new();
    assert_eq!(registry.lookup(b"/data/a"), None);
    assert!(registry.has_room());
}

#[test]
fn first_open_goes_to_the_device_and_is_adopted() {
    let mut registry = HandleRegistry::new();
    let asked = SafeFile::open::<String>(
        &mut registry,
        b"/data/a",
        OpenMode::TruncateWrite,
        OpenEvent::Requested { alive: false },
    );
    assert_eq!(asked, OpenAction::DeviceOpen);
    assert_eq!(registry.lookup(b"/data/a"), None);
    let (id, file, replaced) = adopted(SafeFile::open(
        &mut registry,
        b"/data/a",
        OpenMode::TruncateWrite,
        OpenEvent::Opened { alive: false },
    ));
    assert_eq!(id, 0);
    assert_eq!(replaced, None);
    assert_eq!(file, SafeFile::new(OpenMode::TruncateWrite));
    assert_eq!(file.strategy(), LockStrategy::SingleWriter);
    assert_eq!(registry.lookup(b"/data/a"), Some(0));
}

#[test]
fn second_open_shares_the_held_handle() {
    let mut registry = HandleRegistry::new();
    let (id, _, _) = adopted(SafeFile::open(
        &mut registry,
        b"/data/a",
        OpenMode::ReadWrite,
        OpenEvent::Opened { alive: false },
    ));
    let again = SafeFile::open::<String>(
        &mut registry,
        b"/data/a",
        OpenMode::ReadWrite,
        OpenEvent::Requested { alive: true },
    );
    assert_eq!(again, OpenAction::Share { id });
    let other_mode = SafeFile::open::<String>(
        &mut registry,
        b"/data/a",
        OpenMode::TruncateWrite,
        OpenEvent::Requested { alive: true },
    );
    assert_eq!(other_mode, OpenAction::Share { id });
}

#[test]
fn racing_opens_end_with_one_handle() {
    let mut registry = HandleRegistry::new();
    let first = SafeFile::open::<String>(
        &mut registry,
        b"/data/a",
        OpenMode::ReadWrite,
        OpenEvent::Requested { alive: false },
    );
    let second = SafeFile::open::<String>(
        &mut registry,
        b"/data/a",
        OpenMode::ReadWrite,
        OpenEvent::Requested { alive: false },
    );
    assert_eq!(first, OpenAction::DeviceOpen);
    assert_eq!(second, OpenAction::DeviceOpen);
    let (winner, _, _) = adopted(SafeFile::open(
        &mut registry,
        b"/data/a",
        OpenMode::ReadWrite,
        OpenEvent::Opened { alive: false },
    ));
    let loser = SafeFile::open::<String>(
        &mut registry,
        b"/data/a",
        OpenMode::ReadWrite,
        OpenEvent::Opened { alive: true },
    );
    assert_eq!(loser, OpenAction::Share { id: winner });
    assert_eq!(registry.lookup(b"/data/a"), Some(winner));
}

#[test]
fn released_handle_is_opened_afresh() {
    let mut registry = HandleRegistry::new();
    let (old, _, _) = adopted(SafeFile::open(
        &mut registry,
        b"/data/a",
        OpenMode::ReadWrite,
        OpenEvent::Opened { alive: false },
    ));
    let asked = SafeFile::open::<String>(
        &mut registry,
        b"/data/a",
        OpenMode::TruncateWrite,
        OpenEvent::Requested { alive: false },
    );
    assert_eq!(asked, OpenAction::DeviceOpen);
    let (new, file, replaced) = adopted(SafeFile::open(
        &mut registry,
        b"/data/a",
        OpenMode::TruncateWrite,
        OpenEvent::Opened { alive: false },
    ));
    assert_ne!(new, old);
    assert_eq!(new, 1);
    assert_eq!(replaced, Some(old));
    assert_eq!(file.strategy(), LockStrategy::SingleWriter);
    assert_eq!(registry.lookup(b"/data/a"), Some(new));
}

#[test]
fn failed_open_registers_nothing() {
    let mut registry = HandleRegistry::new();
    let failed = SafeFile::open(
        &mut registry,
        b"/data/a",
        OpenMode::ReadWrite,
        OpenEvent::Failed(String::from("no such file")),
    );
    assert_eq!(failed, OpenAction::Fail(String::from("no such file")));
    assert_eq!(registry.lookup(b"/data/a"), None);
    let (id, _, _) = adopted(SafeFile::open(
        &mut registry,
        b"/data/a",
        OpenMode::ReadWrite,
        OpenEvent::Opened { alive: false },
    ));
    assert_eq!(id, 0);
}

#[test]
fn paths_have_handles_of_their_own() {
    let mut registry = HandleRegistry::new();
    let (a, _, _) = adopted(SafeFile::open(
        &mut registry,
        b"/data/a",
        OpenMode::ReadWrite,
        OpenEvent::Opened { alive: false },
    ));
    let (b, _, _) = adopted(SafeFile::open(
        &mut registry,
        b"/data/b",
        OpenMode::ReadWrite,
        OpenEvent::Opened { alive: true },
    ));
    assert_ne!(a, b);
    assert_eq!(registry.lookup(b"/data/a"), Some(a));
    assert_eq!(registry.lookup(b"/data/b"), Some(b));
    assert_eq!(registry.lookup(b"/data"), None);
    assert_eq!(registry.lookup(b""), None);
}

#[test]
fn paths_are_keyed_by_their_bytes() {
    let mut registry = HandleRegistry::new();
    let odd = [0x2fu8, 0xff, 0xfe];
    assert_eq!(registry.register(&odd, false), Registration::Fresh { id: 0, replaced: None });
    assert_eq!(registry.lookup(&odd), Some(0));
    assert_eq!(registry.lookup(&[0x2fu8, 0xff]), None);
    assert_eq!(registry.lookup(&[0x2fu8, 0xff, 0xfd]), None);
}

#[test]
fn register_lets_the_held_handle_win() {
    let mut registry = HandleRegistry::new();
    assert_eq!(registry.register(b"/data/a", true), Registration::Fresh { id: 0, replaced: None });
    assert_eq!(registry.register(b"/data/a", true), Registration::Existing { id: 0 });
    assert_eq!(
        registry.register(b"/data/a", false),
        Registration::Fresh { id: 1, replaced: Some(0) }
    );
    assert_eq!(registry.register(b"/data/a", true), Registration::Existing { id: 1 });
    assert_eq!(registry.lookup(b"/data/a"), Some(1));
}

#[test]
fn collect_removes_a_stale_entry() {
    let mut registry = HandleRegistry::new();
    registry.register(b"/data/a", false);
    registry.register(b"/data/b", false);
    assert_eq!(collect(&mut registry, b"/data/a", false), Some(0));
    assert_eq!(registry.lookup(b"/data/a"), None);
    assert_eq!(registry.lookup(b"/data/b"), Some(1));
    assert_eq!(collect(&mut registry, b"/data/a", false), None);
}

#[test]
fn collect_spares_a_held_entry() {
    let mut registry = HandleRegistry::new();
    registry.register(b"/data/a", false);
    assert_eq!(collect(&mut registry, b"/data/a", true), None);
    assert_eq!(registry.lookup(b"/data/a"), Some(0));
}

#[test]
fn collected_path_is_opened_afresh() {
    let mut registry = HandleRegistry::new();
    registry.register(b"/data/a", false);
    collect(&mut registry, b"/data/a", false);
    let asked = SafeFile::open::<String>(
        &mut registry,
        b"/data/a",
        OpenMode::ReadWrite,
        OpenEvent::Requested { alive: true },
    );
    assert_eq!(asked, OpenAction::DeviceOpen);
    let (id, _, replaced) = adopted(SafeFile::open(
        &mut registry,
        b"/data/a",
        OpenMode::ReadWrite,
        OpenEvent::Opened { alive: true },
    ));
    assert_eq!(id, 1);
    assert_eq!(replaced, None);
}

#[test]
fn passthrough_requests_leave_the_registry_alone() {
    let mut registry = HandleRegistry::new();
    registry.register(b"/data/a", false);
    assert_eq!(remove_file("/data/a"), DeviceRequest::RemoveFile { path: "/data/a" });
    assert_eq!(
        rename("/data/a", "/data/b"),
        DeviceRequest::Rename { from: "/data/a", to: "/data/b" }
    );
    assert_eq!(
        copy_file("/data/a", "/data/c"),
        DeviceRequest::CopyFile { from: "/data/a", to: "/data/c" }
    );
    assert_eq!(create_dir("/data/a"), DeviceRequest::CreateDir { path: "/data/a" });
    assert_eq!(registry.lookup(b"/data/a"), Some(0));
    assert_eq!(registry.lookup(b"/data/b"), None);
    assert_eq!(registry.lookup(b"/data/c"), None);
    assert_eq!(registry.register(b"/data/a", true), Registration::Existing { id: 0 });
}
