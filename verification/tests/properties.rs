use rcell::RCell;
use rcell::Replace;
use rcell::Strong;
use rcell::Weak;

#[test]
fn retained_tracks_strong_mode() {
    let mut cell = RCell::new("foobar");
    assert!(cell.retained());
    cell.release();
    assert!(!cell.retained());
    cell.replace(Strong::new("foobar"));
    assert!(cell.retained());
    cell.remove();
    assert!(!cell.retained());
}

#[test]
fn retain_on_new_yields_value() {
    let mut cell = RCell::new("foobar");
    let handle = cell.retain().unwrap();
    assert_eq!(*handle, "foobar");
    assert!(cell.retained());
}

#[test]
fn retain_upgrades_and_caches() {
    let strong = Strong::new("foobar");
    let mut cell = RCell::from(Weak::downgrade(&strong));
    assert!(!cell.retained());
    let handle = cell.retain().unwrap();
    assert_eq!(*handle, "foobar");
    assert!(cell.retained());
    drop(strong);
    drop(handle);
    assert_eq!(*cell.request().unwrap(), "foobar");
}

#[test]
fn retain_on_dead_weak_yields_nothing() {
    let strong = Strong::new("foobar");
    let mut cell = RCell::from(Weak::downgrade(&strong));
    drop(strong);
    assert_eq!(cell.retain(), None);
    assert!(!cell.retained());
    assert_eq!(cell.request(), None);
}

#[test]
fn release_with_external_holder_settles_weak() {
    let strong = Strong::new("foobar");
    let mut cell = RCell::from(Strong::clone(&strong));
    assert!(cell.retained());
    cell.release();
    assert!(!cell.retained());
    assert_eq!(*cell.request().unwrap(), "foobar");
    drop(strong);
    assert_eq!(cell.request(), None);
}

#[test]
fn release_on_weak_keeps_target() {
    let strong = Strong::new("foobar");
    let mut cell = RCell::from(Weak::downgrade(&strong));
    cell.release();
    assert!(!cell.retained());
    assert_eq!(*cell.request().unwrap(), "foobar");
}

#[test]
fn remove_from_each_state_leaves_nothing() {
    let mut from_strong = RCell::new("foobar");
    from_strong.remove();
    assert!(!from_strong.retained());
    assert_eq!(from_strong.request(), None);

    let strong = Strong::new("foobar");
    let mut from_weak = RCell::from(Weak::downgrade(&strong));
    from_weak.remove();
    assert!(!from_weak.retained());
    assert_eq!(from_weak.request(), None);

    let mut from_empty = RCell::<&str>::default();
    from_empty.remove();
    assert!(!from_empty.retained());
    assert_eq!(from_empty.request(), None);
}

#[test]
fn replace_overwrites_prior_content() {
    let mut cell = RCell::new("foo");
    cell.replace(Strong::new("bar"));
    assert!(cell.retained());
    assert_eq!(*cell.request().unwrap(), "bar");
}

#[test]
fn replace_with_dead_weak_yields_nothing() {
    let strong = Strong::new("foobar");
    let weak = Weak::downgrade(&strong);
    drop(strong);
    let mut cell = RCell::new("other");
    cell.replace(weak);
    assert!(!cell.retained());
    assert_eq!(cell.request(), None);
}

#[test]
fn refcount_counts_strong_holders() {
    let cell = RCell::new(10i32);
    assert_eq!(cell.refcount(), 1);
    let handle = cell.request().unwrap();
    assert_eq!(cell.refcount(), 2);
    drop(handle);
    assert_eq!(cell.refcount(), 1);

    let empty = RCell::<i32>::default();
    assert_eq!(empty.refcount(), 0);
}

#[test]
fn refcount_through_weak_handle() {
    let strong = Strong::new(10i32);
    let cell = RCell::from(Weak::downgrade(&strong));
    assert_eq!(cell.refcount(), 1);
    drop(strong);
    assert_eq!(cell.refcount(), 0);
    assert_eq!(cell.request(), None);
}

#[test]
fn clone_duplicates_mode_and_target() {
    let strong_cell = RCell::new("foobar");
    let strong_copy = strong_cell.clone();
    assert!(strong_copy.retained());
    assert_eq!(*strong_copy.request().unwrap(), "foobar");

    let mut weak_cell = RCell::new("foobar");
    weak_cell.release();
    let weak_copy = weak_cell.clone();
    assert!(!weak_copy.retained());

    let empty_cell = RCell::<i32>::default();
    let empty_copy = empty_cell.clone();
    assert!(!empty_copy.retained());
    assert_eq!(empty_copy.request(), None);
}

#[test]
fn request_does_not_cache_upgrade() {
    let strong = Strong::new("foobar");
    let cell = RCell::from(Weak::downgrade(&strong));
    assert_eq!(*cell.request().unwrap(), "foobar");
    assert!(!cell.retained());
}
