use nebulafx::cancel::CancellationScope;

#[test]
fn new_scope_is_not_cancelled() {
    let scope = CancellationScope::new();
    assert!(!scope.is_cancelled());
    assert!(!scope.handle().is_cancelled());
}

#[test]
fn cancel_fires_once_and_reaches_every_handle() {
    let mut scope = CancellationScope::new();
    let before = scope.handle();
    let child = before.child_token();
    assert!(scope.cancel());
    assert!(scope.is_cancelled());
    assert!(before.is_cancelled());
    assert!(child.is_cancelled());
    assert!(scope.handle().is_cancelled());
    // the second request is a no-op
    assert!(!scope.cancel());
    assert!(!scope.cancel());
    assert!(scope.is_cancelled());
    assert!(before.is_cancelled());
}

#[test]
fn scopes_are_independent() {
    let mut first = CancellationScope::new();
    let second = CancellationScope::new();
    assert!(first.cancel());
    assert!(!second.is_cancelled());
    assert!(!second.handle().is_cancelled());
}

#[test]
fn every_handle_is_the_scope_s_own_token() {
    let mut scope = CancellationScope::new();
    let before = scope.handle();
    assert!(before == scope.handle());
    assert!(scope.cancel());
    // the token is the same after cancelling
    assert!(before == scope.handle());
    let other = CancellationScope::new();
    assert!(before != other.handle());
    // a child is cancelled with the token and is not the token
    assert!(before != before.child_token());
}
