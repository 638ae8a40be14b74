//! The cancellation scope shared with every subsystem that works in the background.

use tokio_util::sync::CancellationToken;
use vstd::prelude::*;

verus! {

/// `tokio_util::sync::CancellationToken`, carried as an opaque value.
#[verifier::external_type_specification]
#[verifier::external_body]
pub struct ExCancellationToken(CancellationToken);

/// Calls `CancellationToken::new`. Nothing is claimed of the token.
#[verifier::external_body]
fn fresh_token() -> CancellationToken {
    CancellationToken::new()
}

/// Calls `CancellationToken::clone`, which shares the token's state: the copy equals the token.
#[verifier::external_body]
fn share_token(token: &CancellationToken) -> (copy: CancellationToken)
    ensures
        copy == *token,
{
    token.clone()
}

/// Calls `CancellationToken::cancel`. Nothing is claimed of its effect.
#[verifier::external_body]
fn trigger_token(token: &CancellationToken) {
    token.cancel()
}

/// The single token of the service. The view says whether cancellation was
/// requested through this scope; once true it stays true.
pub struct CancellationScope {
    token: CancellationToken,
    cancelled: bool,
}

impl View for CancellationScope {
    type V = bool;

    closed spec fn view(&self) -> bool {
        self.cancelled
    }
}

impl CancellationScope {
    /// A scope that has not been cancelled.
    pub fn new() -> (scope: Self)
        ensures
            !scope@,
    {
        CancellationScope { token: fresh_token(), cancelled: false }
    }

    /// Requests cancellation; says whether this call was the first. The token stays the same.
    pub fn cancel(&mut self) -> (fired: bool)
        ensures
            final(self)@ == spec_cancel(old(self)@).0,
            fired == spec_cancel(old(self)@).1,
            final(self).token() == old(self).token(),
    {
        if self.cancelled {
            false
        } else {
            trigger_token(&self.token);
            self.cancelled = true;
            true
        }
    }

    /// Whether cancellation was requested through this scope.
    pub fn is_cancelled(&self) -> (b: bool)
        ensures
            b == self@,
    {
        self.cancelled
    }

    /// A handle on the same token, for a subsystem to watch.
    pub fn handle(&self) -> (handle: CancellationToken)
        ensures
            handle == self.token(),
    {
        share_token(&self.token)
    }

    /// The token of the scope: the one that `new` made. Every handle is a
    /// copy of it, equal to it by the token's own `==`, so what cancels the
    /// scope cancels each handle.
    pub closed spec fn token(&self) -> CancellationToken {
        self.token
    }
}

/// Cancelling twice leaves the scope as cancelling once does, and only the
/// first request reports that it fired.
pub proof fn law_cancel_is_idempotent(before: bool)
    ensures
        spec_cancel(spec_cancel(before).0).0 == spec_cancel(before).0,
        spec_cancel(spec_cancel(before).0).1 == false,
        spec_cancel(before).0 == true,
{
}

/// What `cancel` does to a scope's view, and what it returns.
pub open spec fn spec_cancel(cancelled: bool) -> (bool, bool) {
    (true, !cancelled)
}

} // verus!
