//! The connector's decisions: after each connect attempt and each push onto
//! the queue, what to do next. A failed connect leads straight to another
//! attempt; a push onto a full queue keeps the connection and tries again
//! once there is room.
use vstd::prelude::*;

verus! {

/// What the connector does next.
#[derive(Clone, Copy, Debug, PartialEq, Eq)]
pub enum ConnectorAction<C> {
    /// Open a new connection to the endpoint.
    Connect,
    /// Hand this connection to the queue, waiting for room if it is full.
    Push(C),
}

/// The action after a connect attempt with outcome `r`.
pub open spec fn connect_step<C, E>(r: Result<C, E>) -> ConnectorAction<C> {
    match r {
        Ok(c) => ConnectorAction::Push(c),
        Err(_) => ConnectorAction::Connect,
    }
}

/// The action after a push with outcome `r`: `Err` hands back the
/// connection that did not fit.
pub open spec fn push_step<C>(r: Result<(), C>) -> ConnectorAction<C> {
    match r {
        Ok(()) => ConnectorAction::Connect,
        Err(c) => ConnectorAction::Push(c),
    }
}

/// The connector's action after it is fed the connect outcomes `results`
/// from action `a`, one per connect attempt, as long as it keeps asking to
/// connect.
pub open spec fn connector_after<C, E>(a: ConnectorAction<C>, results: Seq<Result<C, E>>) -> ConnectorAction<C>
    decreases results.len(),
{
    if results.len() == 0 {
        a
    } else {
        match a {
            ConnectorAction::Connect => connector_after(connect_step(results[0]), results.drop_first()),
            ConnectorAction::Push(_) => a,
        }
    }
}

/// The first action of the connector.
pub fn start<C>() -> (r: ConnectorAction<C>)
    ensures
        r == ConnectorAction::<C>::Connect,
{
    ConnectorAction::Connect
}

/// Decides what follows a connect attempt: a new connection goes to the
/// queue; an error is dropped and the connector tries again at once.
pub fn after_connect<C, E>(r: Result<C, E>) -> (a: ConnectorAction<C>)
    ensures
        a == connect_step(r),
{
    match r {
        Ok(c) => ConnectorAction::Push(c),
        Err(_) => ConnectorAction::Connect,
    }
}

/// Decides what follows a push: on success the next connect; on a full
/// queue the same connection is pushed again, never dropped.
pub fn after_push<C>(r: Result<(), C>) -> (a: ConnectorAction<C>)
    ensures
        a == push_step(r),
{
    match r {
        Ok(()) => ConnectorAction::Connect,
        Err(c) => ConnectorAction::Push(c),
    }
}

/// Connect failures never stop the connector: after any number of them in
/// a row, its next action is another connect attempt.
pub proof fn lemma_failures_keep_connecting<C, E>(errors: Seq<E>)
    ensures
        connector_after(
            ConnectorAction::<C>::Connect,
            errors.map_values(|e: E| Err::<C, E>(e)),
        ) == ConnectorAction::<C>::Connect,
    decreases errors.len(),
{
    let results = errors.map_values(|e: E| Err::<C, E>(e));
    if errors.len() > 0 {
        lemma_failures_keep_connecting::<C, E>(errors.drop_first());
        assert(results.drop_first() =~= errors.drop_first().map_values(|e: E| Err::<C, E>(e)));
    }
}

/// A push onto a full queue keeps the connection: the next action pushes the
/// very connection that came back.
pub proof fn lemma_full_queue_keeps_connection<C>(c: C)
    ensures
        push_step(Err::<(), C>(c)) == ConnectorAction::Push(c),
{
}

} // verus!
