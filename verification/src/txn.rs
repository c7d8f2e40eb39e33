//! The execution gate.  A `Txn<Active>` is the capability that proves a
//! transaction is running; the library never creates, renews or releases
//! one except inside `with_txn`, whose closure is the only place one can be
//! observed.

use vstd::prelude::*;
use core::marker::PhantomData;

verus! {

/// Marker: the transaction is running.
pub struct Active;

/// Marker: no transaction is running.
pub struct Inactive;

/// A connection to the executing collaborator.  Acquisition and transport
/// are outside this library; the value only hands out transaction
/// capabilities.
pub struct Conn;

/// A transaction in the given state.  Carries no data: it is a capability
/// token whose type parameter is the evidence.
pub struct Txn<State> {
    pub state: PhantomData<State>,
}

impl Conn {
    /// Run `f` with an active transaction.  The closure receives the
    /// capability by reference and its result is handed back unchanged.
    pub fn with_txn<T, F: FnOnce(&Txn<Active>) -> T>(&mut self, f: F) -> (r: T)
        requires
            forall|tx: Txn<Active>| call_requires(f, (&tx,)),
        ensures
            exists|tx: Txn<Active>| call_ensures(f, (&tx,), r),
    {
        let tx = Txn::<Active> { state: PhantomData };
        f(&tx)
    }
}

} // verus!
