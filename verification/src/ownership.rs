//! The ownership tracker: who holds the counted references to an engine
//! cell.
//!
//! The engine keeps one count per cell. Every live host value of a heap kind
//! owns exactly one unit of it, and so does every reference that the engine
//! holds itself. The tracker is the only place where the count changes.

use vstd::prelude::*;
use crate::object::{Disposal, Reply};

verus! {

/// A transfer point: something that happens to one reference of a cell.
#[derive(Clone, Copy, Debug, PartialEq, Eq, Structural)]
pub enum Transfer {
    /// The engine hands the host a value with a new reference of its own.
    Adopt,
    /// The host copies a value: the count goes up by one.
    Duplicate,
    /// The host drops a value: the count goes down by one.
    Release,
    /// The host hands a value to an operation that takes it over. The count
    /// stays, and the host's value is forgotten, not dropped.
    Forget,
    /// The engine gives up a reference that it held itself.
    EngineRelease,
}

/// The references to one cell, as mathematics.
pub ghost struct LedgerView {
    /// The engine's reference count.
    pub count: nat,
    /// How many live host values refer to the cell.
    pub host: nat,
    /// How many references the engine holds itself.
    pub engine: nat,
}

impl LedgerView {
    /// Every unit of the count has exactly one owner.
    pub open spec fn balanced(self) -> bool {
        self.count == self.host + self.engine
    }

    /// The ledger after `t`; `None` where `t` would release or forget a
    /// reference that its side does not hold.
    pub open spec fn step(self, t: Transfer) -> Option<LedgerView> {
        match t {
            Transfer::Adopt => Some(
                LedgerView { count: self.count + 1, host: self.host + 1, engine: self.engine },
            ),
            Transfer::Duplicate => if self.host >= 1 {
                Some(LedgerView { count: self.count + 1, host: self.host + 1, engine: self.engine })
            } else {
                None
            },
            Transfer::Release => if self.host >= 1 && self.count >= 1 {
                Some(
                    LedgerView {
                        count: (self.count - 1) as nat,
                        host: (self.host - 1) as nat,
                        engine: self.engine,
                    },
                )
            } else {
                None
            },
            Transfer::Forget => if self.host >= 1 {
                Some(
                    LedgerView {
                        count: self.count,
                        host: (self.host - 1) as nat,
                        engine: self.engine + 1,
                    },
                )
            } else {
                None
            },
            Transfer::EngineRelease => if self.engine >= 1 && self.count >= 1 {
                Some(
                    LedgerView {
                        count: (self.count - 1) as nat,
                        host: self.host,
                        engine: (self.engine - 1) as nat,
                    },
                )
            } else {
                None
            },
        }
    }

    /// The ledger after the transfers `ts` in order; `None` as soon as one
    /// of them is refused.
    pub open spec fn run(self, ts: Seq<Transfer>) -> Option<LedgerView>
        decreases ts.len(),
    {
        if ts.len() == 0 {
            Some(self)
        } else {
            match self.run(ts.drop_last()) {
                Some(s) => s.step(ts.last()),
                None => None,
            }
        }
    }
}

/// The references to one engine cell.
#[derive(Clone, Copy, Debug, PartialEq, Eq)]
pub struct Ledger {
    count: u64,
    host: u64,
    engine: u64,
}

impl View for Ledger {
    type V = LedgerView;

    closed spec fn view(&self) -> LedgerView {
        LedgerView { count: self.count as nat, host: self.host as nat, engine: self.engine as nat }
    }
}

impl Ledger {
    #[verifier::type_invariant]
    spec fn counted_once(self) -> bool {
        self.count == self.host + self.engine
    }

    /// A cell that the engine alone refers to, `engine` times.
    pub fn new(engine: u64) -> (ledger: Ledger)
        ensures
            ledger@ == (LedgerView { count: engine as nat, host: 0, engine: engine as nat }),
            ledger@.balanced(),
    {
        Ledger { count: engine, host: 0, engine }
    }

    /// The engine's reference count: one unit for each live host value and
    /// for each reference that the engine holds itself.
    pub fn count(&self) -> (n: u64)
        ensures
            n == self@.count,
            self@.balanced(),
    {
        proof {
            use_type_invariant(self);
        }
        self.count
    }

    /// How many live host values refer to the cell.
    pub fn host(&self) -> (n: u64)
        ensures
            n == self@.host,
    {
        self.host
    }

    /// How many references the engine holds itself.
    pub fn engine(&self) -> (n: u64)
        ensures
            n == self@.engine,
    {
        self.engine
    }

    /// Applies one transfer. It is refused, and the ledger left as it was,
    /// where the side that gives a reference up holds none, or where the
    /// count would pass the largest 64-bit number.
    pub fn apply(&mut self, t: Transfer) -> (applied: bool)
        ensures
            final(self)@.balanced(),
            applied <==> (old(self)@.step(t) matches Some(s) && s.count <= u64::MAX),
            applied ==> old(self)@.step(t) == Some(final(self)@),
            !applied ==> final(self)@ == old(self)@,
    {
        proof {
            use_type_invariant(&*self);
        }
        match t {
            Transfer::Adopt => {
                if self.count == u64::MAX {
                    return false;
                }
                *self = Ledger { count: self.count + 1, host: self.host + 1, engine: self.engine };
                true
            },
            Transfer::Duplicate => {
                if self.host == 0 || self.count == u64::MAX {
                    return false;
                }
                *self = Ledger { count: self.count + 1, host: self.host + 1, engine: self.engine };
                true
            },
            Transfer::Release => {
                if self.host == 0 {
                    return false;
                }
                *self = Ledger { count: self.count - 1, host: self.host - 1, engine: self.engine };
                true
            },
            Transfer::Forget => {
                if self.host == 0 {
                    return false;
                }
                *self = Ledger { count: self.count, host: self.host - 1, engine: self.engine + 1 };
                true
            },
            Transfer::EngineRelease => {
                if self.engine == 0 {
                    return false;
                }
                *self = Ledger { count: self.count - 1, host: self.host, engine: self.engine - 1 };
                true
            },
        }
    }
}

/// The transfer that carries out what a consuming operation decided for the
/// host's reference.
pub fn transfer_for(disposal: Disposal) -> (t: Transfer)
    ensures
        t == match disposal {
            Disposal::Forget => Transfer::Forget,
            Disposal::Release => Transfer::Release,
        },
{
    match disposal {
        Disposal::Forget => Transfer::Forget,
        Disposal::Release => Transfer::Release,
    }
}

/// The cell whose count a reply has raised: every heap value that the
/// engine hands back comes with one new reference, which the host adopts.
pub open spec fn adopted_spec(reply: Reply) -> Option<u64> {
    match reply {
        Reply::Value(v) => v@.cell(),
        Reply::Exception => None,
    }
}

/// The cell for which the host adopts a reference on receiving `reply`.
pub fn adopted(reply: &Reply) -> (cell: Option<u64>)
    ensures
        cell == adopted_spec(*reply),
{
    match reply {
        Reply::Value(v) => v.cell(),
        Reply::Exception => None,
    }
}

/// One transfer keeps the ledger balanced.
pub proof fn lemma_step_balanced(s: LedgerView, t: Transfer)
    requires
        s.balanced(),
    ensures
        s.step(t) matches Some(n) ==> n.balanced(),
{
}

/// Whatever sequence of transfers is applied to a balanced ledger, every
/// unit of the count still has exactly one owner afterwards. So once no host
/// value is left, the count is what the engine holds itself; and where the
/// engine then holds what it held before and no host value was alive before,
/// the count is back at what it was: nothing leaked, nothing was released
/// twice.
pub proof fn lemma_ownership_balance(s: LedgerView, ts: Seq<Transfer>)
    requires
        s.balanced(),
    ensures
        s.run(ts) matches Some(n) ==> {
            &&& n.balanced()
            &&& (n.host == 0 ==> n.count == n.engine)
            &&& (s.host == 0 && n.host == 0 && n.engine == s.engine ==> n.count == s.count)
        },
    decreases ts.len(),
{
    if ts.len() > 0 {
        lemma_ownership_balance(s, ts.drop_last());
        match s.run(ts.drop_last()) {
            Some(m) => {
                lemma_step_balanced(m, ts.last());
            },
            None => {},
        }
    }
}

} // verus!
