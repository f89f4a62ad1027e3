//! The eight subsystems and the fixed orders in which they are called.
//!
//! Initialization walks the subsystems front to back, finalization walks them back to
//! front, and a session change reaches the configuration first and then the other seven
//! in initialization order. A para is cleared out of the registry and then of the three
//! message queues. The orders are data: each is a sequence in contracts and an array in
//! code, and the relations between them are proved below.

use vstd::prelude::*;

verus! {

/// One of the state modules whose lifecycle the initializer drives.
#[derive(Clone, Copy, PartialEq, Eq, Debug, Structural)]
pub enum Subsystem {
    /// The store of chain-wide parameters.
    Configuration,
    /// The registry of paras.
    Paras,
    /// Assignment of paras to cores.
    Scheduler,
    /// Inclusion and availability of candidates.
    Inclusion,
    /// Bookkeeping of per-session metadata.
    SessionInfo,
    /// Downward message passing.
    Dmp,
    /// Upward message passing.
    Ump,
    /// Horizontal message passing.
    Hrmp,
}

/// Number of subsystems.
pub const SUBSYSTEMS: usize = 8;

/// Number of subsystems that hold state of a para.
pub const PARA_SUBSYSTEMS: usize = 4;

/// Number of subsystems that are told of a session change by notification: all but the
/// configuration, which produces part of the notification.
pub const NOTIFIED_SUBSYSTEMS: usize = 7;

/// The order of the initialize hooks.
pub open spec fn initialize_order() -> Seq<Subsystem> {
    seq![
        Subsystem::Configuration,
        Subsystem::Paras,
        Subsystem::Scheduler,
        Subsystem::Inclusion,
        Subsystem::SessionInfo,
        Subsystem::Dmp,
        Subsystem::Ump,
        Subsystem::Hrmp,
    ]
}

/// The order of the finalize hooks.
pub open spec fn finalize_order() -> Seq<Subsystem> {
    seq![
        Subsystem::Hrmp,
        Subsystem::Ump,
        Subsystem::Dmp,
        Subsystem::SessionInfo,
        Subsystem::Inclusion,
        Subsystem::Scheduler,
        Subsystem::Paras,
        Subsystem::Configuration,
    ]
}

/// The order in which a session change notification is handed round.
pub open spec fn notify_order() -> Seq<Subsystem> {
    seq![
        Subsystem::Paras,
        Subsystem::Scheduler,
        Subsystem::Inclusion,
        Subsystem::SessionInfo,
        Subsystem::Dmp,
        Subsystem::Ump,
        Subsystem::Hrmp,
    ]
}

/// The subsystems that hold state of a para, in the order in which they are asked to
/// clear it out.
pub open spec fn cleanup_order() -> Seq<Subsystem> {
    seq![Subsystem::Paras, Subsystem::Dmp, Subsystem::Ump, Subsystem::Hrmp]
}

/// The initialize order as an array.
pub fn initialize_table() -> (table: [Subsystem; 8])
    ensures
        table@ == initialize_order(),
{
    let table = [
        Subsystem::Configuration,
        Subsystem::Paras,
        Subsystem::Scheduler,
        Subsystem::Inclusion,
        Subsystem::SessionInfo,
        Subsystem::Dmp,
        Subsystem::Ump,
        Subsystem::Hrmp,
    ];
    assert(table@ =~= initialize_order());
    table
}

/// The finalize order as an array.
pub fn finalize_table() -> (table: [Subsystem; 8])
    ensures
        table@ == finalize_order(),
{
    let table = [
        Subsystem::Hrmp,
        Subsystem::Ump,
        Subsystem::Dmp,
        Subsystem::SessionInfo,
        Subsystem::Inclusion,
        Subsystem::Scheduler,
        Subsystem::Paras,
        Subsystem::Configuration,
    ];
    assert(table@ =~= finalize_order());
    table
}

/// The notification order as an array.
pub fn notify_table() -> (table: [Subsystem; 7])
    ensures
        table@ == notify_order(),
{
    let table = [
        Subsystem::Paras,
        Subsystem::Scheduler,
        Subsystem::Inclusion,
        Subsystem::SessionInfo,
        Subsystem::Dmp,
        Subsystem::Ump,
        Subsystem::Hrmp,
    ];
    assert(table@ =~= notify_order());
    table
}

/// The cleanup order as an array.
pub fn cleanup_table() -> (table: [Subsystem; 4])
    ensures
        table@ == cleanup_order(),
{
    let table = [Subsystem::Paras, Subsystem::Dmp, Subsystem::Ump, Subsystem::Hrmp];
    assert(table@ =~= cleanup_order());
    table
}

impl Subsystem {
    /// Position of the subsystem in the initialize order.
    pub open spec fn position(self) -> int {
        match self {
            Subsystem::Configuration => 0,
            Subsystem::Paras => 1,
            Subsystem::Scheduler => 2,
            Subsystem::Inclusion => 3,
            Subsystem::SessionInfo => 4,
            Subsystem::Dmp => 5,
            Subsystem::Ump => 6,
            Subsystem::Hrmp => 7,
        }
    }

    /// Position of the subsystem in the initialize order.
    pub fn index(self) -> (i: usize)
        ensures
            i == self.position(),
            i < SUBSYSTEMS,
    {
        match self {
            Subsystem::Configuration => 0,
            Subsystem::Paras => 1,
            Subsystem::Scheduler => 2,
            Subsystem::Inclusion => 3,
            Subsystem::SessionInfo => 4,
            Subsystem::Dmp => 5,
            Subsystem::Ump => 6,
            Subsystem::Hrmp => 7,
        }
    }
}

/// Every subsystem is initialized exactly once: the initialize order lists each of the
/// eight at its own position and has no other entry.
pub proof fn lemma_initialize_order_is_complete(which: Subsystem)
    ensures
        initialize_order().len() == SUBSYSTEMS,
        0 <= which.position() < SUBSYSTEMS,
        initialize_order()[which.position()] == which,
        forall|i: int|
            0 <= i < SUBSYSTEMS && initialize_order()[i] == which ==> i == which.position(),
{
}

/// Finalization runs in the exact reverse of initialization.
pub proof fn lemma_finalize_order_is_reverse()
    ensures
        finalize_order() == initialize_order().reverse(),
{
    assert(finalize_order() =~= initialize_order().reverse());
}

/// A notification goes to every subsystem but the configuration, in initialize order.
pub proof fn lemma_notify_order_skips_configuration()
    ensures
        initialize_order()[0] == Subsystem::Configuration,
        notify_order() == initialize_order().drop_first(),
        forall|i: int| 0 <= i < notify_order().len() ==> notify_order()[i] != Subsystem::Configuration,
{
    assert(notify_order() =~= initialize_order().drop_first());
}

/// No subsystem is notified twice of one session change.
pub proof fn lemma_notify_order_has_no_duplicates()
    ensures
        notify_order().len() == NOTIFIED_SUBSYSTEMS,
        notify_order().no_duplicates(),
{
    assert forall|i: int, j: int|
        0 <= i < notify_order().len() && 0 <= j < notify_order().len() && i != j implies notify_order()[i]
        != notify_order()[j] by {
        assert(notify_order()[i].position() == i + 1);
        assert(notify_order()[j].position() == j + 1);
    }
}

} // verus!
