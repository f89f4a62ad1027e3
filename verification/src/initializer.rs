//! Keeps the parachains subsystems in a consistent order through each block.
//!
//! At the start of a block every subsystem is initialized, front to back; at its end
//! every subsystem is finalized, back to front. A change of session may be announced at
//! any point before the block is finalized. It is buffered, and the last one announced
//! is applied when the block is finalized, after the finalize hooks: the configuration
//! is told first, and the other subsystems then receive one notification that holds the
//! configuration from before and from after.
//!
//! The subsystems themselves are not part of this module. The runtime that holds them
//! implements [`Config`], which says what each hook does to the runtime's state.

use vstd::prelude::*;
use crate::primitives::{SessionIndex, ValidatorId, Weight};
use crate::weights::{lemma_total_weight_of_prefix, total_weight};
use crate::Runtime;
use crate::subsystem::{
    finalize_order, finalize_table, initialize_order, initialize_table, notify_order, notify_table,
    Subsystem, NOTIFIED_SUBSYSTEMS, SUBSYSTEMS,
};

verus! {

/// Information about a session change that has just occurred.
#[derive(Clone, Debug, PartialEq, Eq)]
pub struct SessionChangeNotification<HostConfiguration> {
    /// The new validators in the session.
    pub validators: Vec<ValidatorId>,
    /// The queued validators for the following session.
    pub queued: Vec<ValidatorId>,
    /// The configuration before handling the session change.
    pub prev_config: HostConfiguration,
    /// The configuration after handling the session change.
    pub new_config: HostConfiguration,
    /// A random seed for the session.
    pub random_seed: [u8; 32],
    /// New session index.
    pub session_index: SessionIndex,
}

/// The value of a [`SessionChangeNotification`].
pub struct SessionChangeNotificationView<HostConfiguration> {
    pub validators: Seq<ValidatorId>,
    pub queued: Seq<ValidatorId>,
    pub prev_config: HostConfiguration,
    pub new_config: HostConfiguration,
    pub random_seed: Seq<u8>,
    pub session_index: SessionIndex,
}

impl<HostConfiguration> View for SessionChangeNotification<HostConfiguration> {
    type V = SessionChangeNotificationView<HostConfiguration>;

    open spec fn view(&self) -> Self::V {
        SessionChangeNotificationView {
            validators: self.validators@,
            queued: self.queued@,
            prev_config: self.prev_config,
            new_config: self.new_config,
            random_seed: self.random_seed@,
            session_index: self.session_index,
        }
    }
}

impl<HostConfiguration: Default> Default for SessionChangeNotification<HostConfiguration> {
    /// The notification of no change: no validators, none queued, both configurations
    /// the default one, the seed all zeros, the session index zero.
    fn default() -> (notification: Self)
        ensures
            notification.validators@ == Seq::<ValidatorId>::empty(),
            notification.queued@ == Seq::<ValidatorId>::empty(),
            call_ensures(HostConfiguration::default, (), notification.prev_config),
            call_ensures(HostConfiguration::default, (), notification.new_config),
            notification.random_seed@ == Seq::new(32, |i: int| 0u8),
            notification.session_index == 0,
    {
        let notification = SessionChangeNotification {
            validators: Vec::new(),
            queued: Vec::new(),
            prev_config: HostConfiguration::default(),
            new_config: HostConfiguration::default(),
            random_seed: [0u8; 32],
            session_index: 0,
        };
        assert(notification.random_seed@ =~= Seq::new(32, |i: int| 0u8));
        notification
    }
}

/// A session change as it was announced: what is known of it before it is applied.
#[derive(Debug, PartialEq, Eq)]
pub struct BufferedSessionChange {
    /// The new validators in the session.
    pub validators: Vec<ValidatorId>,
    /// The queued validators for the following session.
    pub queued: Vec<ValidatorId>,
    /// New session index.
    pub session_index: SessionIndex,
}

/// The value of a [`BufferedSessionChange`].
pub struct BufferedSessionChangeView {
    pub validators: Seq<ValidatorId>,
    pub queued: Seq<ValidatorId>,
    pub session_index: SessionIndex,
}

impl View for BufferedSessionChange {
    type V = BufferedSessionChangeView;

    open spec fn view(&self) -> Self::V {
        BufferedSessionChangeView {
            validators: self.validators@,
            queued: self.queued@,
            session_index: self.session_index,
        }
    }
}

/// The runtime that the initializer drives: the eight subsystems and the randomness
/// beacon, with the hooks that the initializer calls.
///
/// Each hook is a function of the runtime's state. The spec functions say which state a
/// hook leaves behind and what it returns, and the hooks are held to them. By default a
/// spec function leaves its value open; a runtime that is verified defines each one.
pub trait Config: Runtime {
    /// The number of a block.
    type BlockNumber: Copy;

    /// A snapshot of the chain-wide parameters, as the configuration hands it out.
    type HostConfiguration;

    /// The state after `which` was initialized at block `now`.
    open spec fn initialized(state: Self::State, which: Subsystem, now: Self::BlockNumber) -> Self::State {
        arbitrary()
    }

    /// The weight that `which` reports when it is initialized at block `now`.
    open spec fn initialize_weight(state: Self::State, which: Subsystem, now: Self::BlockNumber) -> Weight {
        arbitrary()
    }

    /// The state after `which` was finalized.
    open spec fn finalized(state: Self::State, which: Subsystem) -> Self::State {
        arbitrary()
    }

    /// The configuration that is active in `state`.
    open spec fn active_config(state: Self::State) -> Self::HostConfiguration {
        arbitrary()
    }

    /// The state after the configuration was told of a new session's validators.
    open spec fn session_started(
        state: Self::State,
        validators: Seq<ValidatorId>,
        queued: Seq<ValidatorId>,
    ) -> Self::State {
        arbitrary()
    }

    /// The state after `which` received `notification`.
    open spec fn notified(
        state: Self::State,
        which: Subsystem,
        notification: SessionChangeNotificationView<Self::HostConfiguration>,
    ) -> Self::State {
        arbitrary()
    }

    /// What the randomness beacon yields for `subject` in `state`.
    open spec fn randomness(state: Self::State, subject: Seq<u8>) -> Seq<u8> {
        arbitrary()
    }

    /// Block-start bookkeeping of `which`. Returns the weight it used.
    fn initializer_initialize(&mut self, which: Subsystem, now: Self::BlockNumber) -> (weight: Weight)
        ensures
            final(self).state() == Self::initialized(old(self).state(), which, now),
            weight == Self::initialize_weight(old(self).state(), which, now),
    ;

    /// Block-end bookkeeping of `which`.
    fn initializer_finalize(&mut self, which: Subsystem)
        ensures
            final(self).state() == Self::finalized(old(self).state(), which),
    ;

    /// The active configuration.
    fn config(&self) -> (config: Self::HostConfiguration)
        ensures
            config == Self::active_config(self.state()),
    ;

    /// Tells the configuration of a new session's validators. The configuration may
    /// change the active configuration in response.
    fn configuration_on_new_session(&mut self, validators: &Vec<ValidatorId>, queued: &Vec<ValidatorId>)
        ensures
            final(self).state() == Self::session_started(old(self).state(), validators@, queued@),
    ;

    /// Hands `notification` to `which`. The configuration is never notified this way.
    fn initializer_on_new_session(
        &mut self,
        which: Subsystem,
        notification: &SessionChangeNotification<Self::HostConfiguration>,
    )
        requires
            which != Subsystem::Configuration,
        ensures
            final(self).state() == Self::notified(old(self).state(), which, notification@),
    ;

    /// Random bytes for `subject`, of any length.
    fn random(&self, subject: &[u8]) -> (bytes: Vec<u8>)
        ensures
            bytes@ == Self::randomness(self.state(), subject@),
    ;
}

/// The state after the subsystems in `order` were initialized at block `now`, one after
/// the other.
pub open spec fn initialized_all<T: Config>(
    state: T::State,
    order: Seq<Subsystem>,
    now: T::BlockNumber,
) -> T::State
    decreases order.len(),
{
    if order.len() == 0 {
        state
    } else {
        T::initialized(initialized_all::<T>(state, order.drop_last(), now), order.last(), now)
    }
}

/// The weights that the subsystems in `order` report when they are initialized at block
/// `now`, one after the other: each in the state that those before it left behind.
pub open spec fn initialize_weights<T: Config>(
    state: T::State,
    order: Seq<Subsystem>,
    now: T::BlockNumber,
) -> Seq<Weight>
    decreases order.len(),
{
    if order.len() == 0 {
        Seq::empty()
    } else {
        initialize_weights::<T>(state, order.drop_last(), now).push(
            T::initialize_weight(
                initialized_all::<T>(state, order.drop_last(), now),
                order.last(),
                now,
            ),
        )
    }
}

/// The state after the subsystems in `order` were finalized, one after the other.
pub open spec fn finalized_all<T: Config>(state: T::State, order: Seq<Subsystem>) -> T::State
    decreases order.len(),
{
    if order.len() == 0 {
        state
    } else {
        T::finalized(finalized_all::<T>(state, order.drop_last()), order.last())
    }
}

/// The state after the subsystems in `order` received `notification`, one after the
/// other.
pub open spec fn notified_all<T: Config>(
    state: T::State,
    order: Seq<Subsystem>,
    notification: SessionChangeNotificationView<T::HostConfiguration>,
) -> T::State
    decreases order.len(),
{
    if order.len() == 0 {
        state
    } else {
        T::notified(notified_all::<T>(state, order.drop_last(), notification), order.last(), notification)
    }
}

/// The weights reported by the first `k` subsystems of `order` are the first `k` of
/// those reported by all of `order`.
pub proof fn lemma_initialize_weights_of_prefix<T: Config>(
    state: T::State,
    order: Seq<Subsystem>,
    now: T::BlockNumber,
    k: int,
)
    requires
        0 <= k <= order.len(),
    ensures
        initialize_weights::<T>(state, order, now).len() == order.len(),
        initialize_weights::<T>(state, order.take(k), now) == initialize_weights::<T>(
            state,
            order,
            now,
        ).take(k),
    decreases order.len(),
{
    if order.len() == 0 {
        assert(order.take(k) =~= order);
        assert(initialize_weights::<T>(state, order, now).take(k) =~= initialize_weights::<T>(
            state,
            order,
            now,
        ));
    } else if k == order.len() {
        lemma_initialize_weights_of_prefix::<T>(state, order.drop_last(), now, k - 1);
        assert(order.take(k) =~= order);
        assert(initialize_weights::<T>(state, order, now).take(k) =~= initialize_weights::<T>(
            state,
            order,
            now,
        ));
    } else {
        lemma_initialize_weights_of_prefix::<T>(state, order.drop_last(), now, k);
        assert(order.drop_last().take(k) =~= order.take(k));
        assert(initialize_weights::<T>(state, order.drop_last(), now).take(k)
            =~= initialize_weights::<T>(state, order, now).take(k));
    }
}

/// The subject for which the randomness beacon is asked when a session changes: the
/// bytes of the word "paras".
pub open spec fn randomness_subject() -> Seq<u8> {
    seq![0x70u8, 0x61u8, 0x72u8, 0x61u8, 0x73u8]
}

/// The seed made of `random`: its first 32 bytes, with zeros behind them where it is
/// shorter.
pub open spec fn seed_of(random: Seq<u8>) -> Seq<u8> {
    Seq::new(32, |i: int| if i < random.len() { random[i] } else { 0u8 })
}

/// The identities of a sequence of accounts with their identities.
pub open spec fn identities<AccountId>(pairs: Seq<(AccountId, ValidatorId)>) -> Seq<ValidatorId> {
    Seq::new(pairs.len(), |i: int| pairs[i].1)
}

/// The notification of the session change `change`, applied in `state`. The previous
/// configuration is the one active in `state`; the new one is the one active once the
/// configuration was told of the change.
pub open spec fn session_change_notification<T: Config>(
    state: T::State,
    change: BufferedSessionChangeView,
) -> SessionChangeNotificationView<T::HostConfiguration> {
    SessionChangeNotificationView {
        validators: change.validators,
        queued: change.queued,
        prev_config: T::active_config(state),
        new_config: T::active_config(T::session_started(state, change.validators, change.queued)),
        random_seed: seed_of(T::randomness(state, randomness_subject())),
        session_index: change.session_index,
    }
}

/// The state after the session change `change` was applied in `state`: the
/// configuration was told of it, and then the other subsystems were notified.
pub open spec fn new_session_applied<T: Config>(state: T::State, change: BufferedSessionChangeView) -> T::State {
    notified_all::<T>(
        T::session_started(state, change.validators, change.queued),
        notify_order(),
        session_change_notification::<T>(state, change),
    )
}

/// The state after a block was finalized in `state` with the session changes `buffered`
/// announced: all subsystems were finalized, and then the last of `buffered`, if there
/// is one, was applied.
pub open spec fn block_finalized<T: Config>(
    state: T::State,
    buffered: Seq<BufferedSessionChangeView>,
) -> T::State {
    let torn_down = finalized_all::<T>(state, finalize_order());
    if buffered.len() == 0 {
        torn_down
    } else {
        new_session_applied::<T>(torn_down, buffered.last())
    }
}

/// The seed made of `random`: its first 32 bytes, with zeros behind them where it is
/// shorter.
pub fn random_seed(random: &[u8]) -> (seed: [u8; 32])
    ensures
        seed@ == seed_of(random@),
{
    let mut buf = [0u8; 32];
    let len: usize = sp_std::cmp::Ord::min(32, random.len());
    let mut i: usize = 0;
    while i < len
        invariant
            0 <= i <= len <= 32,
            len <= random@.len(),
            forall|j: int| 0 <= j < i ==> buf@[j] == random@[j],
            forall|j: int| i <= j < 32 ==> buf@[j] == 0u8,
        decreases len - i,
    {
        buf[i] = random[i];
        i = i + 1;
    }
    assert(buf@ =~= seed_of(random@));
    buf
}

/// The identities of a list of accounts with their identities.
pub fn identities_of<AccountId>(pairs: &Vec<(AccountId, ValidatorId)>) -> (ids: Vec<ValidatorId>)
    ensures
        ids@ == identities(pairs@),
{
    let mut ids: Vec<ValidatorId> = Vec::new();
    let mut i: usize = 0;
    while i < pairs.len()
        invariant
            0 <= i <= pairs@.len(),
            ids@ == identities(pairs@.take(i as int)),
        decreases pairs@.len() - i,
    {
        ids.push(pairs[i].1);
        assert(ids@ =~= identities(pairs@.take(i + 1)));
        i = i + 1;
    }
    assert(pairs@.take(i as int) =~= pairs@);
    ids
}

/// The initializer's own state: whether the subsystems have been initialized within this
/// block, and the session changes announced since the last block was finalized.
pub struct Module {
    /// Semantically a flag. It is a value that is present or absent, so that the cleared
    /// flag is no value at all.
    has_initialized: Option<()>,
    /// Typically empty or one element long.
    buffered_session_changes: Vec<BufferedSessionChange>,
}

/// The value of a [`Module`].
pub struct ModuleView {
    /// Whether the block is between its initialization and its finalization.
    pub has_initialized: bool,
    /// The session changes that wait to be applied, in the order of their announcement.
    pub buffered_session_changes: Seq<BufferedSessionChangeView>,
}

impl ModuleView {
    /// The state before the first block: not initialized, nothing buffered.
    pub open spec fn empty() -> ModuleView {
        ModuleView { has_initialized: false, buffered_session_changes: Seq::empty() }
    }

    /// The state after a block was initialized.
    pub open spec fn initialized(self) -> ModuleView {
        ModuleView { has_initialized: true, buffered_session_changes: self.buffered_session_changes }
    }

    /// The state after `change` was announced.
    pub open spec fn announced(self, change: BufferedSessionChangeView) -> ModuleView {
        ModuleView {
            has_initialized: self.has_initialized,
            buffered_session_changes: self.buffered_session_changes.push(change),
        }
    }

    /// The state after `changes` were announced, one after the other.
    pub open spec fn announced_all(self, changes: Seq<BufferedSessionChangeView>) -> ModuleView
        decreases changes.len(),
    {
        if changes.len() == 0 {
            self
        } else {
            self.announced_all(changes.drop_last()).announced(changes.last())
        }
    }

    /// The state after a block was finalized.
    pub open spec fn finalized(self) -> ModuleView {
        ModuleView { has_initialized: false, buffered_session_changes: Seq::empty() }
    }
}

/// The values of a list of buffered session changes.
pub open spec fn views(changes: Seq<BufferedSessionChange>) -> Seq<BufferedSessionChangeView> {
    Seq::new(changes.len(), |i: int| changes[i]@)
}

impl View for Module {
    type V = ModuleView;

    closed spec fn view(&self) -> ModuleView {
        ModuleView {
            has_initialized: self.has_initialized.is_some(),
            buffered_session_changes: views(self.buffered_session_changes@),
        }
    }
}

impl Module {
    /// The initializer before the first block.
    pub fn new() -> (module: Module)
        ensures
            module@ == ModuleView::empty(),
    {
        let module = Module { has_initialized: None, buffered_session_changes: Vec::new() };
        assert(module@.buffered_session_changes =~= Seq::empty());
        module
    }

    /// The initializer with the given flag and buffer: what [`Module::into_parts`] gave
    /// when it was last put away.
    pub fn from_parts(
        has_initialized: Option<()>,
        buffered_session_changes: Vec<BufferedSessionChange>,
    ) -> (module: Module)
        ensures
            module@ == (ModuleView {
                has_initialized: has_initialized.is_some(),
                buffered_session_changes: views(buffered_session_changes@),
            }),
    {
        Module { has_initialized, buffered_session_changes }
    }

    /// The flag and the buffer, to be put away until the next call.
    pub fn into_parts(self) -> (parts: (Option<()>, Vec<BufferedSessionChange>))
        ensures
            parts.0.is_some() == self@.has_initialized,
            views(parts.1@) == self@.buffered_session_changes,
    {
        (self.has_initialized, self.buffered_session_changes)
    }

    /// Whether the subsystems have been initialized within this block: a value while
    /// they are, none otherwise.
    pub fn has_initialized(&self) -> (flag: Option<()>)
        ensures
            flag.is_some() == self@.has_initialized,
    {
        self.has_initialized
    }

    /// The session changes that wait to be applied, in the order of their announcement.
    pub fn buffered_session_changes(&self) -> (buffered: &Vec<BufferedSessionChange>)
        ensures
            views(buffered@) == self@.buffered_session_changes,
    {
        &self.buffered_session_changes
    }

    /// Starts a block: initializes every subsystem, in initialize order, and marks the
    /// block as initialized. Returns the sum of the weights that the subsystems report.
    ///
    /// The sum has to fit into a [`Weight`].
    pub fn on_initialize<T: Config>(&mut self, runtime: &mut T, now: T::BlockNumber) -> (total: Weight)
        requires
            total_weight(initialize_weights::<T>(old(runtime).state(), initialize_order(), now)) <= Weight::MAX,
        ensures
            final(self)@ == old(self)@.initialized(),
            final(runtime).state() == initialized_all::<T>(old(runtime).state(), initialize_order(), now),
            total == total_weight(initialize_weights::<T>(old(runtime).state(), initialize_order(), now)),
    {
        let table = initialize_table();
        let ghost weights = initialize_weights::<T>(runtime.state(), initialize_order(), now);
        let mut total: Weight = 0;
        let mut i: usize = 0;
        while i < SUBSYSTEMS
            invariant
                0 <= i <= SUBSYSTEMS,
                table@ == initialize_order(),
                weights == initialize_weights::<T>(old(runtime).state(), initialize_order(), now),
                total_weight(weights) <= Weight::MAX,
                runtime.state() == initialized_all::<T>(old(runtime).state(), initialize_order().take(i as int), now),
                total == total_weight(weights.take(i as int)),
            decreases SUBSYSTEMS - i,
        {
            proof {
                lemma_initialize_weights_of_prefix::<T>(old(runtime).state(), initialize_order(), now, i as int);
                lemma_initialize_weights_of_prefix::<T>(old(runtime).state(), initialize_order(), now, i + 1);
                lemma_total_weight_of_prefix(weights, i + 1);
                assert(initialize_order().take(i + 1).drop_last() =~= initialize_order().take(i as int));
                assert(weights.take(i + 1).drop_last() =~= weights.take(i as int));
            }
            let weight = runtime.initializer_initialize(table[i], now);
            total = total + weight;
            i = i + 1;
        }
        proof {
            lemma_initialize_weights_of_prefix::<T>(old(runtime).state(), initialize_order(), now, 0);
            assert(initialize_order().take(SUBSYSTEMS as int) =~= initialize_order());
            assert(weights.take(SUBSYSTEMS as int) =~= weights);
        }
        self.has_initialized = Some(());
        total
    }

    /// Ends a block: finalizes every subsystem, in finalize order, then applies the last
    /// session change that was announced, if any, and drops the others. The buffer is
    /// empty and the block no longer initialized afterwards, whatever was announced.
    pub fn on_finalize<T: Config>(&mut self, runtime: &mut T)
        ensures
            final(self)@ == old(self)@.finalized(),
            final(runtime).state() == block_finalized::<T>(old(runtime).state(), old(self)@.buffered_session_changes),
    {
        let table = finalize_table();
        let mut i: usize = 0;
        while i < SUBSYSTEMS
            invariant
                0 <= i <= SUBSYSTEMS,
                table@ == finalize_order(),
                *self == *old(self),
                runtime.state() == finalized_all::<T>(old(runtime).state(), finalize_order().take(i as int)),
            decreases SUBSYSTEMS - i,
        {
            proof {
                assert(finalize_order().take(i + 1).drop_last() =~= finalize_order().take(i as int));
            }
            runtime.initializer_finalize(table[i]);
            i = i + 1;
        }
        proof {
            assert(finalize_order().take(SUBSYSTEMS as int) =~= finalize_order());
        }
        // Only the last change is applied: all others lasted less than a block.
        let mut buffered: Vec<BufferedSessionChange> = Vec::new();
        sp_std::mem::swap(&mut self.buffered_session_changes, &mut buffered);
        match buffered.pop() {
            Some(change) => {
                assert(change@ == old(self)@.buffered_session_changes.last());
                let BufferedSessionChange { session_index, validators, queued } = change;
                Self::apply_new_session(runtime, session_index, validators, queued);
            },
            None => {},
        }
        self.has_initialized = None;
        assert(self@.buffered_session_changes =~= Seq::empty());
    }

    /// Applies a session change. The configuration is read, the randomness beacon is
    /// asked for the seed, the configuration is told of the new validators and read
    /// again, and the notification made of all this is handed to the other subsystems
    /// in notification order.
    fn apply_new_session<T: Config>(
        runtime: &mut T,
        session_index: SessionIndex,
        validators: Vec<ValidatorId>,
        queued: Vec<ValidatorId>,
    )
        ensures
            final(runtime).state() == new_session_applied::<T>(
                old(runtime).state(),
                (BufferedSessionChangeView { validators: validators@, queued: queued@, session_index }),
            ),
    {
        let ghost change = BufferedSessionChangeView { validators: validators@, queued: queued@, session_index };
        let prev_config = runtime.config();

        let random_seed = {
            let subject: [u8; 5] = [0x70, 0x61, 0x72, 0x61, 0x73];
            assert(subject@ =~= randomness_subject());
            let random = runtime.random(subject.as_slice());
            random_seed(random.as_slice())
        };

        // The configuration cannot be handed the notification: it decides what the new
        // configuration in it will be.
        runtime.configuration_on_new_session(&validators, &queued);

        let new_config = runtime.config();

        let notification = SessionChangeNotification {
            validators,
            queued,
            prev_config,
            new_config,
            random_seed,
            session_index,
        };
        assert(notification@ == session_change_notification::<T>(old(runtime).state(), change));

        let table = notify_table();
        let ghost told = runtime.state();
        let mut i: usize = 0;
        while i < NOTIFIED_SUBSYSTEMS
            invariant
                0 <= i <= NOTIFIED_SUBSYSTEMS,
                table@ == notify_order(),
                runtime.state() == notified_all::<T>(told, notify_order().take(i as int), notification@),
            decreases NOTIFIED_SUBSYSTEMS - i,
        {
            proof {
                assert(notify_order().take(i + 1).drop_last() =~= notify_order().take(i as int));
            }
            runtime.initializer_on_new_session(table[i], &notification);
            i = i + 1;
        }
        proof {
            assert(notify_order().take(NOTIFIED_SUBSYSTEMS as int) =~= notify_order());
        }
    }

    /// Should be called when a new session occurs. Buffers the session change, to be
    /// applied when the block is finalized. If `queued` is `None`, the `validators` are
    /// considered queued. Of each pair only the identity is kept. No subsystem is
    /// touched, and `changed` plays no part.
    ///
    /// The call belongs before the block is finalized, whether the block has been
    /// initialized by then or not. The initializer cannot tell a change announced after
    /// that from one announced ahead of the next block: it is applied when the next
    /// block is finalized.
    pub fn on_new_session<AccountId>(
        &mut self,
        _changed: bool,
        session_index: SessionIndex,
        validators: Vec<(AccountId, ValidatorId)>,
        queued: Option<Vec<(AccountId, ValidatorId)>>,
    )
        ensures
            final(self)@ == old(self)@.announced(
                (BufferedSessionChangeView {
                    validators: identities(validators@),
                    queued: match queued {
                        Some(queued) => identities(queued@),
                        None => identities(validators@),
                    },
                    session_index,
                }),
            ),
    {
        let validators: Vec<ValidatorId> = identities_of(&validators);
        let queued: Vec<ValidatorId> = match queued {
            Some(queued) => identities_of(&queued),
            None => validators.clone(),
        };
        self.buffered_session_changes.push(BufferedSessionChange { validators, queued, session_index });
        assert(self@.buffered_session_changes =~= old(self)@.buffered_session_changes.push(
            self.buffered_session_changes@.last()@,
        ));
    }
}

/// Announcements add to the buffer and touch nothing else: once `changes` were
/// announced, the buffer holds what it held before, then `changes` in their order, and
/// the flag is as it was.
pub proof fn lemma_announcements_are_buffered(module: ModuleView, changes: Seq<BufferedSessionChangeView>)
    ensures
        module.announced_all(changes).buffered_session_changes == module.buffered_session_changes
            + changes,
        module.announced_all(changes).has_initialized == module.has_initialized,
    decreases changes.len(),
{
    if changes.len() == 0 {
        assert(module.buffered_session_changes + changes =~= module.buffered_session_changes);
    } else {
        lemma_announcements_are_buffered(module, changes.drop_last());
        assert((module.buffered_session_changes + changes.drop_last()).push(changes.last())
            =~= module.buffered_session_changes + changes);
    }
}

/// A session change that is announced before the block is initialized is still buffered
/// once the block is initialized: initialization leaves the buffer as it is. Where
/// nothing else was buffered, the buffer then holds that one change.
pub proof fn lemma_announcement_survives_initialize(module: ModuleView, change: BufferedSessionChangeView)
    ensures
        module.announced(change).initialized().buffered_session_changes
            == module.buffered_session_changes.push(change),
        module.buffered_session_changes.len() == 0 ==> module.announced(
            change,
        ).initialized().buffered_session_changes == seq![change],
        module.announced(change).initialized().has_initialized,
{
    if module.buffered_session_changes.len() == 0 {
        assert(module.buffered_session_changes.push(change) =~= seq![change]);
    }
}

/// The flag is set from the initialization of a block to its finalization, and the
/// buffer is empty once the block is finalized: whatever the state before the block and
/// whatever is announced within it.
pub proof fn lemma_block_leaves_nothing_behind(module: ModuleView, changes: Seq<BufferedSessionChangeView>)
    ensures
        module.initialized().has_initialized,
        module.initialized().announced_all(changes).has_initialized,
        !module.initialized().announced_all(changes).finalized().has_initialized,
        module.initialized().announced_all(changes).finalized().buffered_session_changes.len() == 0,
        module.initialized().announced_all(changes).finalized() == ModuleView::empty(),
{
    lemma_announcements_are_buffered(module.initialized(), changes);
}

/// Finalizing a block in which nothing was announced finalizes the subsystems and does
/// nothing else: no subsystem is notified, and the buffer stays empty. Finalizing twice
/// leaves the initializer as finalizing once.
pub proof fn lemma_finalize_without_announcement<T: Config>(state: T::State, module: ModuleView)
    requires
        module.buffered_session_changes.len() == 0,
    ensures
        block_finalized::<T>(state, module.buffered_session_changes) == finalized_all::<T>(
            state,
            finalize_order(),
        ),
        module.finalized().buffered_session_changes.len() == 0,
        module.finalized().finalized() == module.finalized(),
{
}

/// Of several session changes announced before a block is finalized, the last one alone
/// is applied: the state after the block is that in which the subsystems were finalized
/// and then this one change was applied, as if no other had been announced. The one
/// notification that goes round holds the session index, the validators and the queued
/// validators of that change.
pub proof fn lemma_last_announcement_wins<T: Config>(
    state: T::State,
    module: ModuleView,
    changes: Seq<BufferedSessionChangeView>,
)
    requires
        changes.len() > 0,
    ensures
        block_finalized::<T>(state, module.announced_all(changes).buffered_session_changes)
            == new_session_applied::<T>(finalized_all::<T>(state, finalize_order()), changes.last()),
        block_finalized::<T>(state, module.announced_all(changes).buffered_session_changes)
            == block_finalized::<T>(state, seq![changes.last()]),
        session_change_notification::<T>(
            finalized_all::<T>(state, finalize_order()),
            changes.last(),
        ).session_index == changes.last().session_index,
        session_change_notification::<T>(
            finalized_all::<T>(state, finalize_order()),
            changes.last(),
        ).validators == changes.last().validators,
        session_change_notification::<T>(
            finalized_all::<T>(state, finalize_order()),
            changes.last(),
        ).queued == changes.last().queued,
{
    lemma_announcements_are_buffered(module, changes);
    assert((module.buffered_session_changes + changes).last() == changes.last());
    assert(seq![changes.last()].last() == changes.last());
}

/// The two configurations in a notification bracket the one call that tells the
/// configuration of the new session: the previous configuration is the one active just
/// before that call, the new configuration the one active just after it. Where that call
/// changes nothing, the two are the same.
pub proof fn lemma_notification_brackets_configuration<T: Config>(
    state: T::State,
    change: BufferedSessionChangeView,
)
    ensures
        session_change_notification::<T>(state, change).prev_config == T::active_config(state),
        session_change_notification::<T>(state, change).new_config == T::active_config(
            T::session_started(state, change.validators, change.queued),
        ),
        T::session_started(state, change.validators, change.queued) == state
            ==> session_change_notification::<T>(state, change).new_config
            == session_change_notification::<T>(state, change).prev_config,
{
}

/// Each entry of the weights is what one subsystem reported: the one at that position in
/// `order`, initialized in the state that those before it left behind.
pub proof fn lemma_initialize_weights_entry<T: Config>(
    state: T::State,
    order: Seq<Subsystem>,
    now: T::BlockNumber,
    i: int,
)
    requires
        0 <= i < order.len(),
    ensures
        initialize_weights::<T>(state, order, now).len() == order.len(),
        initialize_weights::<T>(state, order, now)[i] == T::initialize_weight(
            initialized_all::<T>(state, order.take(i), now),
            order[i],
            now,
        ),
{
    let upto = order.take(i + 1);
    assert(upto.drop_last() =~= order.take(i));
    assert(upto.last() == order[i]);
    lemma_initialize_weights_of_prefix::<T>(state, order.take(i), now, 0);
    lemma_initialize_weights_of_prefix::<T>(state, order, now, i + 1);
    assert(initialize_weights::<T>(state, upto, now)[i] == T::initialize_weight(
        initialized_all::<T>(state, order.take(i), now),
        order[i],
        now,
    ));
}

} // verus!
