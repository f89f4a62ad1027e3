//! A runtime for tests. Its subsystems do nothing but record the calls that they
//! receive, in one common log, so that the order of the calls can be read off.

use vstd::prelude::*;
use crate::initializer::{
    initialize_weights, initialized_all, lemma_initialize_weights_entry, Config,
    SessionChangeNotification, SessionChangeNotificationView,
};
use crate::primitives::{Id, ValidatorId, Weight};
use crate::subsystem::{initialize_order, lemma_initialize_order_is_complete, Subsystem, SUBSYSTEMS};
use crate::{ParaLifecycle, Runtime};

verus! {

/// The number of a block.
pub type BlockNumber = u32;

/// The chain-wide parameters of this runtime: there is one.
#[derive(Clone, Copy, Debug, PartialEq, Eq, Structural)]
pub struct HostConfiguration {
    pub parameter: u32,
}

impl Default for HostConfiguration {
    /// The configuration in which the parameter is zero.
    fn default() -> (config: HostConfiguration)
        ensures
            config == (HostConfiguration { parameter: 0 }),
    {
        HostConfiguration { parameter: 0 }
    }
}

/// A call that a subsystem received.
#[derive(Debug, PartialEq, Eq)]
pub enum Call {
    /// The initialize hook, with the block's number.
    Initialize(Subsystem, BlockNumber),
    /// The finalize hook.
    Finalize(Subsystem),
    /// The configuration's new-session hook, with the validators and those queued.
    ConfigurationNewSession(Vec<ValidatorId>, Vec<ValidatorId>),
    /// The new-session hook of another subsystem, with the notification.
    NewSession(Subsystem, SessionChangeNotification<HostConfiguration>),
    /// The registry was asked to bring up a para, with its genesis data.
    ScheduleParaInitialize(Id, Vec<u8>),
    /// A subsystem was asked to clear out a para.
    ScheduleParaCleanup(Subsystem, Id),
}

/// The value of a [`Call`].
pub enum CallView {
    Initialize(Subsystem, BlockNumber),
    Finalize(Subsystem),
    ConfigurationNewSession(Seq<ValidatorId>, Seq<ValidatorId>),
    NewSession(Subsystem, SessionChangeNotificationView<HostConfiguration>),
    ScheduleParaInitialize(Id, Seq<u8>),
    ScheduleParaCleanup(Subsystem, Id),
}

impl View for Call {
    type V = CallView;

    open spec fn view(&self) -> CallView {
        match *self {
            Call::Initialize(which, now) => CallView::Initialize(which, now),
            Call::Finalize(which) => CallView::Finalize(which),
            Call::ConfigurationNewSession(validators, queued) => CallView::ConfigurationNewSession(
                validators@,
                queued@,
            ),
            Call::NewSession(which, notification) => CallView::NewSession(which, notification@),
            Call::ScheduleParaInitialize(id, genesis) => CallView::ScheduleParaInitialize(id, genesis@),
            Call::ScheduleParaCleanup(which, id) => CallView::ScheduleParaCleanup(which, id),
        }
    }
}

/// The test runtime.
pub struct Test {
    /// The calls received so far, oldest first.
    calls: Vec<Call>,
    /// The weight that each subsystem reports when it is initialized, by position.
    weights: [Weight; 8],
    /// The active configuration.
    config: HostConfiguration,
    /// A configuration that becomes active with the next session, if any.
    pending_config: Option<HostConfiguration>,
    /// What the randomness beacon has to offer.
    entropy: Vec<u8>,
}

/// The value of a [`Test`].
pub struct TestView {
    pub calls: Seq<CallView>,
    pub weights: Seq<Weight>,
    pub config: HostConfiguration,
    pub pending_config: Option<HostConfiguration>,
    pub entropy: Seq<u8>,
}

impl TestView {
    /// The state with `call` added to the log.
    pub open spec fn logged(self, call: CallView) -> TestView {
        TestView { calls: self.calls.push(call), ..self }
    }

    /// Whether the state is one of a runtime: each subsystem has its weight.
    pub open spec fn wf(self) -> bool {
        self.weights.len() == SUBSYSTEMS
    }
}

impl Runtime for Test {
    type State = TestView;

    closed spec fn state(&self) -> TestView {
        TestView {
            calls: Seq::new(self.calls@.len(), |i: int| self.calls@[i]@),
            weights: self.weights@,
            config: self.config,
            pending_config: self.pending_config,
            entropy: self.entropy@,
        }
    }
}

impl Test {
    /// A runtime with an empty log, in which every subsystem reports the weight zero,
    /// the one parameter is zero, no configuration is pending and the randomness beacon
    /// has nothing to offer.
    pub fn new() -> (runtime: Test)
        ensures
            runtime.state().wf(),
            runtime.state().calls == Seq::<CallView>::empty(),
            runtime.state().weights == Seq::new(SUBSYSTEMS as nat, |i: int| 0u64),
            runtime.state().config == (HostConfiguration { parameter: 0 }),
            runtime.state().pending_config.is_none(),
            runtime.state().entropy == Seq::<u8>::empty(),
    {
        let runtime = Test {
            calls: Vec::new(),
            weights: [0; 8],
            config: HostConfiguration { parameter: 0 },
            pending_config: None,
            entropy: Vec::new(),
        };
        assert(runtime.state().calls =~= Seq::<CallView>::empty());
        assert(runtime.state().weights =~= Seq::new(SUBSYSTEMS as nat, |i: int| 0u64));
        runtime
    }

    /// Makes `which` report `weight` when it is initialized.
    pub fn set_weight(&mut self, which: Subsystem, weight: Weight)
        ensures
            final(self).state() == (TestView {
                weights: old(self).state().weights.update(which.position(), weight),
                ..old(self).state()
            }),
    {
        let i = which.index();
        self.weights[i] = weight;
        assert(self.state().calls =~= old(self).state().calls);
    }

    /// Makes `config` the configuration that becomes active with the next session.
    pub fn set_pending_config(&mut self, config: HostConfiguration)
        ensures
            final(self).state() == (TestView { pending_config: Some(config), ..old(self).state() }),
    {
        self.pending_config = Some(config);
        assert(self.state().calls =~= old(self).state().calls);
    }

    /// Makes `entropy` what the randomness beacon has to offer.
    pub fn set_entropy(&mut self, entropy: Vec<u8>)
        ensures
            final(self).state() == (TestView { entropy: entropy@, ..old(self).state() }),
    {
        self.entropy = entropy;
        assert(self.state().calls =~= old(self).state().calls);
    }

    /// The calls received so far, oldest first.
    pub fn calls(&self) -> (calls: &Vec<Call>)
        ensures
            calls@.len() == self.state().calls.len(),
            forall|i: int| 0 <= i < calls@.len() ==> calls@[i]@ == self.state().calls[i],
    {
        &self.calls
    }

    /// The state of a test runtime holds a weight for each subsystem.
    pub proof fn lemma_state_is_wf(&self)
        ensures
            self.state().wf(),
    {
    }

    /// Adds `call` to the log.
    fn log(&mut self, call: Call)
        ensures
            final(self).state() == old(self).state().logged(call@),
    {
        self.calls.push(call);
        assert(self.state().calls =~= old(self).state().calls.push(call@));
    }
}

impl Config for Test {
    type BlockNumber = BlockNumber;

    type HostConfiguration = HostConfiguration;

    open spec fn initialized(state: TestView, which: Subsystem, now: BlockNumber) -> TestView {
        state.logged(CallView::Initialize(which, now))
    }

    open spec fn initialize_weight(state: TestView, which: Subsystem, now: BlockNumber) -> Weight {
        state.weights[which.position()]
    }

    open spec fn finalized(state: TestView, which: Subsystem) -> TestView {
        state.logged(CallView::Finalize(which))
    }

    open spec fn active_config(state: TestView) -> HostConfiguration {
        state.config
    }

    open spec fn session_started(
        state: TestView,
        validators: Seq<ValidatorId>,
        queued: Seq<ValidatorId>,
    ) -> TestView {
        TestView {
            config: match state.pending_config {
                Some(config) => config,
                None => state.config,
            },
            pending_config: None,
            ..state.logged(CallView::ConfigurationNewSession(validators, queued))
        }
    }

    open spec fn notified(
        state: TestView,
        which: Subsystem,
        notification: SessionChangeNotificationView<HostConfiguration>,
    ) -> TestView {
        state.logged(CallView::NewSession(which, notification))
    }

    open spec fn randomness(state: TestView, subject: Seq<u8>) -> Seq<u8> {
        subject + state.entropy
    }

    fn initializer_initialize(&mut self, which: Subsystem, now: BlockNumber) -> (weight: Weight) {
        let weight = self.weights[which.index()];
        self.log(Call::Initialize(which, now));
        weight
    }

    fn initializer_finalize(&mut self, which: Subsystem) {
        self.log(Call::Finalize(which));
    }

    fn config(&self) -> (config: HostConfiguration) {
        self.config
    }

    fn configuration_on_new_session(&mut self, validators: &Vec<ValidatorId>, queued: &Vec<ValidatorId>) {
        match self.pending_config {
            Some(config) => {
                self.config = config;
                self.pending_config = None;
            },
            None => {},
        }
        self.log(Call::ConfigurationNewSession(copy_of(validators), copy_of(queued)));
    }

    fn initializer_on_new_session(
        &mut self,
        which: Subsystem,
        notification: &SessionChangeNotification<HostConfiguration>,
    ) {
        let copy = SessionChangeNotification {
            validators: copy_of(&notification.validators),
            queued: copy_of(&notification.queued),
            prev_config: notification.prev_config,
            new_config: notification.new_config,
            random_seed: notification.random_seed,
            session_index: notification.session_index,
        };
        self.log(Call::NewSession(which, copy));
    }

    fn random(&self, subject: &[u8]) -> (bytes: Vec<u8>) {
        let mut bytes: Vec<u8> = Vec::new();
        let mut i: usize = 0;
        while i < subject.len()
            invariant
                0 <= i <= subject@.len(),
                bytes@ == subject@.take(i as int),
            decreases subject@.len() - i,
        {
            bytes.push(subject[i]);
            assert(bytes@ =~= subject@.take(i + 1));
            i = i + 1;
        }
        let mut j: usize = 0;
        while j < self.entropy.len()
            invariant
                0 <= j <= self.entropy@.len(),
                bytes@ == subject@ + self.entropy@.take(j as int),
            decreases self.entropy@.len() - j,
        {
            bytes.push(self.entropy[j]);
            assert(bytes@ =~= subject@ + self.entropy@.take(j + 1));
            j = j + 1;
        }
        assert(self.entropy@.take(j as int) =~= self.entropy@);
        bytes
    }
}

impl ParaLifecycle for Test {
    type ParaGenesisArgs = Vec<u8>;

    open spec fn initialize_scheduled(state: TestView, id: Id, genesis: Vec<u8>) -> TestView {
        state.logged(CallView::ScheduleParaInitialize(id, genesis@))
    }

    open spec fn cleanup_scheduled(state: TestView, which: Subsystem, id: Id) -> TestView {
        state.logged(CallView::ScheduleParaCleanup(which, id))
    }

    fn schedule_para_initialize(&mut self, id: Id, genesis: Vec<u8>) {
        self.log(Call::ScheduleParaInitialize(id, genesis));
    }

    fn schedule_para_cleanup(&mut self, which: Subsystem, id: Id) {
        self.log(Call::ScheduleParaCleanup(which, id));
    }
}

/// Whatever was initialized before, a subsystem of the test runtime reports the weight
/// that was set for it: initialization adds to the log and leaves the weights alone.
pub proof fn lemma_weights_are_as_set(state: TestView, now: BlockNumber)
    requires
        state.wf(),
    ensures
        initialize_weights::<Test>(state, initialize_order(), now) == state.weights,
{
    assert forall|i: int| 0 <= i < SUBSYSTEMS implies #[trigger] initialize_weights::<Test>(
        state,
        initialize_order(),
        now,
    )[i] == state.weights[i] by {
        lemma_initialize_weights_entry::<Test>(state, initialize_order(), now, i);
        lemma_initialized_keeps_weights(state, initialize_order().take(i), now);
        lemma_initialize_order_is_complete(initialize_order()[i]);
    }
    lemma_initialize_weights_entry::<Test>(state, initialize_order(), now, 0);
    assert(initialize_weights::<Test>(state, initialize_order(), now) =~= state.weights);
}

/// Initialization leaves the weights of the test runtime alone.
proof fn lemma_initialized_keeps_weights(state: TestView, order: Seq<Subsystem>, now: BlockNumber)
    ensures
        initialized_all::<Test>(state, order, now).weights == state.weights,
    decreases order.len(),
{
    if order.len() > 0 {
        lemma_initialized_keeps_weights(state, order.drop_last(), now);
    }
}

/// A list with the same identities as `ids`.
fn copy_of(ids: &Vec<ValidatorId>) -> (copy: Vec<ValidatorId>)
    ensures
        copy@ == ids@,
{
    let mut copy: Vec<ValidatorId> = Vec::new();
    let mut i: usize = 0;
    while i < ids.len()
        invariant
            0 <= i <= ids@.len(),
            copy@ == ids@.take(i as int),
        decreases ids@.len() - i,
    {
        copy.push(ids[i]);
        assert(copy@ =~= ids@.take(i + 1));
        i = i + 1;
    }
    assert(ids@.take(i as int) =~= ids@);
    copy
}

} // verus!
