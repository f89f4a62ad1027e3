use runtime_parachains::initializer::{
    identities_of, random_seed, BufferedSessionChange, Config, Module as Initializer,
    SessionChangeNotification,
};
use runtime_parachains::mock::{BlockNumber, Call, HostConfiguration, Test};
use runtime_parachains::primitives::{ValidatorId, Weight};
use runtime_parachains::subsystem::Subsystem;

fn validator(byte: u8) -> ValidatorId {
    ValidatorId([byte; 32])
}

fn no_validators() -> Vec<(u64, ValidatorId)> {
    Vec::new()
}

const INITIALIZE_ORDER: [Subsystem; 8] = [
    Subsystem::Configuration,
    Subsystem::Paras,
    Subsystem::Scheduler,
    Subsystem::Inclusion,
    Subsystem::SessionInfo,
    Subsystem::Dmp,
    Subsystem::Ump,
    Subsystem::Hrmp,
];

const NOTIFY_ORDER: [Subsystem; 7] = [
    Subsystem::Paras,
    Subsystem::Scheduler,
    Subsystem::Inclusion,
    Subsystem::SessionInfo,
    Subsystem::Dmp,
    Subsystem::Ump,
    Subsystem::Hrmp,
];

fn notifications(runtime: &Test) -> Vec<(Subsystem, SessionChangeNotification<HostConfiguration>)> {
    let mut found = Vec::new();
    for call in runtime.calls() {
        if let Call::NewSession(which, notification) = call {
            found.push((*which, notification.clone()));
        }
    }
    found
}

#[test]
fn session_change_before_initialize_is_still_buffered_after() {
    let mut runtime = Test::new();
    let mut initializer = Initializer::new();

    initializer.on_new_session(false, 1, no_validators(), Some(no_validators()));

    let now: BlockNumber = Default::default();
    initializer.on_initialize(&mut runtime, now);

    let v = initializer.buffered_session_changes();
    assert_eq!(v.len(), 1);
}

#[test]
fn session_change_applied_on_finalize() {
    let mut runtime = Test::new();
    let mut initializer = Initializer::new();

    initializer.on_initialize(&mut runtime, 1);
    initializer.on_new_session(false, 1, no_validators(), Some(no_validators()));

    initializer.on_finalize(&mut runtime);

    assert!(initializer.buffered_session_changes().is_empty());
}

#[test]
fn sets_flag_on_initialize() {
    let mut runtime = Test::new();
    let mut initializer = Initializer::new();

    initializer.on_initialize(&mut runtime, 1);

    assert!(initializer.has_initialized().is_some());
}

#[test]
fn clears_flag_on_finalize() {
    let mut runtime = Test::new();
    let mut initializer = Initializer::new();

    initializer.on_initialize(&mut runtime, 1);
    initializer.on_finalize(&mut runtime);

    assert!(initializer.has_initialized().is_none());
}

#[test]
fn new_initializer_is_empty_and_not_initialized() {
    let initializer = Initializer::new();
    assert!(initializer.has_initialized().is_none());
    assert!(initializer.buffered_session_changes().is_empty());
}

#[test]
fn flag_is_set_and_cleared_at_any_block_number() {
    for now in [0, 1, 2, 1000, BlockNumber::MAX] {
        let mut runtime = Test::new();
        let mut initializer = Initializer::new();
        initializer.on_initialize(&mut runtime, now);
        assert_eq!(initializer.has_initialized(), Some(()));
        initializer.on_finalize(&mut runtime);
        assert_eq!(initializer.has_initialized(), None);
    }
}

#[test]
fn announcement_leaves_the_flag_alone() {
    let mut runtime = Test::new();
    let mut initializer = Initializer::new();
    initializer.on_new_session(true, 4, no_validators(), None);
    assert!(initializer.has_initialized().is_none());
    initializer.on_initialize(&mut runtime, 9);
    initializer.on_new_session(true, 5, no_validators(), None);
    assert!(initializer.has_initialized().is_some());
}

#[test]
fn initialize_runs_the_hooks_in_order() {
    let mut runtime = Test::new();
    let mut initializer = Initializer::new();
    initializer.on_initialize(&mut runtime, 17);
    let expected: Vec<Call> = INITIALIZE_ORDER.iter().map(|which| Call::Initialize(*which, 17)).collect();
    assert_eq!(runtime.calls(), &expected);
}

#[test]
fn finalize_runs_the_hooks_in_reverse_order() {
    let mut runtime = Test::new();
    let mut initializer = Initializer::new();
    initializer.on_finalize(&mut runtime);
    let expected: Vec<Call> = INITIALIZE_ORDER.iter().rev().map(|which| Call::Finalize(*which)).collect();
    assert_eq!(runtime.calls(), &expected);
    assert_eq!(runtime.calls()[0], Call::Finalize(Subsystem::Hrmp));
    assert_eq!(runtime.calls()[7], Call::Finalize(Subsystem::Configuration));
}

#[test]
fn initialize_returns_the_sum_of_the_weights() {
    let mut runtime = Test::new();
    let weights: [Weight; 8] = [1, 20, 300, 4_000, 50_000, 600_000, 7_000_000, 80_000_000];
    for (which, weight) in INITIALIZE_ORDER.iter().zip(weights) {
        runtime.set_weight(*which, weight);
    }
    let mut initializer = Initializer::new();
    assert_eq!(initializer.on_initialize(&mut runtime, 1), 87_654_321);
}

#[test]
fn initialize_returns_zero_where_no_hook_reports_a_weight() {
    let mut runtime = Test::new();
    let mut initializer = Initializer::new();
    assert_eq!(initializer.on_initialize(&mut runtime, 1), 0);
}

#[test]
fn sum_of_the_weights_does_not_depend_on_which_subsystem_reports_which() {
    let weights: [Weight; 8] = [3, 1, 4, 1, 5, 9, 2, 6];
    let mut forward = Test::new();
    let mut backward = Test::new();
    for (i, which) in INITIALIZE_ORDER.iter().enumerate() {
        forward.set_weight(*which, weights[i]);
        backward.set_weight(*which, weights[7 - i]);
    }
    let total_forward = Initializer::new().on_initialize(&mut forward, 1);
    let total_backward = Initializer::new().on_initialize(&mut backward, 1);
    assert_eq!(total_forward, 31);
    assert_eq!(total_backward, 31);
}

#[test]
fn sum_of_the_weights_is_exact_up_to_the_largest_weight() {
    let mut runtime = Test::new();
    runtime.set_weight(Subsystem::Inclusion, Weight::MAX - 7);
    for which in [
        Subsystem::Configuration,
        Subsystem::Paras,
        Subsystem::Scheduler,
        Subsystem::SessionInfo,
        Subsystem::Dmp,
        Subsystem::Ump,
        Subsystem::Hrmp,
    ] {
        runtime.set_weight(which, 1);
    }
    let mut initializer = Initializer::new();
    assert_eq!(initializer.on_initialize(&mut runtime, 1), Weight::MAX);
}

#[test]
fn announcement_keeps_the_identities_and_drops_the_accounts() {
    let mut initializer = Initializer::new();
    initializer.on_new_session(
        false,
        3,
        vec![(10u64, validator(1)), (11u64, validator(2))],
        Some(vec![(12u64, validator(3))]),
    );
    let expected = vec![BufferedSessionChange {
        validators: vec![validator(1), validator(2)],
        queued: vec![validator(3)],
        session_index: 3,
    }];
    assert_eq!(initializer.buffered_session_changes(), &expected);
}

#[test]
fn announcement_without_queued_takes_the_validators_as_queued() {
    let mut initializer = Initializer::new();
    initializer.on_new_session(true, 8, vec![("a", validator(5)), ("b", validator(6))], None);
    let buffered = initializer.buffered_session_changes();
    assert_eq!(buffered.len(), 1);
    assert_eq!(buffered[0].validators, vec![validator(5), validator(6)]);
    assert_eq!(buffered[0].queued, vec![validator(5), validator(6)]);
    assert_eq!(buffered[0].session_index, 8);
}

#[test]
fn announcements_are_buffered_in_their_order() {
    let mut initializer = Initializer::new();
    initializer.on_new_session(false, 1, vec![((), validator(1))], None);
    initializer.on_new_session(false, 2, vec![((), validator(2))], None);
    initializer.on_new_session(false, 3, vec![((), validator(3))], None);
    let indices: Vec<u32> = initializer.buffered_session_changes().iter().map(|c| c.session_index).collect();
    assert_eq!(indices, vec![1, 2, 3]);
}

#[test]
fn announcement_touches_no_subsystem() {
    let runtime = Test::new();
    let mut initializer = Initializer::new();
    initializer.on_new_session(false, 1, no_validators(), None);
    assert!(runtime.calls().is_empty());
}

#[test]
fn identities_of_keeps_the_order() {
    let pairs = vec![(1u8, validator(9)), (2u8, validator(8)), (3u8, validator(9))];
    assert_eq!(identities_of(&pairs), vec![validator(9), validator(8), validator(9)]);
    let none: Vec<(u8, ValidatorId)> = Vec::new();
    assert_eq!(identities_of(&none), Vec::new());
}

#[test]
fn finalize_with_an_empty_buffer_notifies_nobody() {
    let mut runtime = Test::new();
    let mut initializer = Initializer::new();
    initializer.on_initialize(&mut runtime, 1);
    initializer.on_finalize(&mut runtime);
    assert!(initializer.buffered_session_changes().is_empty());
    assert_eq!(runtime.calls().len(), 16);
    assert!(notifications(&runtime).is_empty());
    assert!(!runtime.calls().iter().any(|call| matches!(call, Call::ConfigurationNewSession(_, _))));
}

#[test]
fn finalize_twice_leaves_the_buffer_empty() {
    let mut runtime = Test::new();
    let mut initializer = Initializer::new();
    initializer.on_finalize(&mut runtime);
    initializer.on_finalize(&mut runtime);
    assert!(initializer.buffered_session_changes().is_empty());
    assert!(initializer.has_initialized().is_none());
    assert!(notifications(&runtime).is_empty());
}

#[test]
fn buffer_is_empty_after_finalize_whatever_was_announced() {
    for announcements in 0..5u32 {
        let mut runtime = Test::new();
        let mut initializer = Initializer::new();
        initializer.on_initialize(&mut runtime, 1);
        for session in 0..announcements {
            initializer.on_new_session(false, session, no_validators(), Some(no_validators()));
        }
        assert_eq!(initializer.buffered_session_changes().len(), announcements as usize);
        initializer.on_finalize(&mut runtime);
        assert!(initializer.buffered_session_changes().is_empty());
    }
}

#[test]
fn last_announcement_is_the_one_applied() {
    let mut runtime = Test::new();
    let mut initializer = Initializer::new();
    initializer.on_initialize(&mut runtime, 1);
    initializer.on_new_session(false, 1, vec![(0u8, validator(1))], Some(vec![(0u8, validator(2))]));
    initializer.on_new_session(false, 2, vec![(0u8, validator(3))], Some(vec![(0u8, validator(4))]));
    initializer.on_finalize(&mut runtime);

    let told: Vec<&Call> =
        runtime.calls().iter().filter(|call| matches!(call, Call::ConfigurationNewSession(_, _))).collect();
    assert_eq!(told, vec![&Call::ConfigurationNewSession(vec![validator(3)], vec![validator(4)])]);

    let notified = notifications(&runtime);
    assert_eq!(notified.len(), 7);
    for (i, (which, notification)) in notified.iter().enumerate() {
        assert_eq!(*which, NOTIFY_ORDER[i]);
        assert_eq!(notification.session_index, 2);
        assert_eq!(notification.validators, vec![validator(3)]);
        assert_eq!(notification.queued, vec![validator(4)]);
        assert_eq!(notification, &notified[0].1);
    }
}

#[test]
fn session_change_is_applied_after_the_finalize_hooks() {
    let mut runtime = Test::new();
    let mut initializer = Initializer::new();
    initializer.on_new_session(false, 6, vec![(0u8, validator(7))], None);
    initializer.on_finalize(&mut runtime);

    let calls = runtime.calls();
    assert_eq!(calls.len(), 16);
    for (i, which) in INITIALIZE_ORDER.iter().rev().enumerate() {
        assert_eq!(calls[i], Call::Finalize(*which));
    }
    assert_eq!(calls[8], Call::ConfigurationNewSession(vec![validator(7)], vec![validator(7)]));
    for (i, which) in NOTIFY_ORDER.iter().enumerate() {
        assert!(matches!(&calls[9 + i], Call::NewSession(w, _) if w == which));
    }
}

#[test]
fn announcement_made_before_initialize_is_applied_by_that_block() {
    let mut runtime = Test::new();
    let mut initializer = Initializer::new();
    initializer.on_new_session(false, 11, vec![(0u8, validator(1))], None);
    initializer.on_initialize(&mut runtime, 5);
    assert_eq!(initializer.buffered_session_changes().len(), 1);
    initializer.on_finalize(&mut runtime);
    let notified = notifications(&runtime);
    assert_eq!(notified.len(), 7);
    assert_eq!(notified[0].1.session_index, 11);
    assert!(initializer.buffered_session_changes().is_empty());
}

/// One block in which the session change `session_index` is announced.
fn block_with_session_change(
    initializer: &mut Initializer,
    runtime: &mut Test,
    now: BlockNumber,
    session_index: u32,
    validators: Vec<ValidatorId>,
    queued: Vec<ValidatorId>,
) {
    initializer.on_initialize(runtime, now);
    initializer.on_new_session(
        true,
        session_index,
        validators.into_iter().map(|v| ((), v)).collect(),
        Some(queued.into_iter().map(|v| ((), v)).collect()),
    );
    initializer.on_finalize(runtime);
}

#[test]
fn notification_holds_the_configuration_before_and_after() {
    let mut runtime = Test::new();
    let mut initializer = Initializer::new();
    runtime.set_pending_config(HostConfiguration { parameter: 42 });
    assert_eq!(runtime.config(), HostConfiguration { parameter: 0 });

    block_with_session_change(&mut initializer, &mut runtime, 1, 1, vec![validator(1)], vec![validator(2)]);

    assert_eq!(runtime.config(), HostConfiguration { parameter: 42 });
    let notified = notifications(&runtime);
    assert_eq!(notified.len(), 7);
    for (_, notification) in &notified {
        assert_eq!(notification.prev_config, HostConfiguration { parameter: 0 });
        assert_eq!(notification.new_config, HostConfiguration { parameter: 42 });
    }
}

#[test]
fn notification_holds_one_configuration_twice_where_none_was_pending() {
    let mut runtime = Test::new();
    let mut initializer = Initializer::new();
    runtime.set_pending_config(HostConfiguration { parameter: 5 });
    block_with_session_change(&mut initializer, &mut runtime, 1, 1, Vec::new(), Vec::new());
    block_with_session_change(&mut initializer, &mut runtime, 2, 2, Vec::new(), Vec::new());
    let notified = notifications(&runtime);
    assert_eq!(notified.len(), 14);
    assert_eq!(notified[0].1.prev_config, HostConfiguration { parameter: 0 });
    assert_eq!(notified[0].1.new_config, HostConfiguration { parameter: 5 });
    assert_eq!(notified[7].1.prev_config, HostConfiguration { parameter: 5 });
    assert_eq!(notified[7].1.new_config, HostConfiguration { parameter: 5 });
}

#[test]
fn configuration_is_read_when_the_change_is_applied_not_when_it_is_announced() {
    let mut runtime = Test::new();
    let mut initializer = Initializer::new();
    runtime.set_pending_config(HostConfiguration { parameter: 7 });
    block_with_session_change(&mut initializer, &mut runtime, 1, 1, Vec::new(), Vec::new());
    assert_eq!(runtime.config(), HostConfiguration { parameter: 7 });

    initializer.on_initialize(&mut runtime, 2);
    initializer.on_new_session(false, 2, no_validators(), None);
    // The configuration that the next session brings is decided after the announcement.
    runtime.set_pending_config(HostConfiguration { parameter: 8 });
    initializer.on_finalize(&mut runtime);

    let notified = notifications(&runtime);
    assert_eq!(notified.len(), 14);
    assert_eq!(notified[13].1.session_index, 2);
    assert_eq!(notified[13].1.prev_config, HostConfiguration { parameter: 7 });
    assert_eq!(notified[13].1.new_config, HostConfiguration { parameter: 8 });
}

#[test]
fn session_change_tells_the_configuration_first() {
    let mut runtime = Test::new();
    let mut initializer = Initializer::new();
    initializer.on_new_session(
        false,
        3,
        vec![("a", validator(1))],
        Some(vec![("b", validator(2)), ("c", validator(3))]),
    );
    initializer.on_finalize(&mut runtime);
    let calls = &runtime.calls()[8..];
    assert_eq!(calls.len(), 8);
    assert_eq!(calls[0], Call::ConfigurationNewSession(vec![validator(1)], vec![validator(2), validator(3)]));
    let mut seed = [0u8; 32];
    seed[..5].copy_from_slice(b"paras");
    for (i, which) in NOTIFY_ORDER.iter().enumerate() {
        assert_eq!(
            calls[1 + i],
            Call::NewSession(
                *which,
                SessionChangeNotification {
                    validators: vec![validator(1)],
                    queued: vec![validator(2), validator(3)],
                    prev_config: HostConfiguration { parameter: 0 },
                    new_config: HostConfiguration { parameter: 0 },
                    random_seed: seed,
                    session_index: 3,
                },
            )
        );
    }
}

#[test]
fn seed_is_asked_for_paras_and_padded_with_zeros() {
    let mut runtime = Test::new();
    let mut initializer = Initializer::new();
    runtime.set_entropy(vec![0xaa, 0xbb, 0xcc]);
    assert_eq!(runtime.random(b"paras"), b"paras\xaa\xbb\xcc".to_vec());
    block_with_session_change(&mut initializer, &mut runtime, 1, 1, Vec::new(), Vec::new());
    let mut expected = [0u8; 32];
    expected[..8].copy_from_slice(b"paras\xaa\xbb\xcc");
    assert_eq!(notifications(&runtime)[0].1.random_seed, expected);
}

#[test]
fn seed_is_cut_to_32_bytes() {
    let mut runtime = Test::new();
    let mut initializer = Initializer::new();
    runtime.set_entropy((0u8..40).collect());
    block_with_session_change(&mut initializer, &mut runtime, 1, 1, Vec::new(), Vec::new());
    let mut expected = [0u8; 32];
    expected[..5].copy_from_slice(b"paras");
    for i in 0..27 {
        expected[5 + i] = i as u8;
    }
    assert_eq!(notifications(&runtime)[0].1.random_seed, expected);
}

#[test]
fn initializer_can_be_put_away_between_calls() {
    let mut runtime = Test::new();
    let mut initializer = Initializer::new();
    initializer.on_initialize(&mut runtime, 1);
    initializer.on_new_session(false, 9, vec![((), validator(4))], None);
    let (flag, buffered) = initializer.into_parts();
    assert_eq!(flag, Some(()));
    assert_eq!(
        buffered,
        vec![BufferedSessionChange { validators: vec![validator(4)], queued: vec![validator(4)], session_index: 9 }]
    );

    let mut initializer = Initializer::from_parts(flag, buffered);
    assert!(initializer.has_initialized().is_some());
    assert_eq!(initializer.buffered_session_changes().len(), 1);
    initializer.on_finalize(&mut runtime);
    assert_eq!(notifications(&runtime)[0].1.session_index, 9);
    assert_eq!(initializer.into_parts(), (None, Vec::new()));
}

#[test]
fn random_seed_of_nothing_is_all_zeros() {
    assert_eq!(random_seed(&[]), [0u8; 32]);
}

#[test]
fn random_seed_of_a_short_value_is_padded_on_the_right() {
    let mut expected = [0u8; 32];
    expected[0] = 1;
    expected[1] = 2;
    expected[2] = 3;
    assert_eq!(random_seed(&[1, 2, 3]), expected);
}

#[test]
fn random_seed_of_32_bytes_is_those_bytes() {
    let bytes: Vec<u8> = (100u8..132).collect();
    assert_eq!(random_seed(&bytes).to_vec(), bytes);
}

#[test]
fn random_seed_of_a_long_value_is_its_first_32_bytes() {
    let bytes: Vec<u8> = (0u8..200).collect();
    assert_eq!(random_seed(&bytes).to_vec(), bytes[..32].to_vec());
    let bytes: Vec<u8> = (0u8..33).collect();
    assert_eq!(random_seed(&bytes).to_vec(), bytes[..32].to_vec());
}

#[test]
fn default_notification_is_empty() {
    let notification = SessionChangeNotification::<HostConfiguration>::default();
    assert!(notification.validators.is_empty());
    assert!(notification.queued.is_empty());
    assert_eq!(notification.prev_config, HostConfiguration { parameter: 0 });
    assert_eq!(notification.new_config, HostConfiguration { parameter: 0 });
    assert_eq!(notification.random_seed, [0u8; 32]);
    assert_eq!(notification.session_index, 0);
}

#[test]
fn two_blocks_in_a_row() {
    let mut runtime = Test::new();
    let mut initializer = Initializer::new();
    initializer.on_initialize(&mut runtime, 1);
    initializer.on_new_session(false, 1, vec![(0u8, validator(1))], None);
    initializer.on_finalize(&mut runtime);
    initializer.on_initialize(&mut runtime, 2);
    initializer.on_finalize(&mut runtime);
    // Two blocks of 16 hooks each, and one session change of 8 calls in the first.
    assert_eq!(runtime.calls().len(), 40);
    assert_eq!(notifications(&runtime).len(), 7);
    assert_eq!(runtime.calls()[24], Call::Initialize(Subsystem::Configuration, 2));
}
