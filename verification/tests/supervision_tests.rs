//! The supervisor's decisions: exit classification, role resolution, and
//! whole supervision scenarios across a restart boundary.

use llmp_restarting::classify::{classify_exit, exit_action};
use llmp_restarting::role::resolve_role;
use llmp_restarting::{
    ClientDescription, EndpointDescription, EventEndpoint, ExitAction, ExitClass,
    LlmpRestartingEventManager, ManagerKind, ResolvedRole, RestartingMgr, SaveStatePolicy,
    StateRestorer, SupervisionError, CTRL_C_EXIT, KILL_SIGNAL_EXIT,
};

fn supervisor(policy: SaveStatePolicy, capacity: usize) -> RestartingMgr {
    RestartingMgr::new(ManagerKind::Any, 1337, None, None, policy, 5, capacity)
}

#[test]
fn classification_follows_decision_table() {
    let lazy = SaveStatePolicy::OnRestart;
    assert_eq!(classify_exit(CTRL_C_EXIT, true, false, lazy), ExitClass::UserInterrupt);
    assert_eq!(classify_exit(0, false, true, lazy), ExitClass::NormalExit);
    assert_eq!(classify_exit(1, true, false, lazy), ExitClass::CrashWithCheckpoint);
    assert_eq!(classify_exit(0, true, false, lazy), ExitClass::CrashWithCheckpoint);
    assert_eq!(
        classify_exit(1, false, false, SaveStatePolicy::OomSafe),
        ExitClass::CrashWithoutCheckpoint
    );
    assert_eq!(classify_exit(KILL_SIGNAL_EXIT, false, false, lazy), ExitClass::ForcedKill);
    assert_eq!(classify_exit(1, false, false, lazy), ExitClass::CrashWithoutCheckpoint);
    assert_eq!(
        classify_exit(1, false, false, SaveStatePolicy::Never),
        ExitClass::CrashWithoutCheckpoint
    );
}

#[test]
fn actions_follow_classification() {
    let lazy = SaveStatePolicy::OnRestart;
    assert_eq!(exit_action(ExitClass::UserInterrupt, lazy), ExitAction::Terminate);
    assert_eq!(exit_action(ExitClass::NormalExit, lazy), ExitAction::Terminate);
    assert_eq!(exit_action(ExitClass::CrashWithCheckpoint, lazy), ExitAction::Relaunch);
    assert_eq!(
        exit_action(ExitClass::CrashWithoutCheckpoint, SaveStatePolicy::OomSafe),
        ExitAction::Relaunch
    );
    assert_eq!(exit_action(ExitClass::CrashWithoutCheckpoint, lazy), ExitAction::Fail);
    assert_eq!(exit_action(ExitClass::ForcedKill, lazy), ExitAction::Fail);
}

#[test]
fn classification_is_deterministic() {
    for code in [0, 1, KILL_SIGNAL_EXIT, CTRL_C_EXIT] {
        for has_content in [false, true] {
            for wants_exit in [false, true] {
                for policy in [
                    SaveStatePolicy::Never,
                    SaveStatePolicy::OnRestart,
                    SaveStatePolicy::OomSafe,
                ] {
                    let first = classify_exit(code, has_content, wants_exit, policy);
                    let second = classify_exit(code, has_content, wants_exit, policy);
                    assert_eq!(first, second);
                    assert_eq!(exit_action(first, policy), exit_action(second, policy));
                }
            }
        }
    }
}

#[test]
fn role_resolution_covers_each_kind() {
    assert_eq!(resolve_role(&ManagerKind::Any, true), Ok(ResolvedRole::Broker));
    assert_eq!(
        resolve_role(&ManagerKind::Any, false),
        Ok(ResolvedRole::Client { core_affinity: None })
    );
    assert_eq!(resolve_role(&ManagerKind::Broker, true), Ok(ResolvedRole::Broker));
    assert_eq!(
        resolve_role(&ManagerKind::Broker, false),
        Err(SupervisionError::BrokerPortUnavailable)
    );
    let pinned = ManagerKind::Client {
        client_description: ClientDescription { id: 0, overcommit_id: 0, core_id: 3 },
    };
    assert_eq!(
        resolve_role(&pinned, false),
        Ok(ResolvedRole::Client { core_affinity: Some(3) })
    );
    assert_eq!(
        resolve_role(&pinned, true),
        Ok(ResolvedRole::Client { core_affinity: Some(3) })
    );
}

#[test]
fn scenario_checkpoint_survives_restart() {
    // Instance A publishes (state "gen-1", descriptor D1) and terminates
    // with a non-crash exit code; instance B restores exactly that payload
    // and reconnects from D1.
    let supervisor = supervisor(SaveStatePolicy::OnRestart, 4096);
    let (channel, inherited) = supervisor.attach_channel(None).unwrap();
    assert!(!inherited);

    let initial = EventEndpoint::new(42).describe();
    let (state_a, mut mgr_a) = supervisor.recover(channel, &initial).unwrap();
    assert!(state_a.is_none());

    mgr_a.on_restart(&b"gen-1".to_vec()).unwrap();
    let d1 = mgr_a.endpoint().describe();

    let (class, action) = supervisor.classify_child_exit(0, mgr_a.staterestorer());
    assert_eq!(class, ExitClass::CrashWithCheckpoint);
    assert_eq!(action, ExitAction::Relaunch);

    // Instance B finds the channel through the environment handshake.
    let exported = mgr_a.staterestorer().to_env_description();
    let (channel_b, inherited_b) = supervisor.attach_channel(Some(&exported)).unwrap();
    assert!(inherited_b);

    let (state_b, mgr_b) = supervisor.recover(channel_b, &initial).unwrap();
    assert_eq!(state_b.unwrap(), b"gen-1".to_vec());
    assert_eq!(mgr_b.endpoint().client_id, d1.client_id);
    assert_eq!(mgr_b.endpoint().events_forwarded, d1.resume_offset);
    // The channel was reset for B's own lifetime: stale payloads can never
    // be misread as fresh.
    assert!(!mgr_b.staterestorer().has_content());
}

#[test]
fn scenario_interrupt_stops_despite_checkpoint() {
    // Instance A leaves a payload behind but exits through the reserved
    // interrupt code: the supervisor detaches and stops; no instance is
    // launched even though content exists.
    let supervisor = supervisor(SaveStatePolicy::OnRestart, 4096);
    let (channel, _) = supervisor.attach_channel(None).unwrap();
    let initial = EndpointDescription { client_id: 7, resume_offset: 0 };
    let (_, mut mgr_a) = supervisor.recover(channel, &initial).unwrap();
    mgr_a.on_restart(&vec![1]).unwrap();
    assert!(mgr_a.staterestorer().has_content());

    let (class, action) = supervisor.classify_child_exit(CTRL_C_EXIT, mgr_a.staterestorer());
    assert_eq!(class, ExitClass::UserInterrupt);
    assert_eq!(action, ExitAction::Terminate);
}

#[test]
fn scenario_empty_channel_is_fatal_without_eager_saving() {
    // Instance A terminates abnormally with the channel empty under the
    // restart-only policy: the supervisor fails fatally rather than loop.
    let supervisor = supervisor(SaveStatePolicy::OnRestart, 4096);
    let (channel, _) = supervisor.attach_channel(None).unwrap();

    let (class, action) = supervisor.classify_child_exit(1, &channel);
    assert_eq!(class, ExitClass::CrashWithoutCheckpoint);
    assert_eq!(action, ExitAction::Fail);

    // A kill signal is reported apart, so the diagnostic can point at an
    // out-of-memory reaper rather than a checkpoint-bypassing exit.
    let (class, action) = supervisor.classify_child_exit(KILL_SIGNAL_EXIT, &channel);
    assert_eq!(class, ExitClass::ForcedKill);
    assert_eq!(action, ExitAction::Fail);
}

#[test]
fn scenario_stop_request_terminates_cleanly() {
    let supervisor = supervisor(SaveStatePolicy::OnRestart, 4096);
    let (channel, _) = supervisor.attach_channel(None).unwrap();
    let initial = EndpointDescription { client_id: 1, resume_offset: 0 };
    let (_, mut mgr) = supervisor.recover(channel, &initial).unwrap();
    mgr.send_exiting();

    let (class, action) = supervisor.classify_child_exit(0, mgr.staterestorer());
    assert_eq!(class, ExitClass::NormalExit);
    assert_eq!(action, ExitAction::Terminate);
}

#[test]
fn recover_under_eager_policy_republishes_descriptor() {
    let supervisor = supervisor(SaveStatePolicy::OomSafe, 4096);
    let (channel, _) = supervisor.attach_channel(None).unwrap();
    let initial = EndpointDescription { client_id: 9, resume_offset: 4 };
    let (state, mgr) = supervisor.recover(channel, &initial).unwrap();
    assert!(state.is_none());
    // The freshly recovered manager immediately keeps a descriptor in the
    // channel, so even an instant kill leaves something to resume from.
    let p = mgr.staterestorer().restore().unwrap();
    assert!(p.state.is_none());
    assert_eq!(p.descriptor, initial);
}

#[test]
fn recover_fails_when_slot_cannot_hold_descriptor() {
    let supervisor = supervisor(SaveStatePolicy::OomSafe, 10);
    let (channel, _) = supervisor.attach_channel(None).unwrap();
    let initial = EndpointDescription { client_id: 9, resume_offset: 4 };
    let r = supervisor.recover(channel, &initial);
    assert!(matches!(r, Err(SupervisionError::PayloadTooLarge)));
}

#[test]
fn inherited_garbage_is_a_setup_failure() {
    let supervisor = supervisor(SaveStatePolicy::OnRestart, 4096);
    let r = supervisor.attach_channel(Some(&vec![1, 2, 3]));
    assert!(matches!(r, Err(SupervisionError::ChannelDescriptionInvalid)));
}

#[test]
fn generation_counter_counts_launches() {
    let mut supervisor = supervisor(SaveStatePolicy::OnRestart, 4096);
    assert_eq!(supervisor.generations_launched(), 0);
    supervisor.record_launch();
    supervisor.record_launch();
    assert_eq!(supervisor.generations_launched(), 2);
}
