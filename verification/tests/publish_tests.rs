use wayice::shared_memory::{
    generate_sem_name, ipc_set_string, read_segment, window_list_segment_name, PublishFaults,
    PublishOutcome, SharedWorld,
};
use wayice::state::WayiceState;
use wayice::window_utils::{ToplevelMeta, WindowEntry};

fn fresh_world() -> SharedWorld {
    SharedWorld {
        sem: 1,
        segment: Vec::new(),
    }
}

#[test]
fn semaphore_name_is_derived_from_the_segment_name() {
    assert_eq!(
        generate_sem_name(b"/wayice_list_windows"),
        b"/semaphore_wayice_list_windows".to_vec()
    );
    assert_eq!(generate_sem_name(b"plain"), b"/semaphore_plain".to_vec());
    // Exactly one leading separator is stripped.
    assert_eq!(generate_sem_name(b"//x"), b"/semaphore_/x".to_vec());
    assert_eq!(generate_sem_name(b""), b"/semaphore_".to_vec());
    assert_eq!(
        generate_sem_name(&window_list_segment_name()),
        b"/semaphore_wayice_list_windows".to_vec()
    );
}

#[test]
fn publish_round_trip_yields_the_value_and_one_terminator() {
    let mut world = fresh_world();
    let outcome = ipc_set_string(&mut world, b"hello, shared memory", PublishFaults::none());
    assert_eq!(outcome, PublishOutcome::Published);
    assert_eq!(world.sem, 1);
    assert_eq!(world.segment.len(), b"hello, shared memory".len() + 1);
    assert_eq!(world.segment.last(), Some(&0u8));
    assert_eq!(read_segment(&world), b"hello, shared memory".to_vec());
}

#[test]
fn publishing_twice_leaves_the_second_value() {
    let mut world = fresh_world();
    ipc_set_string(&mut world, b"first", PublishFaults::none());
    ipc_set_string(&mut world, b"second", PublishFaults::none());
    assert_eq!(world.segment, b"second\0".to_vec());
    assert_eq!(world.sem, 1);
}

#[test]
fn empty_value_publishes_a_lone_terminator() {
    let mut world = fresh_world();
    let outcome = ipc_set_string(&mut world, b"", PublishFaults::none());
    assert_eq!(outcome, PublishOutcome::Published);
    assert_eq!(world.segment, vec![0u8]);
    assert_eq!(read_segment(&world), Vec::<u8>::new());
}

#[test]
fn failures_before_the_segment_is_touched_leave_it_unchanged() {
    for fault in [
        PublishFaults {
            sem_open: true,
            ..PublishFaults::none()
        },
        PublishFaults {
            sem_wait: true,
            ..PublishFaults::none()
        },
        PublishFaults {
            shm_open: true,
            ..PublishFaults::none()
        },
        PublishFaults {
            clear: true,
            ..PublishFaults::none()
        },
    ] {
        let mut world = fresh_world();
        world.segment = b"prior\0".to_vec();
        let outcome = ipc_set_string(&mut world, b"next", fault);
        assert_ne!(outcome, PublishOutcome::Published);
        assert_eq!(world.segment, b"prior\0".to_vec());
        assert_eq!(world.sem, 1, "the semaphore must come back released");
    }
}

#[test]
fn failure_outcomes_name_the_failed_step() {
    let mut world = fresh_world();
    assert_eq!(
        ipc_set_string(
            &mut world,
            b"v",
            PublishFaults {
                sem_open: true,
                ..PublishFaults::none()
            }
        ),
        PublishOutcome::SemOpenFailed
    );
    assert_eq!(
        ipc_set_string(
            &mut world,
            b"v",
            PublishFaults {
                sem_wait: true,
                ..PublishFaults::none()
            }
        ),
        PublishOutcome::WaitFailed
    );
    assert_eq!(
        ipc_set_string(
            &mut world,
            b"v",
            PublishFaults {
                shm_open: true,
                ..PublishFaults::none()
            }
        ),
        PublishOutcome::ShmOpenFailed
    );
    assert_eq!(
        ipc_set_string(
            &mut world,
            b"v",
            PublishFaults {
                clear: true,
                ..PublishFaults::none()
            }
        ),
        PublishOutcome::ClearFailed
    );
}

#[test]
fn late_failures_leave_the_documented_intermediate_content() {
    let mut world = fresh_world();
    world.segment = b"prior\0".to_vec();
    let outcome = ipc_set_string(
        &mut world,
        b"next",
        PublishFaults {
            size: true,
            ..PublishFaults::none()
        },
    );
    assert_eq!(outcome, PublishOutcome::SizeFailed);
    assert_eq!(world.segment, Vec::<u8>::new());
    assert_eq!(world.sem, 1);

    let mut world = fresh_world();
    world.segment = b"prior\0".to_vec();
    let outcome = ipc_set_string(
        &mut world,
        b"next",
        PublishFaults {
            map: true,
            ..PublishFaults::none()
        },
    );
    assert_eq!(outcome, PublishOutcome::MapFailed);
    assert_eq!(world.segment, vec![0u8; b"next".len() + 1]);
    assert_eq!(world.sem, 1);
}

#[test]
fn update_window_list_publishes_the_serialized_window_set() {
    let state = WayiceState {
        windows: vec![
            WindowEntry::Native(ToplevelMeta {
                title: Some(b"One".to_vec()),
                app_id: Some(b"a".to_vec()),
                modal: false,
                parent_id: None,
            }),
            WindowEntry::Unmapped,
        ],
        outputs: vec![],
    };
    let mut world = fresh_world();
    let outcome = state.ipc_shm_update_window_list(&mut world, PublishFaults::none());
    assert_eq!(outcome, PublishOutcome::Published);
    assert_eq!(world.sem, 1);
    assert_eq!(
        read_segment(&world),
        br#"[{"app_id":"a","is_modal":false,"parent_id":"None","title":"One"}]"#.to_vec()
    );
}
