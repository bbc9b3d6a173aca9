use nivalis::context::SurfaceError;
use nivalis::frame::{AcquireStep, FrameAction, FrameContext, FrameCycle, FrameState, QueueOp};

fn ready(cycle: &mut FrameCycle, now: u64, target: u32) -> FrameContext<u32> {
    assert_eq!(cycle.begin(now), FrameAction::Acquire);
    match cycle.acquired(Ok(target)) {
        AcquireStep::Ready(context) => context,
        _ => panic!("a target makes the frame ready"),
    }
}

#[test]
fn new_cycle_is_idle() {
    let cycle = FrameCycle::new();
    assert_eq!(cycle.get_state(), FrameState::Idle);
    assert_eq!(cycle.get_delta_time(), 0);
    assert!(cycle.get_state().is_at_rest());
}

#[test]
fn begin_then_end_submits_and_presents_once() {
    let mut cycle = FrameCycle::new();
    let context = ready(&mut cycle, 1_000, 9);
    assert_eq!(cycle.get_state(), FrameState::Ready);
    assert_eq!(*context.get_target(), 9);
    let (target, ops) = cycle.end(context).unwrap();
    assert_eq!(target, 9);
    assert_eq!(ops, vec![QueueOp::Submit, QueueOp::Present, QueueOp::TrimAtlas]);
    assert_eq!(ops.iter().filter(|op| **op == QueueOp::Submit).count(), 1);
    assert_eq!(ops.iter().filter(|op| **op == QueueOp::Present).count(), 1);
    assert_eq!(cycle.get_state(), FrameState::Submitted);
}

#[test]
fn begin_end_pairs_repeat() {
    let mut cycle = FrameCycle::new();
    for frame in 0..5u32 {
        let context = ready(&mut cycle, 16 * frame as u64, frame);
        let (target, ops) = cycle.end(context).unwrap();
        assert_eq!(target, frame);
        assert_eq!(ops.len(), 3);
        assert_eq!(cycle.get_state(), FrameState::Submitted);
    }
}

#[test]
fn two_failed_acquisitions_skip_the_frame() {
    let mut cycle = FrameCycle::new();
    assert_eq!(cycle.begin(0), FrameAction::Acquire);
    assert!(matches!(
        cycle.acquired::<u32>(Err(SurfaceError::Outdated)),
        AcquireStep::Retry
    ));
    assert_eq!(cycle.get_state(), FrameState::Acquiring { retried: true });
    assert!(matches!(
        cycle.acquired::<u32>(Err(SurfaceError::Lost)),
        AcquireStep::Skip
    ));
    assert_eq!(cycle.get_state(), FrameState::AcquireFailed);
}

#[test]
fn the_retry_is_not_retried() {
    for second in [
        SurfaceError::Outdated,
        SurfaceError::Lost,
        SurfaceError::Timeout,
        SurfaceError::OutOfMemory,
        SurfaceError::Other,
    ] {
        let mut cycle = FrameCycle::new();
        cycle.begin(0);
        assert!(matches!(
            cycle.acquired::<u32>(Err(SurfaceError::Lost)),
            AcquireStep::Retry
        ));
        assert!(matches!(
            cycle.acquired::<u32>(Err(second)),
            AcquireStep::Skip
        ));
        assert_eq!(cycle.get_state(), FrameState::AcquireFailed);
    }
}

#[test]
fn other_errors_skip_at_once() {
    for first in [
        SurfaceError::Timeout,
        SurfaceError::OutOfMemory,
        SurfaceError::Other,
    ] {
        let mut cycle = FrameCycle::new();
        cycle.begin(0);
        assert!(matches!(
            cycle.acquired::<u32>(Err(first)),
            AcquireStep::Skip
        ));
        assert_eq!(cycle.get_state(), FrameState::AcquireFailed);
    }
}

#[test]
fn the_retry_can_succeed() {
    let mut cycle = FrameCycle::new();
    cycle.begin(0);
    assert!(matches!(
        cycle.acquired::<u32>(Err(SurfaceError::Outdated)),
        AcquireStep::Retry
    ));
    match cycle.acquired(Ok(4u32)) {
        AcquireStep::Ready(context) => {
            assert_eq!(*context.get_target(), 4);
            assert!(cycle.end(context).is_some());
        }
        _ => panic!("the second try brought a target"),
    }
}

#[test]
fn a_skipped_frame_is_followed_by_the_next() {
    let mut cycle = FrameCycle::new();
    cycle.begin(0);
    cycle.acquired::<u32>(Err(SurfaceError::Timeout));
    let context = ready(&mut cycle, 10, 1);
    assert!(cycle.end(context).is_some());
}

#[test]
fn begin_is_refused_while_a_frame_is_in_flight() {
    let mut cycle = FrameCycle::new();
    assert_eq!(cycle.begin(5), FrameAction::Acquire);
    assert_eq!(cycle.begin(6), FrameAction::Refuse);
    assert_eq!(cycle.get_state(), FrameState::Acquiring { retried: false });
    let context = match cycle.acquired(Ok(1u32)) {
        AcquireStep::Ready(context) => context,
        _ => panic!("a target makes the frame ready"),
    };
    assert_eq!(cycle.begin(7), FrameAction::Refuse);
    assert_eq!(cycle.get_state(), FrameState::Ready);
    assert_eq!(cycle.compose(), FrameAction::Record);
    assert_eq!(cycle.begin(8), FrameAction::Refuse);
    assert_eq!(cycle.get_state(), FrameState::Composing);
    assert!(cycle.end(context).is_some());
    assert_eq!(cycle.begin(9), FrameAction::Acquire);
}

#[test]
fn an_unrequested_acquisition_is_ignored() {
    let mut cycle = FrameCycle::new();
    assert!(matches!(cycle.acquired(Ok(1u32)), AcquireStep::Skip));
    assert_eq!(cycle.get_state(), FrameState::Idle);
    let context = ready(&mut cycle, 0, 2);
    assert!(matches!(cycle.acquired(Ok(3u32)), AcquireStep::Skip));
    assert!(matches!(
        cycle.acquired::<u32>(Err(SurfaceError::Lost)),
        AcquireStep::Skip
    ));
    assert_eq!(cycle.get_state(), FrameState::Ready);
    assert!(cycle.end(context).is_some());
}

#[test]
fn compose_needs_a_ready_frame() {
    let mut cycle = FrameCycle::new();
    assert_eq!(cycle.compose(), FrameAction::Refuse);
    cycle.begin(0);
    assert_eq!(cycle.compose(), FrameAction::Refuse);
    let context = match cycle.acquired(Ok(1u32)) {
        AcquireStep::Ready(context) => context,
        _ => panic!("a target makes the frame ready"),
    };
    assert_eq!(cycle.compose(), FrameAction::Record);
    assert_eq!(cycle.compose(), FrameAction::Refuse);
    assert_eq!(cycle.get_state(), FrameState::Composing);
    assert!(cycle.end(context).is_some());
    assert_eq!(cycle.compose(), FrameAction::Refuse);
}

#[test]
fn a_stale_context_ends_nothing() {
    let mut first = FrameCycle::new();
    let mut second = FrameCycle::new();
    let context = ready(&mut first, 0, 1);
    assert!(second.end(context).is_none());
    assert_eq!(second.get_state(), FrameState::Idle);
    assert_eq!(first.get_state(), FrameState::Ready);
}

#[test]
fn discard_releases_the_target_unpresented() {
    let mut cycle = FrameCycle::new();
    let context = ready(&mut cycle, 0, 11);
    assert_eq!(cycle.discard(context), Some(11));
    assert_eq!(cycle.get_state(), FrameState::Idle);
    let context = ready(&mut cycle, 1, 12);
    cycle.compose();
    assert_eq!(cycle.discard(context), Some(12));
    assert_eq!(cycle.get_state(), FrameState::Idle);
    let mut other = FrameCycle::new();
    let context = ready(&mut cycle, 2, 13);
    assert_eq!(other.discard(context), None);
}

#[test]
fn delta_time_is_the_time_between_two_begins() {
    let mut cycle = FrameCycle::new();
    let context = ready(&mut cycle, 1_000, 0);
    assert_eq!(context.get_delta_time(), 0);
    assert_eq!(cycle.get_delta_time(), 0);
    cycle.end(context);
    let context = ready(&mut cycle, 17_500, 0);
    assert_eq!(context.get_delta_time(), 16_500);
    assert_eq!(cycle.get_delta_time(), 16_500);
    cycle.end(context);
}

#[test]
fn delta_time_counts_from_a_skipped_frame_too() {
    let mut cycle = FrameCycle::new();
    cycle.begin(100);
    cycle.acquired::<u32>(Err(SurfaceError::Other));
    let context = ready(&mut cycle, 130, 0);
    assert_eq!(context.get_delta_time(), 30);
    cycle.end(context);
}

#[test]
fn delta_time_is_zero_when_the_clock_goes_back() {
    let mut cycle = FrameCycle::new();
    let context = ready(&mut cycle, 500, 0);
    cycle.end(context);
    let context = ready(&mut cycle, 400, 0);
    assert_eq!(context.get_delta_time(), 0);
    cycle.end(context);
    let context = ready(&mut cycle, 450, 0);
    assert_eq!(context.get_delta_time(), 50);
    cycle.end(context);
}

#[test]
fn a_refused_begin_leaves_the_clock() {
    let mut cycle = FrameCycle::new();
    let context = ready(&mut cycle, 100, 0);
    cycle.end(context);
    let context = ready(&mut cycle, 200, 0);
    assert_eq!(cycle.begin(900), FrameAction::Refuse);
    assert_eq!(cycle.get_delta_time(), 100);
    cycle.end(context);
    let context = ready(&mut cycle, 250, 0);
    assert_eq!(context.get_delta_time(), 50);
    cycle.end(context);
}
