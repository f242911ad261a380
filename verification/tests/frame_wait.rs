use solarity_runtime::frame_wait::{FrameWait, ResultConsumption};

#[test]
fn only_native_waits_service_the_platform() {
    assert!(FrameWait::Native.is_native());
    assert!(!FrameWait::Offline.is_native());
}

#[test]
fn consumption_follows_readiness() {
    assert_eq!(
        FrameWait::Offline.consumption(false),
        ResultConsumption::Blocking
    );
    assert_eq!(
        FrameWait::Offline.consumption(true),
        ResultConsumption::Blocking
    );
    assert_eq!(FrameWait::Native.consumption(true), ResultConsumption::Ready);
    assert_eq!(
        FrameWait::Native.consumption(false),
        ResultConsumption::WaitThenConsume
    );
}

#[test]
fn native_waits_only_for_unfinished_work() {
    assert!(FrameWait::Native.waits_before_result(false));
    assert!(!FrameWait::Native.waits_before_result(true));
    assert!(!FrameWait::Offline.waits_before_result(false));
    assert!(FrameWait::Native.waits_before_reclaim(false));
    assert!(!FrameWait::Native.waits_before_reclaim(true));
    assert!(!FrameWait::Offline.waits_before_reclaim(false));
}
