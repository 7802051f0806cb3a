//! Task dispatch.

use wgpui::platform::dispatcher::{
    AfterSend, CrossEvent, Dispatcher, Priority, PRIORITY_COUNT,
};

#[test]
fn every_queued_priority_has_its_own_queue() {
    let indices =
        [Priority::High.index(), Priority::Medium.index(), Priority::Low.index()];
    assert_eq!(indices, [0, 1, 2]);
    assert_eq!(PRIORITY_COUNT, 3);
}

#[test]
fn eight_workers_run_per_processor() {
    let dispatcher = Dispatcher::new(7, 4);
    assert_eq!(dispatcher.worker_count, 32);
    assert!(dispatcher.is_main_thread(7));
    assert!(!dispatcher.is_main_thread(8));
}

#[test]
fn the_main_thread_is_woken_for_a_sent_task() {
    let dispatcher = Dispatcher::new(1, 1);
    assert_eq!(
        dispatcher.dispatch_on_main_thread(true),
        AfterSend::Notify(CrossEvent::WakeUp)
    );
    assert_eq!(dispatcher.dispatch_on_main_thread(false), AfterSend::ForgetTask);
}

#[test]
fn delayed_tasks_are_not_urgent() {
    assert_eq!(Dispatcher::new(1, 1).dispatch_after(), Priority::Low);
    assert_ne!(CrossEvent::SurfacePresent(3), CrossEvent::CloseWindow(3));
    assert_ne!(CrossEvent::SingleInstanceActivated, CrossEvent::WakeUp);
}
