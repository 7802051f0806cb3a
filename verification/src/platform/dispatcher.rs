//! Task dispatch: which queue a task goes to, and how the main thread is woken.

use vstd::prelude::*;

verus! {

/// Priority of a task.
#[derive(Debug, Clone, Copy, PartialEq, Eq, Structural)]
pub enum Priority {
    /// Runs on a thread of its own, never in a queue.
    Realtime,
    /// Runs before the others.
    High,
    /// Runs before low-priority tasks.
    Medium,
    /// Runs last.
    Low,
}

/// Number of priorities that tasks are queued by.
pub const PRIORITY_COUNT: usize = 3;

/// Worker threads per processor.
pub const WORKERS_PER_CPU: usize = 8;

/// The queue of a priority, the most urgent first.
pub open spec fn queue_of(priority: Priority) -> int {
    match priority {
        Priority::High => 0,
        Priority::Medium => 1,
        Priority::Low => 2,
        Priority::Realtime => -1,
    }
}

impl Priority {
    /// The queue of this priority, the most urgent first. Realtime tasks are
    /// not queued.
    pub fn index(&self) -> (index: usize)
        requires
            *self != Priority::Realtime,
        ensures
            index == queue_of(*self),
    {
        match self {
            Priority::High => 0,
            Priority::Medium => 1,
            Priority::Low => 2,
            Priority::Realtime => vstd::pervasive::unreached(),
        }
    }
}

/// Every queued priority has a queue of its own.
pub proof fn law_queues_distinct(first: Priority, second: Priority)
    requires
        first != Priority::Realtime,
        second != Priority::Realtime,
    ensures
        0 <= queue_of(first) < PRIORITY_COUNT,
        queue_of(first) == queue_of(second) <==> first == second,
{
}

/// An event sent to the main thread's event loop. Windows are identified by
/// number.
#[derive(Debug, Clone, Copy, PartialEq, Eq, Structural)]
pub enum CrossEvent {
    /// There are tasks in the main thread's queue.
    WakeUp,
    /// A window's surface is ready to be presented.
    SurfacePresent(u64),
    /// Another instance of the application was started.
    SingleInstanceActivated,
    /// A window asked to be closed.
    CloseWindow(u64),
}

/// What to do once a task was handed to the main thread's queue, or was handed
/// back because the queue is gone.
#[derive(Debug, Clone, Copy, PartialEq, Eq, Structural)]
pub enum AfterSend {
    /// Send this event to the event loop.
    Notify(CrossEvent),
    /// Leak the task: it may only be dropped on the main thread.
    ForgetTask,
}

/// The dispatcher's settings. Threads are identified by number.
#[derive(Debug, Clone, Copy)]
pub struct Dispatcher {
    /// The thread that made the dispatcher.
    pub main_thread_id: u64,
    /// How many worker threads it runs.
    pub worker_count: usize,
}

impl Dispatcher {
    /// A dispatcher made on the thread `current_thread_id` of a machine with
    /// `cpu_count` processors.
    pub fn new(current_thread_id: u64, cpu_count: usize) -> (dispatcher: Self)
        requires
            cpu_count * WORKERS_PER_CPU <= usize::MAX,
        ensures
            dispatcher.main_thread_id == current_thread_id,
            dispatcher.worker_count == cpu_count * WORKERS_PER_CPU,
    {
        Dispatcher {
            main_thread_id: current_thread_id,
            worker_count: cpu_count * WORKERS_PER_CPU,
        }
    }

    /// Whether the thread `current_thread_id` is the main thread.
    pub fn is_main_thread(&self, current_thread_id: u64) -> (main: bool)
        ensures
            main == (current_thread_id == self.main_thread_id),
    {
        current_thread_id == self.main_thread_id
    }

    /// What to do after a task was sent to the main thread's queue.
    pub fn dispatch_on_main_thread(&self, sent: bool) -> (action: AfterSend)
        ensures
            action == if sent {
                AfterSend::Notify(CrossEvent::WakeUp)
            } else {
                AfterSend::ForgetTask
            },
    {
        if sent {
            AfterSend::Notify(CrossEvent::WakeUp)
        } else {
            AfterSend::ForgetTask
        }
    }

    /// The priority that delayed tasks are queued with.
    pub fn dispatch_after(&self) -> (priority: Priority)
        ensures
            priority == Priority::Low,
    {
        Priority::Low
    }
}

/// More urgent tasks are in earlier queues, and there are no queues but theirs.
pub proof fn law_queue_order(high: usize, medium: usize, low: usize)
    requires
        call_ensures(Priority::index, (&Priority::High,), high),
        call_ensures(Priority::index, (&Priority::Medium,), medium),
        call_ensures(Priority::index, (&Priority::Low,), low),
    ensures
        high == 0,
        medium == high + 1,
        low == medium + 1,
        PRIORITY_COUNT == low + 1,
{
}

/// The thread that makes a dispatcher is its main thread, and no other is. There
/// are eight workers for each processor.
pub proof fn law_main_thread(
    maker: u64,
    cpu_count: usize,
    dispatcher: Dispatcher,
    thread_id: u64,
    main: bool,
)
    requires
        call_ensures(Dispatcher::new, (maker, cpu_count), dispatcher),
        call_ensures(Dispatcher::is_main_thread, (&dispatcher, thread_id), main),
    ensures
        main <==> thread_id == maker,
        dispatcher.worker_count == 8 * cpu_count,
{
}

/// The event loop is woken for every task that reached the main thread's queue.
/// A task that did not is never dropped elsewhere. Delayed tasks run last.
pub proof fn law_dispatch(dispatcher: &Dispatcher, sent: bool, action: AfterSend, delayed: Priority)
    requires
        call_ensures(Dispatcher::dispatch_on_main_thread, (dispatcher, sent), action),
        call_ensures(Dispatcher::dispatch_after, (dispatcher,), delayed),
    ensures
        action is ForgetTask <==> !sent,
        sent ==> action == AfterSend::Notify(CrossEvent::WakeUp),
        delayed == Priority::Low,
{
}

} // verus!
