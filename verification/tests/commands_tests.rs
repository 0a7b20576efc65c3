use frcredox_hal::hal::commands::{
    command_queue, report, resolve_wait, settle, Async, Command, CommandFuture, CommandSender,
    CommandWithReturn, HardwareContext, HardwareError, Worker,
};
use std::sync::mpsc::Receiver;
use futures::sync::oneshot::Canceled;

struct DummyCommand;

impl Command for DummyCommand {
    type Output = u32;

    fn execute(self, _: &mut HardwareContext) -> Result<u32, HardwareError> {
        Ok(42)
    }
}

struct DummySlowCommand;

impl Command for DummySlowCommand {
    type Output = u32;

    fn execute(self, _: &mut HardwareContext) -> Result<u32, HardwareError> {
        Ok(43)
    }
}

struct DummyErrorCommand;

impl Command for DummyErrorCommand {
    type Output = u32;

    fn execute(self, _: &mut HardwareContext) -> Result<u32, HardwareError> {
        Err(HardwareError::Unknown)
    }
}

fn wait<C: Command>(future: CommandFuture<C>) -> Result<C::Output, HardwareError> {
    match future.into_result() {
        Ok(result) => result,
        Err(mut receiver) => resolve_wait(match receiver.try_recv() {
            Ok(Some(result)) => Ok(result),
            Ok(None) => panic!("nothing was written"),
            Err(canceled) => Err(canceled),
        }),
    }
}

/// Stands in for the hardware thread: a queue and a worker that takes from
/// it when told to.
fn spawn_hardware_thread() -> (CommandSender, Receiver<CommandWithReturn>, Worker) {
    let (sender, queue) = command_queue();
    (sender, queue, Worker::new())
}

/// Runs what is queued, in the order of the queue, and returns how many
/// commands that were.
fn serve(queue: &Receiver<CommandWithReturn>, worker: &mut Worker) -> usize {
    let mut served = 0;
    while let Ok(unit) = queue.try_recv() {
        worker.execute(unit);
        served += 1;
    }
    served
}

#[test]
fn async_commands() {
    let (sender, queue, mut worker) = spawn_hardware_thread();
    let future = sender.run(DummyCommand).unwrap();
    assert_eq!(serve(&queue, &mut worker), 1);
    assert_eq!(wait(future).unwrap(), 42);
}

#[test]
fn async_commands_errors() {
    let (sender, queue, mut worker) = spawn_hardware_thread();
    let future = sender.run(DummyErrorCommand).unwrap();
    assert_eq!(serve(&queue, &mut worker), 1);
    assert!(wait(future).is_err());
}

#[test]
fn multiple_async_commands() {
    let (sender, queue, mut worker) = spawn_hardware_thread();
    let future_slow = sender.run(DummySlowCommand).unwrap();
    let future = sender.run(DummyCommand).unwrap();
    assert_eq!(serve(&queue, &mut worker), 2);
    assert_eq!(wait(future).unwrap(), 42);
    assert_eq!(wait(future_slow).unwrap(), 43);
}

#[test]
fn poll_is_not_ready_before_the_command_ran() {
    let (sender, queue, mut worker) = spawn_hardware_thread();
    let mut future = sender.run(DummyCommand).unwrap();
    assert_eq!(future.poll(), Ok(Async::NotReady));
    assert_eq!(future.poll(), Ok(Async::NotReady));
    assert!(!future.is_resolved());
    assert_eq!(serve(&queue, &mut worker), 1);
    assert_eq!(future.poll(), Ok(Async::Ready(42)));
    assert!(future.is_resolved());
}

#[test]
fn repeated_reads_give_the_same_result() {
    let (sender, queue, mut worker) = spawn_hardware_thread();
    let mut future = sender.run(DummyCommand).unwrap();
    serve(&queue, &mut worker);
    assert_eq!(future.poll(), Ok(Async::Ready(42)));
    assert_eq!(future.poll(), Ok(Async::Ready(42)));
    assert_eq!(future.poll(), Ok(Async::Ready(42)));
    assert_eq!(wait(future), Ok(42));
}

#[test]
fn failing_command_reports_failure_on_poll_and_wait() {
    let (sender, queue, mut worker) = spawn_hardware_thread();
    let mut future = sender.run(DummyErrorCommand).unwrap();
    let other = sender.run(DummyErrorCommand).unwrap();
    serve(&queue, &mut worker);
    assert_eq!(future.poll(), Err(HardwareError::Unknown));
    assert_eq!(future.poll(), Err(HardwareError::Unknown));
    assert_eq!(wait(future), Err(HardwareError::Unknown));
    assert_eq!(wait(other), Err(HardwareError::Unknown));
}

#[test]
fn queued_command_of_a_lost_worker_reports_crashed_worker() {
    let (sender, queue, worker) = spawn_hardware_thread();
    let mut future = sender.run(DummyCommand).unwrap();
    let other = sender.run(DummyCommand).unwrap();
    drop(worker);
    drop(queue);
    assert_eq!(future.poll(), Err(HardwareError::HardwareThreadCrashed));
    assert_eq!(future.poll(), Err(HardwareError::HardwareThreadCrashed));
    assert_eq!(wait(future), Err(HardwareError::HardwareThreadCrashed));
    assert_eq!(wait(other), Err(HardwareError::HardwareThreadCrashed));
}

#[test]
fn submission_to_a_lost_worker_fails() {
    let (sender, queue, _worker) = spawn_hardware_thread();
    drop(queue);
    match sender.run(DummyCommand) {
        Err(error) => {
            assert_eq!(error, HardwareError::HardwareThreadCrashed);
            assert!(error.is_worker_gone());
        }
        Ok(_) => panic!("a command was taken for a worker that is gone"),
    }
}

#[test]
fn dropping_every_sender_closes_the_queue() {
    let (sender, queue, mut worker) = spawn_hardware_thread();
    let second = sender.clone();
    let future = second.run(DummyCommand).unwrap();
    drop(sender);
    drop(second);
    let unit = queue.recv().unwrap();
    assert!(queue.recv().is_err());
    worker.execute(unit);
    assert_eq!(wait(future), Ok(42));
}

#[test]
fn abandoned_slot_reports_crashed_worker() {
    let (mut future, ret) = CommandFuture::<DummyCommand>::new();
    drop(ret);
    assert_eq!(future.poll(), Err(HardwareError::HardwareThreadCrashed));
    assert_eq!(wait(future), Err(HardwareError::HardwareThreadCrashed));
}

#[test]
fn result_written_for_nobody_is_not_delivered() {
    let (future, ret) = CommandFuture::<DummyCommand>::new();
    drop(future);
    assert_eq!(ret.set(Ok(7)), Err(Ok(7)));

    let (future, ret) = CommandFuture::<DummyCommand>::new();
    drop(future);
    assert_eq!(ret.set(Err(HardwareError::Dummy)), Err(Err(HardwareError::Dummy)));

    let (future, ret) = CommandFuture::<DummyCommand>::new();
    assert_eq!(ret.set(Ok(7)), Ok(()));
    assert_eq!(wait(future), Ok(7));
}

struct Numbered(u32);

impl Command for Numbered {
    type Output = u32;

    fn execute(self, _: &mut HardwareContext) -> Result<u32, HardwareError> {
        Ok(self.0)
    }
}

#[test]
fn commands_of_several_senders_run_in_the_order_given() {
    let (sender, queue, mut worker) = spawn_hardware_thread();
    let senders = [sender.clone(), sender.clone(), sender];
    let mut futures = Vec::new();
    for n in 0..12u32 {
        futures.push(senders[(n % 3) as usize].run(Numbered(n)).unwrap());
    }
    let mut order = Vec::new();
    while let Ok(unit) = queue.try_recv() {
        worker.execute(unit);
        let done: Vec<bool> = futures.iter_mut().map(|f| f.poll() != Ok(Async::NotReady)).collect();
        order.push(done.iter().filter(|d| **d).count());
        assert!(done.iter().take(order.len()).all(|d| *d));
    }
    assert_eq!(order, (1..=12).collect::<Vec<usize>>());
    for (n, future) in futures.into_iter().enumerate() {
        assert_eq!(wait(future), Ok(n as u32));
    }
}

#[test]
fn packed_command_runs_once_on_execute() {
    let (future, ret) = CommandFuture::new();
    let unit = CommandWithReturn::new(Numbered(5), ret);
    let mut worker = Worker::new();
    worker.execute(unit);
    assert_eq!(wait(future), Ok(5));
}

#[test]
fn settle_each_answer() {
    assert_eq!(settle::<u32>(Ok(None)), None);
    assert_eq!(settle(Ok(Some(Ok(5u32)))), Some(Ok(5)));
    assert_eq!(settle::<u32>(Ok(Some(Err(HardwareError::Dummy)))), Some(Err(HardwareError::Dummy)));
    assert_eq!(settle::<u32>(Err(Canceled)), Some(Err(HardwareError::HardwareThreadCrashed)));
}

#[test]
fn resolve_wait_each_answer() {
    assert_eq!(resolve_wait(Ok(Ok(5u32))), Ok(5));
    assert_eq!(resolve_wait::<u32>(Ok(Err(HardwareError::Unknown))), Err(HardwareError::Unknown));
    assert_eq!(resolve_wait::<u32>(Err(Canceled)), Err(HardwareError::HardwareThreadCrashed));
}

#[test]
fn report_each_state() {
    assert_eq!(report::<u32>(&None), Ok(Async::NotReady));
    assert_eq!(report(&Some(Ok(9u32))), Ok(Async::Ready(9)));
    assert_eq!(report::<u32>(&Some(Err(HardwareError::Dummy))), Err(HardwareError::Dummy));
}

#[test]
fn submitted_decides_by_the_queue() {
    let (future, _ret) = CommandFuture::<DummyCommand>::new();
    assert!(future.submitted(true).is_ok());
    let (future, _ret) = CommandFuture::<DummyCommand>::new();
    match future.submitted(false) {
        Err(error) => assert_eq!(error, HardwareError::HardwareThreadCrashed),
        Ok(_) => panic!("a future was handed out for a command that was not queued"),
    }
}

#[test]
fn errors_tell_dispatch_from_command() {
    assert!(HardwareError::HardwareThreadCrashed.is_worker_gone());
    assert!(!HardwareError::Unknown.is_worker_gone());
    assert!(!HardwareError::Dummy.is_worker_gone());
    assert_eq!(HardwareError::HardwareThreadCrashed.description(), "the hardware thread has crashed");
    assert_eq!(HardwareError::Unknown.description(), "unknown error");
    assert_eq!(HardwareError::Dummy.description(), "dummy error");
}
