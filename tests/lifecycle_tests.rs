use thread_timer::{
    release_outcome, ThreadTimer, TimerAction, TimerError, TimerEvent, TimerInterval, TimerPhase,
};

/// A stand-in for the operating system that counts the calls made of it.
struct FakeOs {
    thread_id: i32,
    create_error: Option<i32>,
    arm_error: Option<i32>,
    identify_calls: u32,
    create_calls: u32,
    arm_calls: u32,
    release_calls: u32,
    last_target: Option<i32>,
    last_interval: Option<TimerInterval>,
}

impl FakeOs {
    fn new(thread_id: i32) -> FakeOs {
        FakeOs {
            thread_id,
            create_error: None,
            arm_error: None,
            identify_calls: 0,
            create_calls: 0,
            arm_calls: 0,
            release_calls: 0,
            last_target: None,
            last_interval: None,
        }
    }

    fn perform(&mut self, action: TimerAction) -> Option<TimerEvent> {
        match action {
            TimerAction::IdentifyThread => {
                self.identify_calls += 1;
                Some(TimerEvent::ThreadIdentified(self.thread_id))
            }
            TimerAction::CreateTimer { thread_id } => {
                self.create_calls += 1;
                self.last_target = Some(thread_id);
                match self.create_error {
                    Some(code) => Some(TimerEvent::from_create_status(-1, code)),
                    None => Some(TimerEvent::from_create_status(0, 0)),
                }
            }
            TimerAction::ArmTimer { interval } => {
                self.arm_calls += 1;
                self.last_interval = Some(interval);
                match self.arm_error {
                    Some(code) => Some(TimerEvent::from_arm_status(-1, code)),
                    None => Some(TimerEvent::from_arm_status(0, 0)),
                }
            }
            TimerAction::ReleaseTimer => {
                self.release_calls += 1;
                None
            }
            TimerAction::Nothing => None,
        }
    }

    /// Drives set-up to its end, as a caller of the library would.
    fn construct(&mut self, frequency: i32) -> Result<ThreadTimer, TimerError> {
        let (mut timer, first) = ThreadTimer::start(frequency)?;
        let mut action = first;
        while let Some(event) = self.perform(action) {
            action = timer.step(event);
        }
        match timer.failure() {
            Some(e) => Err(e),
            None => Ok(timer),
        }
    }

    fn destroy(&mut self, mut timer: ThreadTimer) {
        let action = timer.step(TimerEvent::Destroy);
        self.perform(action);
    }
}

#[test]
fn construct_zero_fails_without_os_calls() {
    let mut os = FakeOs::new(11);
    assert!(matches!(os.construct(0), Err(TimerError::InvalidFrequency)));
    assert!(matches!(os.construct(-1), Err(TimerError::InvalidFrequency)));
    assert_eq!(os.identify_calls, 0);
    assert_eq!(os.create_calls, 0);
    assert_eq!(os.arm_calls, 0);
    assert_eq!(os.release_calls, 0);
}

#[test]
fn construct_arms_with_period_twice() {
    let mut os = FakeOs::new(11);
    let timer = os.construct(100).unwrap();
    assert!(timer.is_live());
    assert_eq!(timer.phase(), TimerPhase::Live);
    assert_eq!(timer.frequency(), 100);
    assert_eq!(timer.interval(), TimerInterval { secs: 0, nanos: 10_000_000 });
    assert_eq!(os.last_interval, Some(TimerInterval { secs: 0, nanos: 10_000_000 }));
    assert_eq!(os.create_calls, 1);
    assert_eq!(os.arm_calls, 1);
    assert_eq!(os.release_calls, 0);
}

#[test]
fn owner_thread_is_the_constructing_thread() {
    let mut first = FakeOs::new(101);
    let mut second = FakeOs::new(202);
    let a = first.construct(10).unwrap();
    let b = second.construct(10).unwrap();
    assert_eq!(a.owner_thread(), Some(101));
    assert_eq!(b.owner_thread(), Some(202));
    assert_eq!(first.last_target, Some(101));
    assert_eq!(second.last_target, Some(202));
}

#[test]
fn destroy_releases_exactly_once() {
    let mut os = FakeOs::new(7);
    let mut timer = os.construct(50).unwrap();
    let action = timer.step(TimerEvent::Destroy);
    assert_eq!(action, TimerAction::ReleaseTimer);
    os.perform(action);
    assert_eq!(timer.phase(), TimerPhase::Released);
    assert_eq!(timer.step(TimerEvent::Destroy), TimerAction::Nothing);
    assert_eq!(os.release_calls, 1);
}

#[test]
fn create_failure_releases_nothing() {
    let mut os = FakeOs::new(7);
    os.create_error = Some(11);
    let r = os.construct(50);
    assert!(matches!(r, Err(TimerError::TimerCreationFailed(11))));
    assert_eq!(os.create_calls, 1);
    assert_eq!(os.arm_calls, 0);
    assert_eq!(os.release_calls, 0);
}

#[test]
fn arm_failure_releases_the_created_timer() {
    let mut os = FakeOs::new(7);
    os.arm_error = Some(22);
    let r = os.construct(50);
    assert!(matches!(r, Err(TimerError::TimerArmFailed(22))));
    assert_eq!(os.create_calls, 1);
    assert_eq!(os.arm_calls, 1);
    assert_eq!(os.release_calls, 1);
}

#[test]
fn repeated_cycles_do_not_leak() {
    let mut os = FakeOs::new(3);
    for _ in 0..100 {
        let timer = os.construct(1000).unwrap();
        os.destroy(timer);
    }
    os.arm_error = Some(5);
    for _ in 0..10 {
        assert!(os.construct(1000).is_err());
    }
    assert_eq!(os.create_calls, 110);
    assert_eq!(os.release_calls, os.create_calls);
}

#[test]
fn events_out_of_place_change_nothing() {
    let (mut timer, first) = ThreadTimer::start(4).unwrap();
    assert_eq!(first, TimerAction::IdentifyThread);
    assert_eq!(timer.phase(), TimerPhase::AwaitingThread);
    assert_eq!(timer.owner_thread(), None);
    assert_eq!(timer.step(TimerEvent::Created), TimerAction::Nothing);
    assert_eq!(timer.step(TimerEvent::Destroy), TimerAction::Nothing);
    assert_eq!(timer.phase(), TimerPhase::AwaitingThread);
    assert_eq!(timer.step(TimerEvent::ThreadIdentified(9)), TimerAction::CreateTimer { thread_id: 9 });
    assert_eq!(timer.step(TimerEvent::ThreadIdentified(10)), TimerAction::Nothing);
    assert_eq!(timer.owner_thread(), Some(9));
    assert_eq!(timer.step(TimerEvent::Destroy), TimerAction::Nothing);
    assert_eq!(
        timer.step(TimerEvent::Created),
        TimerAction::ArmTimer { interval: TimerInterval { secs: 0, nanos: 250_000_000 } }
    );
    assert_eq!(timer.step(TimerEvent::Destroy), TimerAction::ReleaseTimer);
    assert_eq!(timer.phase(), TimerPhase::Released);
    assert_eq!(timer.failure(), None);
}

#[test]
fn status_codes_map_to_events() {
    assert_eq!(TimerEvent::from_create_status(0, 5), TimerEvent::Created);
    assert_eq!(TimerEvent::from_create_status(-1, 5), TimerEvent::CreateFailed(5));
    assert_eq!(TimerEvent::from_arm_status(0, 5), TimerEvent::Armed);
    assert_eq!(TimerEvent::from_arm_status(-1, 22), TimerEvent::ArmFailed(22));
    assert_eq!(release_outcome(0, 5), Ok(()));
    assert_eq!(release_outcome(-1, 22), Err(TimerError::TimerReleaseFailed(22)));
}
