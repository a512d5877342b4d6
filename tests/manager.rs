use summ_server::manager::{Access, ModelManager, Phase};

#[test]
fn concurrent_first_requests_load_once() {
    let mut m = ModelManager::new();
    let answers: Vec<Access> = (0..5).map(|_| m.request()).collect();
    let loads = answers.iter().filter(|a| matches!(a, Access::Load(_))).count();
    assert_eq!(loads, 1);
    assert_eq!(answers[0], Access::Load(1));
    for a in &answers[1..] {
        assert_eq!(*a, Access::Wait(1));
    }
    assert_eq!(m.load_finished(true), Access::Use);
    assert_eq!(m.poll(1), Access::Use);
    assert_eq!(m.request(), Access::Use);
    assert_eq!(m.phase(), Phase::Ready);
}

#[test]
fn failed_load_reaches_pending_and_later_requests() {
    let mut m = ModelManager::new();
    assert_eq!(m.request(), Access::Load(1));
    assert_eq!(m.request(), Access::Wait(1));
    assert_eq!(m.poll(1), Access::Wait(1));
    assert_eq!(m.load_finished(false), Access::Unavailable);
    assert_eq!(m.poll(1), Access::Unavailable);
    assert_eq!(m.phase(), Phase::Empty);
    assert_eq!(m.request(), Access::Load(2));
    assert_eq!(m.poll(1), Access::Unavailable);
    assert_eq!(m.request(), Access::Wait(2));
    assert_eq!(m.load_finished(false), Access::Unavailable);
    assert_eq!(m.poll(2), Access::Unavailable);
}

#[test]
fn retry_after_failure_can_succeed() {
    let mut m = ModelManager::new();
    assert_eq!(m.request(), Access::Load(1));
    assert_eq!(m.load_finished(false), Access::Unavailable);
    assert_eq!(m.request(), Access::Load(2));
    assert_eq!(m.load_finished(true), Access::Use);
    assert_eq!(m.request(), Access::Use);
}
