use wolle::guard::{AnalysisBusyFlag, AnalysisBusyGuard, BusyError};

#[test]
fn one_of_two_attempts_succeeds() {
    let mut flag = AnalysisBusyFlag::new();
    assert!(!flag.is_busy());
    let first = AnalysisBusyGuard::try_acquire(&mut flag);
    let second = AnalysisBusyGuard::try_acquire(&mut flag);
    assert!(first.is_ok());
    assert_eq!(second.err(), Some(BusyError));
    assert!(flag.is_busy());
    first.unwrap().release(&mut flag);
    assert!(!flag.is_busy());
    let third = AnalysisBusyGuard::try_acquire(&mut flag);
    assert!(third.is_ok());
    assert!(flag.is_busy());
}

#[test]
fn attempts_behind_a_lock_let_exactly_one_through() {
    let flag = std::sync::Arc::new(std::sync::Mutex::new(AnalysisBusyFlag::new()));
    let mut granted = Vec::new();
    for _ in 0..8 {
        let token = AnalysisBusyGuard::try_acquire(&mut flag.lock().unwrap());
        if let Ok(token) = token {
            granted.push(token);
        }
    }
    assert_eq!(granted.len(), 1);
    granted.pop().unwrap().release(&mut flag.lock().unwrap());
    assert!(!flag.lock().unwrap().is_busy());
}

#[test]
fn failed_attempt_changes_nothing() {
    let mut flag = AnalysisBusyFlag::new();
    let token = AnalysisBusyGuard::try_acquire(&mut flag).unwrap();
    for _ in 0..3 {
        assert!(AnalysisBusyGuard::try_acquire(&mut flag).is_err());
        assert!(flag.is_busy());
    }
    token.release(&mut flag);
    assert!(!flag.is_busy());
}

#[test]
fn busy_message() {
    assert_eq!(BusyError.message(), "analysis already in progress");
}
