use call_x::CallXArgs;

#[test]
fn default_collects_logs_and_skips_gas() {
    let a = CallXArgs::default();
    assert_eq!(a.ignore_logs, None);
    assert_eq!(a.eval_gas, None);
    assert!(!a.should_ignore_logs());
    assert!(!a.should_eval_gas());
}

#[test]
fn no_flags_resolve_as_default() {
    let a = CallXArgs { ignore_logs: None, eval_gas: None };
    let d = CallXArgs::default();
    assert_eq!(a, d);
    assert_eq!(a.should_ignore_logs(), d.should_ignore_logs());
    assert_eq!(a.should_eval_gas(), d.should_eval_gas());
}

#[test]
fn explicit_false_resolves_as_absent() {
    let a = CallXArgs { ignore_logs: Some(false), eval_gas: Some(false) };
    assert!(!a.should_ignore_logs());
    assert!(!a.should_eval_gas());
    assert_ne!(a, CallXArgs::default());
}

#[test]
fn explicit_true_flags_are_reported() {
    let a = CallXArgs { ignore_logs: Some(true), eval_gas: None };
    assert!(a.should_ignore_logs());
    assert!(!a.should_eval_gas());
    let b = CallXArgs { ignore_logs: None, eval_gas: Some(true) };
    assert!(!b.should_ignore_logs());
    assert!(b.should_eval_gas());
    let c = CallXArgs { ignore_logs: Some(true), eval_gas: Some(true) };
    assert!(c.should_ignore_logs());
    assert!(c.should_eval_gas());
}
