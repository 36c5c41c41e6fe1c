use flower::signal::Signal;

#[test]
fn signal_names() {
    assert_eq!(Signal::Alarm.name(), "SIGALRM");
    assert_eq!(Signal::Hangup.name(), "SIGHUP");
    assert_eq!(Signal::Interrupt.name(), "SIGINT");
    assert_eq!(Signal::Pipe.name(), "SIGPIPE");
    assert_eq!(Signal::Profile.name(), "SIGPROF");
    assert_eq!(Signal::Terminate.name(), "SIGTERM");
    assert_eq!(Signal::User1.name(), "SIGUSR1");
    assert_eq!(Signal::User2.name(), "SIGUSR2");
    assert_eq!(Signal::Other(28).name(), "UNKNOWN: 28");
    assert_eq!(Signal::Other(-3).name(), "UNKNOWN: -3");
    assert_eq!(Signal::Other(i32::MIN).name(), "UNKNOWN: -2147483648");
}

#[test]
fn known_signals_request_exit() {
    assert!(Signal::Terminate.requests_exit());
    assert!(Signal::Interrupt.requests_exit());
    assert!(Signal::User2.requests_exit());
    assert!(!Signal::Other(28).requests_exit());
}
