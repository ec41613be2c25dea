use libtock::result::{AllowError, CommandError, SubscribeError};
use libtock::syscalls::{AllowCall, CommandCall, SubscribeCall};

#[test]
fn command_outcome_returns_the_code() {
    let call = CommandCall { driver_number: 1, command_number: 2, arg1: 3, arg2: 4 };
    assert_eq!(call.outcome(7), Ok(7));
    assert_eq!(call.outcome(0), Ok(0));
    assert_eq!(
        call.outcome(-2),
        Err(CommandError { driver_number: 1, command_number: 2, arg1: 3, arg2: 4, return_code: -2 })
    );
}

#[test]
fn subscribe_outcome() {
    let call = SubscribeCall { driver_number: 5, subscribe_number: 6 };
    assert_eq!(call.outcome(0), Ok(()));
    assert_eq!(
        call.outcome(1),
        Err(SubscribeError { driver_number: 5, subscribe_number: 6, return_code: 1 })
    );
}

#[test]
fn allow_outcome() {
    let call = AllowCall { driver_number: 5, allow_number: 1, len: 8 };
    assert_eq!(call.outcome(0), Ok(()));
    assert_eq!(
        call.outcome(-3),
        Err(AllowError { driver_number: 5, allow_number: 1, return_code: -3 })
    );
}
