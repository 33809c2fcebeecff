use android_keystore::{entry_disposition, EntryDisposition};

#[test]
fn failed_call_is_host_failure_whatever_else_holds() {
    assert_eq!(
        entry_disposition(true, false, false),
        EntryDisposition::HostFailure
    );
    assert_eq!(
        entry_disposition(true, true, false),
        EntryDisposition::HostFailure
    );
    assert_eq!(
        entry_disposition(true, false, true),
        EntryDisposition::HostFailure
    );
    assert_eq!(
        entry_disposition(true, true, true),
        EntryDisposition::HostFailure
    );
}

#[test]
fn null_reference_means_alias_absent() {
    // An absent alias makes the host return null without throwing;
    // the instance-of answer is meaningless then (the host answers
    // true for every class on null) and must not turn the lookup into
    // a success.
    assert_eq!(entry_disposition(false, true, true), EntryDisposition::Absent);
    assert_eq!(entry_disposition(false, true, false), EntryDisposition::Absent);
}

#[test]
fn non_private_key_entry_is_unsupported() {
    assert_eq!(
        entry_disposition(false, false, false),
        EntryDisposition::Unsupported
    );
}

#[test]
fn only_a_present_private_key_entry_is_usable() {
    assert_eq!(
        entry_disposition(false, false, true),
        EntryDisposition::PrivateKey
    );
}
