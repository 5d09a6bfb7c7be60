use vmm_devices::serial::Console;
use vmm_devices::serial::SingleCharBufferedConsole;

#[test]
fn mailbox_peek_and_pop() {
    let mut c = SingleCharBufferedConsole::new();
    assert_eq!(c.peek(), None);
    assert_eq!(c.try_read(true), None, "popping an empty mailbox yields nothing");
    assert!(c.can_notify());
    c.notify_char(42);
    assert_eq!(c.peek(), Some(42), "peeking does not consume");
    assert_eq!(c.try_read(false), Some(42), "reading without pop does not consume");
    assert_eq!(c.try_read(true), Some(42));
    assert_eq!(c.peek(), None, "the pop cleared the mailbox");
}

#[test]
fn producer_must_wait_until_pop() {
    let mut c = SingleCharBufferedConsole::new();
    c.notify_char(1);
    assert!(!c.can_notify(), "an occupied, open mailbox accepts nothing");
    c.try_read(true);
    assert!(c.can_notify(), "the pop releases the producer");
    c.notify_char(2);
    assert_eq!(c.try_read(true), Some(2), "the waiting byte becomes observable");
}

#[test]
fn close_releases_waiting_producer() {
    let mut c = SingleCharBufferedConsole::new();
    c.notify_char(9);
    assert!(!c.can_notify());
    c.close();
    assert!(c.can_notify(), "teardown unblocks a spinning producer");
    assert_eq!(c.peek(), Some(9), "the buffered byte is still observable");
}

#[test]
fn write_path_collects_output() {
    let mut c = SingleCharBufferedConsole::new();
    c.write(b'o');
    c.write(b'k');
    assert_eq!(c.take_output(), vec![b'o', b'k']);
    assert_eq!(c.take_output(), Vec::<u8>::new());
    c.write(b'!');
    assert_eq!(c.take_output(), vec![b'!']);
}
