use io_stream::{Io, Output, Write};

fn output(count: usize) -> Output {
    Output {
        buffer: Vec::new(),
        bytes_count: count,
    }
}

#[test]
fn write_first_resume_requests_the_bytes() {
    let mut write = Write::new(b"hello".to_vec());
    assert_eq!(write.resume(None), Err(Io::Write(Err(b"hello".to_vec()))));
    assert_eq!(write.resume(None), Err(Io::UnavailableInput));
}

#[test]
fn write_second_poll_without_rearm_is_unavailable() {
    let mut write = Write::new(vec![1]);
    let _ = write.resume(None);
    assert_eq!(write.resume(None), Err(Io::UnavailableInput));
}

#[test]
fn write_default_holds_nothing() {
    let mut write = Write::default();
    assert_eq!(write.resume(None), Err(Io::UnavailableInput));
}

#[test]
fn write_set_bytes_replaces() {
    let mut write = Write::new(vec![1, 2]);
    write.set_bytes(vec![3]);
    assert_eq!(write.resume(None), Err(Io::Write(Err(vec![3]))));
}

#[test]
fn write_with_bytes_builds() {
    let mut write = Write::default().with_bytes(vec![5, 6]);
    assert_eq!(write.resume(None), Err(Io::Write(Err(vec![5, 6]))));
}

#[test]
fn write_enqueue_appends_in_call_order() {
    let mut write = Write::new(b"ab".to_vec());
    write.enqueue_bytes(b"cd".to_vec());
    write.enqueue_bytes(b"e".to_vec());
    assert_eq!(write.resume(None), Err(Io::Write(Err(b"abcde".to_vec()))));
}

#[test]
fn write_enqueue_on_disarmed_sets() {
    let mut write = Write::default();
    write.enqueue_bytes(vec![4, 2]);
    assert_eq!(write.resume(None), Err(Io::Write(Err(vec![4, 2]))));
    write.enqueue_bytes(vec![7]);
    assert_eq!(write.resume(None), Err(Io::Write(Err(vec![7]))));
}

#[test]
fn write_enqueue_empty_keeps_bytes() {
    let mut write = Write::new(vec![1]);
    write.enqueue_bytes(Vec::new());
    assert_eq!(write.resume(None), Err(Io::Write(Err(vec![1]))));
}

#[test]
fn write_rejects_read_input_unchanged() {
    let mut write = Write::new(vec![1]);
    assert_eq!(
        write.resume(Some(Io::Read(Ok(output(3))))),
        Err(Io::UnexpectedInput(Box::new(Io::Read(Ok(output(3))))))
    );
    assert_eq!(write.resume(None), Err(Io::Write(Err(vec![1]))));
}

#[test]
fn write_rejects_nested_unexpected_input() {
    let mut write = Write::default();
    let nested = Io::UnexpectedInput(Box::new(Io::UnavailableInput));
    assert_eq!(
        write.resume(Some(nested)),
        Err(Io::UnexpectedInput(Box::new(Io::UnexpectedInput(Box::new(
            Io::UnavailableInput
        )))))
    );
}

#[test]
fn write_success_returns_output() {
    let mut write = Write::new(vec![1, 2, 3]);
    let _ = write.resume(None);
    assert_eq!(write.resume(Some(Io::Write(Ok(output(3))))), Ok(output(3)));
}

#[test]
fn write_failure_returns_bytes() {
    let mut write = Write::new(vec![1, 2, 3]);
    let _ = write.resume(None);
    assert_eq!(
        write.resume(Some(Io::Write(Err(vec![1, 2, 3])))),
        Err(Io::Write(Err(vec![1, 2, 3])))
    );
    write.set_bytes(vec![1, 2, 3]);
    assert_eq!(write.resume(None), Err(Io::Write(Err(vec![1, 2, 3]))));
}
