use bounded_queue::decimal::append_decimal;
use bounded_queue::{Queue, QueueError};

#[test]
fn full_queue_message() {
    let error = QueueError::QueueFull { bound: 3, size: 3 };
    assert_eq!(error.message(), "The queue is full, capacity: 3 size: 3");
}

#[test]
fn bound_too_small_message() {
    let error = QueueError::BoundTooSmall { requested: 2, size: 3 };
    assert_eq!(
        error.message(),
        "Capacity cannot be smaller than size, new_capacity: 2 size: 3"
    );
}

#[test]
fn message_of_a_refused_add() {
    let mut queue: Queue<i32> = Queue::with_cap(12);
    for item in 0..12 {
        queue.add(item).expect("room for twelve");
    }
    let error = queue.add(12).expect_err("the queue is full");
    assert_eq!(error.message(), "The queue is full, capacity: 12 size: 12");
}

#[test]
fn message_of_a_refused_bound() {
    let mut queue = Queue::from_vec(vec![0u8; 105]);
    let error = queue.set_bound(99).expect_err("99 is below 105");
    assert_eq!(
        error.message(),
        "Capacity cannot be smaller than size, new_capacity: 99 size: 105"
    );
    let error = queue.resize_bound(0).expect_err("0 is below 105");
    assert_eq!(
        error.message(),
        "Capacity cannot be smaller than size, new_capacity: 0 size: 105"
    );
}

#[test]
fn message_with_the_largest_number() {
    let error = QueueError::QueueFull { bound: usize::MAX, size: usize::MAX };
    assert_eq!(
        error.message(),
        format!("The queue is full, capacity: {} size: {}", usize::MAX, usize::MAX)
    );
}

#[test]
fn decimal_numerals() {
    let numbers: Vec<usize> = vec![0, 1, 9, 10, 11, 99, 100, 101, 1234567890, 4294967295, usize::MAX];
    for number in numbers {
        let mut text = String::new();
        append_decimal(&mut text, number);
        assert_eq!(text, format!("{}", number));
    }
}

#[test]
fn decimal_is_appended() {
    let mut text = String::from("n = ");
    append_decimal(&mut text, 407);
    assert_eq!(text, "n = 407");
    append_decimal(&mut text, 0);
    assert_eq!(text, "n = 4070");
}

#[test]
fn errors_compare_by_kind_and_numbers() {
    let full = QueueError::QueueFull { bound: 1, size: 1 };
    assert_eq!(full, QueueError::QueueFull { bound: 1, size: 1 });
    assert_ne!(full, QueueError::QueueFull { bound: 2, size: 1 });
    assert_ne!(full, QueueError::BoundTooSmall { requested: 1, size: 1 });
}
