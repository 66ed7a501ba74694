use hypercraft::vuart::{Bufqueue, Vuart, BUF_CAP};

#[test]
fn bufqueue_is_fifo() {
    let mut q: Bufqueue<4> = Bufqueue::new();
    assert!(q.is_empty());
    q.push(1);
    q.push(2);
    q.push(3);
    assert_eq!(q.pop(), Some(1));
    assert_eq!(q.pop(), Some(2));
    q.push(4);
    assert_eq!(q.pop(), Some(3));
    assert_eq!(q.pop(), Some(4));
    assert!(q.is_empty());
}

#[test]
fn bufqueue_push_past_capacity_overwrites_oldest() {
    let mut q: Bufqueue<3> = Bufqueue::new();
    for b in 1..=5u8 {
        q.push(b);
    }
    assert_eq!(q.pop(), Some(3));
    assert_eq!(q.pop(), Some(4));
    assert_eq!(q.pop(), Some(5));
    assert_eq!(q.pop(), None);
}

#[test]
fn bufqueue_pop_empty_is_rejected() {
    let mut q: Bufqueue<2> = Bufqueue::new();
    assert_eq!(q.pop(), None);
    q.push(9);
    assert_eq!(q.pop(), Some(9));
    assert_eq!(q.pop(), None);
    assert!(q.is_empty());
}

#[test]
fn vuart_starts_empty() {
    let mut u = Vuart::new(3);
    assert_eq!(u.id, 3);
    assert_eq!(u.ris, 0);
    assert_eq!(u.icr, 0);
    assert!(u.receive_fifo.is_empty());
    assert!(u.transmit_fifo.is_empty());
    for i in 0..(BUF_CAP + 2) {
        u.transmit_fifo.push(i as u8);
    }
    assert_eq!(u.transmit_fifo.pop(), Some(2));
}
