use robus::Deque;
use robus::Message;
use robus::Command;

#[test]
fn is_empty() {
    let d: Deque<u8> = Deque::new(5);
    assert_eq!(d.values().len(), 0);
}

#[test]
fn max_size() {
    let s: usize = 7;
    let mut deque = Deque::new(s);

    for _ in 0..2 * s {
        deque.push(0);
    }
    assert_eq!(deque.values().len(), s);
}

#[test]
fn insert() {
    let mut deque = Deque::new(3);

    let data = [1, 2, 3];

    for d in data.iter() {
        deque.push(d.clone());
    }

    assert_eq!(deque.values().len(), data.len());
    for (i, &d) in deque.iter().iter().enumerate() {
        assert_eq!(d, data[i]);
    }

    let data = [4, 5, 6];
    for d in data.iter() {
        deque.push(d.clone());
    }

    assert_eq!(deque.values().len(), data.len());
    for (i, &d) in deque.iter().iter().enumerate() {
        assert_eq!(d, data[i]);
    }
}

#[test]
fn push_and_pop() {
    let mut deque = Deque::new(2);

    deque.push(1);
    deque.push(2);
    deque.push(3);
    assert_eq!(deque.pop(), Some(2));
    assert_eq!(deque.pop(), Some(3));
}

#[test]
fn slot_overwrite() {
    let mut slot: Deque<Message> = Deque::new(1);

    let a = Message::id(1, Command::GetState, &vec![]);
    let b = Message::id(2, Command::PublishState, &vec![9]);

    slot.push(a);
    slot.push(b.clone());

    assert_eq!(slot.pop(), Some(b));
    assert_eq!(slot.pop(), None);
}

#[test]
fn slot_interleaved() {
    let mut slot: Deque<Message> = Deque::new(1);

    let sent: Vec<Message> = (0..5u8)
        .map(|i| Message::id(i as u16, Command::PublishState, &vec![i, i, i]))
        .collect();

    for m in sent.iter() {
        slot.push(m.clone());
        let got = slot.pop().unwrap();
        assert_eq!(&got, m);
        assert_eq!(got.data.len(), got.header.data_size);
        assert_eq!(slot.pop(), None);
    }
}
